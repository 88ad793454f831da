use std::cell::Cell;
use std::rc::Rc;
use sysbar::registry::COMMAND_ID_BASE;
use sysbar::session::{Acquisition, Action, DisplayError, Event, IconSignal, SessionState};
use sysbar::text::to_win_string;
use sysbar::Sysbar;

type Callback = Box<dyn Fn()>;

fn counter() -> (Rc<Cell<u32>>, Callback) {
    let count = Rc::new(Cell::new(0u32));
    let seen = count.clone();
    (count, Box::new(move || seen.set(seen.get() + 1)))
}

/// Runs the action that the session asked for, as a platform layer would.
fn perform(bar: &Sysbar<Callback>, action: &Action) {
    if let Action::Invoke(p) = action {
        let entry = bar.entry(*p).unwrap();
        (entry.action.as_ref().unwrap())();
    }
}

fn running_demo() -> (Sysbar<Callback>, Rc<Cell<u32>>, Rc<Cell<u32>>) {
    let (f_count, f) = counter();
    let (g_count, g) = counter();
    let mut bar: Sysbar<Callback> = Sysbar::new("Demo");
    bar.add_item("Ping", f);
    bar.add_item("Pong", g);
    bar.add_quit_item("Quit");
    bar.display();
    assert_eq!(bar.start(Acquisition::Ready), Ok(()));
    (bar, f_count, g_count)
}

#[test]
fn demo_end_to_end() {
    let (mut bar, f_count, g_count) = running_demo();
    assert_eq!(bar.len(), 3);
    assert_eq!(bar.entry(0).unwrap().position, 0);
    assert_eq!(bar.entry(1).unwrap().position, 1);
    assert_eq!(bar.entry(2).unwrap().position, 2);
    assert!(bar.entry(2).unwrap().is_quit());
    assert_eq!(bar.state(), SessionState::Running);

    let menu = bar.handle(Event::Icon(IconSignal::RightPress));
    match &menu {
        Action::ShowMenu(cmds) => {
            assert_eq!(cmds.len(), 3);
            assert_eq!(cmds[1].id, COMMAND_ID_BASE + 1);
            assert_eq!(cmds[1].label, to_win_string("Pong"));
        }
        _ => panic!("right press must show the menu"),
    }

    let pick = bar.handle(Event::Command(COMMAND_ID_BASE + 1));
    assert!(matches!(pick, Action::Invoke(1)));
    perform(&bar, &pick);
    assert_eq!(g_count.get(), 1);
    assert_eq!(f_count.get(), 0);
    assert_eq!(bar.state(), SessionState::Running);

    let quit = bar.handle(Event::Command(COMMAND_ID_BASE + 2));
    assert!(matches!(quit, Action::Terminate));
    assert_eq!(bar.state(), SessionState::Terminating);
    bar.finish();
    assert_eq!(bar.state(), SessionState::Stopped);
    assert_eq!(g_count.get(), 1);
    assert_eq!(f_count.get(), 0);
}

#[test]
fn selecting_entry_runs_its_action_once() {
    let (mut bar, f_count, g_count) = running_demo();
    let pick = bar.handle(Event::Command(COMMAND_ID_BASE));
    assert!(matches!(pick, Action::Invoke(0)));
    perform(&bar, &pick);
    assert_eq!(f_count.get(), 1);
    assert_eq!(g_count.get(), 0);
    assert_eq!(bar.state(), SessionState::Running);
}

#[test]
fn quit_among_many_entries_terminates() {
    let mut bar: Sysbar<u32> = Sysbar::new("Many");
    for i in 0..20u32 {
        bar.add_item("Item", i);
    }
    bar.add_quit_item("Quit");
    bar.add_item("After", 99);
    bar.display();
    bar.start(Acquisition::Ready).unwrap();
    let a = bar.handle(Event::Command(COMMAND_ID_BASE + 20));
    assert!(matches!(a, Action::Terminate));
    assert_eq!(bar.state(), SessionState::Terminating);
    bar.finish();
    assert_eq!(bar.state(), SessionState::Stopped);
}

#[test]
fn destroy_terminates_without_running_actions() {
    let (mut bar, f_count, g_count) = running_demo();
    let a = bar.handle(Event::Destroy);
    assert!(matches!(a, Action::Terminate));
    assert_eq!(bar.state(), SessionState::Terminating);
    bar.finish();
    assert_eq!(bar.state(), SessionState::Stopped);
    assert_eq!(f_count.get(), 0);
    assert_eq!(g_count.get(), 0);
}

#[test]
fn unknown_command_is_ignored() {
    let (mut bar, f_count, g_count) = running_demo();
    let mut two: Sysbar<u32> = Sysbar::new("Two");
    two.add_item("A", 1);
    two.add_item("B", 2);
    two.display();
    two.start(Acquisition::Ready).unwrap();
    assert!(matches!(two.handle(Event::Command(COMMAND_ID_BASE + 9999)), Action::Ignore));
    assert_eq!(two.state(), SessionState::Running);
    assert!(matches!(two.handle(Event::Command(COMMAND_ID_BASE + 2)), Action::Ignore));
    assert!(matches!(two.handle(Event::Command(0)), Action::Ignore));
    assert!(matches!(two.handle(Event::Command(COMMAND_ID_BASE - 1)), Action::Ignore));
    assert_eq!(two.state(), SessionState::Running);
    assert!(matches!(bar.handle(Event::Command(usize::MAX)), Action::Ignore));
    assert_eq!(bar.state(), SessionState::Running);
    assert_eq!(f_count.get(), 0);
    assert_eq!(g_count.get(), 0);
}

#[test]
fn left_press_and_other_messages() {
    let (mut bar, _, _) = running_demo();
    assert!(matches!(bar.handle(Event::Icon(IconSignal::LeftPress)), Action::Ignore));
    assert!(matches!(bar.handle(Event::Icon(IconSignal::Other)), Action::PassThrough));
    assert!(matches!(bar.handle(Event::Other), Action::PassThrough));
    assert_eq!(bar.state(), SessionState::Running);
}

#[test]
fn display_hands_out_icon_and_tooltip() {
    let mut bar: Sysbar<u32> = Sysbar::new("Demo");
    assert_eq!(bar.state(), SessionState::Uninitialized);
    assert_eq!(bar.name(), "Demo");
    let reg = bar.display();
    assert_eq!(bar.state(), SessionState::Registered);
    assert_eq!(reg.icon, [0x1F, 0x36, 0x66, 0x66, 0x66, 0x36, 0x1F, 0x00]);
    assert_eq!(reg.tooltip, vec![0x44u16, 0x65, 0x6D, 0x6F, 0]);
}

#[test]
fn display_of_unnamed_session_has_blank_icon() {
    let mut bar: Sysbar<u32> = Sysbar::new("");
    let reg = bar.display();
    assert_eq!(reg.icon, [0u8; 8]);
    assert_eq!(reg.tooltip, vec![0u16]);
}

#[test]
fn start_without_window_fails() {
    let mut bar: Sysbar<u32> = Sysbar::new("Demo");
    bar.display();
    assert_eq!(bar.start(Acquisition::NoWindow), Err(DisplayError::NoWindow));
    assert_eq!(bar.state(), SessionState::Stopped);
}

#[test]
fn start_with_rejected_icon_fails() {
    let mut bar: Sysbar<u32> = Sysbar::new("Demo");
    bar.display();
    assert_eq!(bar.start(Acquisition::IconRejected), Err(DisplayError::IconRejected));
    assert_eq!(bar.state(), SessionState::Stopped);
}
