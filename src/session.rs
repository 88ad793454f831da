use crate::registry::{commands_of, position_of_command, MenuCommand, MenuEntry, COMMAND_ID_BASE};
use vstd::prelude::*;

verus! {

/// Lifecycle of a tray session.
#[derive(PartialEq, Eq, Structural, Clone, Copy, Debug)]
pub enum SessionState {
    Uninitialized,
    Registered,
    Running,
    Terminating,
    Stopped,
}

/// What an icon-activity notification reports.
#[derive(PartialEq, Eq, Structural, Clone, Copy, Debug)]
pub enum IconSignal {
    RightPress,
    LeftPress,
    Other,
}

/// A platform message, as far as the session tells them apart.
#[derive(PartialEq, Eq, Structural, Clone, Copy, Debug)]
pub enum Event {
    /// A popup menu command was chosen; carries its identifier.
    Command(usize),
    /// Activity on the tray icon.
    Icon(IconSignal),
    /// The session's window is being destroyed.
    Destroy,
    /// Any other message.
    Other,
}

/// What the platform layer is to do after an event.
pub enum Action {
    /// Run the action of the entry at this position, once.
    Invoke(usize),
    /// Show a popup menu of these commands.
    ShowMenu(Vec<MenuCommand>),
    /// Nothing to do.
    Ignore,
    /// Hand the message to the platform's default handling.
    PassThrough,
    /// Remove the icon, release the window and leave the event pump.
    Terminate,
}

/// How acquiring the window and registering the icon went.
#[derive(PartialEq, Eq, Structural, Clone, Copy, Debug)]
pub enum Acquisition {
    Ready,
    NoWindow,
    IconRejected,
}

/// Why a session could not start.
#[derive(PartialEq, Eq, Structural, Clone, Copy, Debug)]
pub enum DisplayError {
    /// No native window handle could be obtained.
    NoWindow,
    /// The platform refused to register the icon.
    IconRejected,
}

/// What the platform needs to register the tray icon.
pub struct IconRegistration {
    /// 8×8 bitmap, one byte per row.
    pub icon: [u8; 8],
    /// Tooltip in the platform's native text format.
    pub tooltip: Vec<u16>,
}

/// The entry that a menu command designates, if any.
pub open spec fn selected_position<A>(entries: Seq<MenuEntry<A>>, id: int) -> Option<int> {
    match position_of_command(id) {
        Some(p) => if p < entries.len() {
            Some(p)
        } else {
            None
        },
        None => None,
    }
}

/// The state that a running session is in after `event`.
pub open spec fn state_after<A>(entries: Seq<MenuEntry<A>>, event: Event) -> SessionState {
    match event {
        Event::Command(id) => match selected_position(entries, id as int) {
            Some(p) => if entries[p].spec_is_quit() {
                SessionState::Terminating
            } else {
                SessionState::Running
            },
            None => SessionState::Running,
        },
        Event::Destroy => SessionState::Terminating,
        _ => SessionState::Running,
    }
}

/// Whether `action` is what a running session answers to `event`.
pub open spec fn reacts<A>(entries: Seq<MenuEntry<A>>, event: Event, action: Action) -> bool {
    match event {
        Event::Command(id) => match selected_position(entries, id as int) {
            Some(p) => if entries[p].spec_is_quit() {
                action == Action::Terminate
            } else {
                action == Action::Invoke(p as usize)
            },
            None => action == Action::Ignore,
        },
        Event::Icon(IconSignal::RightPress) => match action {
            Action::ShowMenu(cmds) => commands_of(cmds@, entries),
            _ => false,
        },
        Event::Icon(IconSignal::LeftPress) => action == Action::Ignore,
        Event::Icon(IconSignal::Other) => action == Action::PassThrough,
        Event::Destroy => action == Action::Terminate,
        Event::Other => action == Action::PassThrough,
    }
}

/// The state after the platform reported how acquisition went.
pub open spec fn state_after_start(outcome: Acquisition) -> SessionState {
    match outcome {
        Acquisition::Ready => SessionState::Running,
        _ => SessionState::Stopped,
    }
}

/// The result of starting after the platform reported how acquisition went.
pub open spec fn start_result(outcome: Acquisition) -> Result<(), DisplayError> {
    match outcome {
        Acquisition::Ready => Ok(()),
        Acquisition::NoWindow => Err(DisplayError::NoWindow),
        Acquisition::IconRejected => Err(DisplayError::IconRejected),
    }
}

/// Choosing an entry that does not end the session runs that entry's action,
/// and no other, once; the session keeps running.
pub proof fn lemma_select_runs_its_action<A>(entries: Seq<MenuEntry<A>>, p: int, action: Action)
    requires
        0 <= p < entries.len(),
        p + COMMAND_ID_BASE <= usize::MAX,
        !entries[p].spec_is_quit(),
    ensures
        state_after(entries, Event::Command((p + COMMAND_ID_BASE) as usize))
            == SessionState::Running,
        reacts(entries, Event::Command((p + COMMAND_ID_BASE) as usize), action) <==> action
            == Action::Invoke(p as usize),
{
}

/// Choosing any entry that ends the session has the platform remove the icon
/// and leave the pump, however many other entries there are.
pub proof fn lemma_select_quit_terminates<A>(entries: Seq<MenuEntry<A>>, p: int, action: Action)
    requires
        0 <= p < entries.len(),
        p + COMMAND_ID_BASE <= usize::MAX,
        entries[p].spec_is_quit(),
    ensures
        state_after(entries, Event::Command((p + COMMAND_ID_BASE) as usize))
            == SessionState::Terminating,
        reacts(entries, Event::Command((p + COMMAND_ID_BASE) as usize), action) <==> action
            == Action::Terminate,
{
}

/// A destroy event ends a running session, whatever its menu, and runs no
/// entry's action.
pub proof fn lemma_destroy_terminates<A>(entries: Seq<MenuEntry<A>>, action: Action)
    ensures
        state_after(entries, Event::Destroy) == SessionState::Terminating,
        reacts(entries, Event::Destroy, action) <==> action == Action::Terminate,
{
}

/// A command identifier that designates no entry is ignored and the session
/// keeps running.
pub proof fn lemma_unknown_command_ignored<A>(entries: Seq<MenuEntry<A>>, id: usize, action: Action)
    requires
        id < COMMAND_ID_BASE || id - COMMAND_ID_BASE >= entries.len(),
    ensures
        state_after(entries, Event::Command(id)) == SessionState::Running,
        reacts(entries, Event::Command(id), action) <==> action == Action::Ignore,
{
}

} // verus!
