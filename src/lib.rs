pub mod icon;
pub mod registry;
pub mod session;
pub mod text;

use crate::icon::{icon_of, provision};
use crate::registry::{appended, commands_of, MenuCommand, MenuEntry, MenuRegistry};
use crate::session::{
    reacts, start_result, state_after, state_after_start, Acquisition, Action, DisplayError,
    Event, IconRegistration, IconSignal, SessionState,
};
use crate::text::{to_win_string, win_string};
use vstd::prelude::*;

verus! {

/// A tray session: a display name, its menu, and where it stands in its
/// lifecycle.
pub struct Sysbar<A> {
    name: String,
    registry: MenuRegistry<A>,
    state: SessionState,
}

impl<A> Sysbar<A> {
    pub closed spec fn spec_name(&self) -> Seq<char> {
        self.name@
    }

    pub closed spec fn spec_entries(&self) -> Seq<MenuEntry<A>> {
        self.registry@
    }

    pub closed spec fn spec_state(&self) -> SessionState {
        self.state
    }

    pub closed spec fn wf(&self) -> bool {
        self.registry.wf()
    }

    /// Room for one more menu entry.
    pub open spec fn has_room(&self) -> bool {
        self.spec_entries().len() + crate::registry::COMMAND_ID_BASE < usize::MAX
    }

    /// A session named `name`, with no entries, not yet shown.
    pub fn new(name: &str) -> (r: Self)
        ensures
            r.wf(),
            r.spec_name() == name@,
            r.spec_entries().len() == 0,
            r.spec_state() == SessionState::Uninitialized,
    {
        Sysbar {
            name: name.to_owned(),
            registry: MenuRegistry::new(),
            state: SessionState::Uninitialized,
        }
    }

    /// Adds an entry labelled `label` that runs `action` when selected.
    pub fn add_item(&mut self, label: &str, action: A)
        requires
            old(self).wf(),
            old(self).has_room(),
        ensures
            final(self).wf(),
            final(self).spec_name() == old(self).spec_name(),
            final(self).spec_state() == old(self).spec_state(),
            appended(old(self).spec_entries(), final(self).spec_entries()),
            final(self).spec_entries().last().position == old(self).spec_entries().len(),
            final(self).spec_entries().last().label@ == win_string(label@),
            final(self).spec_entries().last().action == Some(action),
    {
        self.registry.add(label, action);
    }

    /// Adds an entry labelled `label` whose selection ends the session.
    pub fn add_quit_item(&mut self, label: &str)
        requires
            old(self).wf(),
            old(self).has_room(),
        ensures
            final(self).wf(),
            final(self).spec_name() == old(self).spec_name(),
            final(self).spec_state() == old(self).spec_state(),
            appended(old(self).spec_entries(), final(self).spec_entries()),
            final(self).spec_entries().last().position == old(self).spec_entries().len(),
            final(self).spec_entries().last().label@ == win_string(label@),
            final(self).spec_entries().last().spec_is_quit(),
    {
        self.registry.add_quit(label);
    }

    /// Begins showing the session: hands out the icon bitmap and tooltip that
    /// the platform registers.
    pub fn display(&mut self) -> (r: IconRegistration)
        requires
            old(self).spec_state() == SessionState::Uninitialized,
        ensures
            final(self).spec_state() == SessionState::Registered,
            final(self).spec_name() == old(self).spec_name(),
            final(self).spec_entries() == old(self).spec_entries(),
            final(self).wf() == old(self).wf(),
            r.icon@ == icon_of(old(self).spec_name()),
            r.tooltip@ == win_string(old(self).spec_name()),
    {
        let icon = provision(self.name.as_str());
        let tooltip = to_win_string(self.name.as_str());
        self.state = SessionState::Registered;
        IconRegistration { icon, tooltip }
    }

    /// Takes in how acquiring the window and registering the icon went: the
    /// session runs, or stops with the matching error.
    pub fn start(&mut self, outcome: Acquisition) -> (r: Result<(), DisplayError>)
        requires
            old(self).spec_state() == SessionState::Registered,
        ensures
            r == start_result(outcome),
            final(self).spec_state() == state_after_start(outcome),
            final(self).spec_name() == old(self).spec_name(),
            final(self).spec_entries() == old(self).spec_entries(),
            final(self).wf() == old(self).wf(),
    {
        match outcome {
            Acquisition::Ready => {
                self.state = SessionState::Running;
                Ok(())
            },
            Acquisition::NoWindow => {
                self.state = SessionState::Stopped;
                Err(DisplayError::NoWindow)
            },
            Acquisition::IconRejected => {
                self.state = SessionState::Stopped;
                Err(DisplayError::IconRejected)
            },
        }
    }

    /// Decides what a running session does with one platform message.
    pub fn handle(&mut self, event: Event) -> (r: Action)
        requires
            old(self).wf(),
            old(self).spec_state() == SessionState::Running,
        ensures
            reacts(old(self).spec_entries(), event, r),
            final(self).spec_state() == state_after(old(self).spec_entries(), event),
            final(self).spec_name() == old(self).spec_name(),
            final(self).spec_entries() == old(self).spec_entries(),
            final(self).wf(),
    {
        match event {
            Event::Command(id) => {
                if id < crate::registry::COMMAND_ID_BASE {
                    return Action::Ignore;
                }
                let p = id - crate::registry::COMMAND_ID_BASE;
                match self.registry.get(p) {
                    Some(entry) => {
                        if entry.is_quit() {
                            self.state = SessionState::Terminating;
                            Action::Terminate
                        } else {
                            Action::Invoke(p)
                        }
                    },
                    None => Action::Ignore,
                }
            },
            Event::Icon(IconSignal::RightPress) => Action::ShowMenu(self.registry.menu_commands()),
            Event::Icon(IconSignal::LeftPress) => Action::Ignore,
            Event::Icon(IconSignal::Other) => Action::PassThrough,
            Event::Destroy => {
                self.state = SessionState::Terminating;
                Action::Terminate
            },
            Event::Other => Action::PassThrough,
        }
    }

    /// Where the session stands in its lifecycle.
    #[verifier::when_used_as_spec(spec_state)]
    pub fn state(&self) -> (r: SessionState)
        ensures
            r == self.spec_state(),
    {
        self.state
    }

    /// The display name.
    pub fn name(&self) -> (r: &str)
        ensures
            r@ == self.spec_name(),
    {
        self.name.as_str()
    }

    /// Number of menu entries.
    pub fn len(&self) -> (r: usize)
        ensures
            r == self.spec_entries().len(),
    {
        self.registry.len()
    }

    /// The menu entry at `position`, or `None` when there is none.
    pub fn entry(&self, position: usize) -> (r: Option<&MenuEntry<A>>)
        ensures
            position < self.spec_entries().len() ==> r == Some(&self.spec_entries()[position as int]),
            position >= self.spec_entries().len() ==> r is None,
    {
        self.registry.get(position)
    }

    /// The popup commands for all entries, in ascending position.
    pub fn menu_commands(&self) -> (r: Vec<MenuCommand>)
        requires
            self.wf(),
        ensures
            commands_of(r@, self.spec_entries()),
    {
        self.registry.menu_commands()
    }

    /// Records that the icon was removed and the window released.
    pub fn finish(&mut self)
        requires
            old(self).spec_state() == SessionState::Terminating,
        ensures
            final(self).spec_state() == SessionState::Stopped,
            final(self).spec_name() == old(self).spec_name(),
            final(self).spec_entries() == old(self).spec_entries(),
            final(self).wf() == old(self).wf(),
    {
        self.state = SessionState::Stopped;
    }
}

} // verus!
