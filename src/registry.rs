use crate::text::{to_win_string, win_string};
use vstd::prelude::*;

verus! {

/// Offset added to a menu position to form the command identifier that the
/// platform reports when the entry is selected.
pub const COMMAND_ID_BASE: usize = 1001;

/// One selectable entry of the tray menu.
pub struct MenuEntry<A> {
    /// Position in the menu, fixed when the entry is added.
    pub position: usize,
    /// Label in the platform's native text format, encoded once when added.
    pub label: Vec<u16>,
    /// What selecting the entry runs; `None` marks an entry that ends the session.
    pub action: Option<A>,
}

impl<A> MenuEntry<A> {
    pub open spec fn spec_is_quit(&self) -> bool {
        self.action is None
    }

    /// Whether selecting this entry ends the session.
    #[verifier::when_used_as_spec(spec_is_quit)]
    pub fn is_quit(&self) -> (r: bool)
        ensures
            r == self.spec_is_quit(),
    {
        self.action.is_none()
    }
}

/// A command of the popup menu: the identifier the platform reports back on
/// selection and the label it shows.
pub struct MenuCommand {
    pub id: usize,
    pub label: Vec<u16>,
}

/// The popup commands that a menu of `entries` shows, one per entry, in order.
pub open spec fn commands_of<A>(cmds: Seq<MenuCommand>, entries: Seq<MenuEntry<A>>) -> bool {
    &&& cmds.len() == entries.len()
    &&& forall|i: int|
        0 <= i < cmds.len() ==> #[trigger] cmds[i].id == i + COMMAND_ID_BASE && cmds[i].label@
            == entries[i].label@
}

/// The position that a command identifier designates, if it designates one at all.
pub open spec fn position_of_command(id: int) -> Option<int> {
    if id >= COMMAND_ID_BASE {
        Some(id - COMMAND_ID_BASE)
    } else {
        None
    }
}

/// `next` is `prev` with one entry appended, as `add` and `add_quit` leave it.
pub open spec fn appended<A>(prev: Seq<MenuEntry<A>>, next: Seq<MenuEntry<A>>) -> bool {
    &&& next.len() == prev.len() + 1
    &&& next.take(prev.len() as int) == prev
}

/// Over any run of additions that starts from an empty menu, the entry at
/// each position is the one appended by the call of that index, and the
/// entries stand in the order of the calls.
pub proof fn lemma_positions_follow_calls<A>(menus: Seq<Seq<MenuEntry<A>>>, i: int)
    requires
        menus.len() >= 1,
        menus[0].len() == 0,
        forall|k: int| 0 <= k < menus.len() - 1 ==> appended(#[trigger] menus[k], menus[k + 1]),
        0 <= i < menus.len() - 1,
    ensures
        menus.last().len() == menus.len() - 1,
        menus.last()[i] == menus[i + 1].last(),
    decreases menus.len(),
{
    let n = menus.len() - 1;
    assert(appended(menus[n - 1], menus[n]));
    if i == n - 1 {
        if n >= 2 {
            lemma_positions_follow_calls(menus.drop_last(), 0);
        }
    } else {
        let shorter = menus.drop_last();
        assert forall|k: int| 0 <= k < shorter.len() - 1 implies appended(
            #[trigger] shorter[k],
            shorter[k + 1],
        ) by {
            assert(appended(menus[k], menus[k + 1]));
        }
        lemma_positions_follow_calls(shorter, i);
        assert(menus[n][i] == menus[n].take(menus[n - 1].len() as int)[i]);
    }
}

/// Append-only, ordered collection of menu entries.
pub struct MenuRegistry<A> {
    entries: Vec<MenuEntry<A>>,
}

impl<A> View for MenuRegistry<A> {
    type V = Seq<MenuEntry<A>>;

    closed spec fn view(&self) -> Seq<MenuEntry<A>> {
        self.entries@
    }
}

impl<A> MenuRegistry<A> {
    /// Positions run densely from zero in order of insertion, and every
    /// position still has a command identifier.
    pub open spec fn wf(&self) -> bool {
        &&& self@.len() + COMMAND_ID_BASE <= usize::MAX
        &&& forall|i: int| 0 <= i < self@.len() ==> #[trigger] self@[i].position == i
    }

    /// Room for one more entry.
    pub open spec fn has_room(&self) -> bool {
        self@.len() + COMMAND_ID_BASE < usize::MAX
    }

    pub fn new() -> (r: Self)
        ensures
            r.wf(),
            r@.len() == 0,
    {
        MenuRegistry { entries: Vec::new() }
    }

    pub fn len(&self) -> (r: usize)
        ensures
            r == self@.len(),
    {
        self.entries.len()
    }

    fn append(&mut self, label: &str, action: Option<A>) -> (p: usize)
        requires
            old(self).wf(),
            old(self).has_room(),
        ensures
            final(self).wf(),
            p == old(self)@.len(),
            appended(old(self)@, final(self)@),
            final(self)@[p as int].position == p,
            final(self)@[p as int].label@ == win_string(label@),
            final(self)@[p as int].action == action,
    {
        let p = self.entries.len();
        let encoded = to_win_string(label);
        self.entries.push(MenuEntry { position: p, label: encoded, action });
        proof {
            assert(self@.take(p as int) =~= old(self)@);
        }
        p
    }

    /// Appends an entry that runs `action`; returns its position.
    pub fn add(&mut self, label: &str, action: A) -> (p: usize)
        requires
            old(self).wf(),
            old(self).has_room(),
        ensures
            final(self).wf(),
            p == old(self)@.len(),
            appended(old(self)@, final(self)@),
            final(self)@[p as int].position == p,
            final(self)@[p as int].label@ == win_string(label@),
            final(self)@[p as int].action == Some(action),
    {
        self.append(label, Some(action))
    }

    /// Appends an entry whose selection ends the session; returns its position.
    pub fn add_quit(&mut self, label: &str) -> (p: usize)
        requires
            old(self).wf(),
            old(self).has_room(),
        ensures
            final(self).wf(),
            p == old(self)@.len(),
            appended(old(self)@, final(self)@),
            final(self)@[p as int].position == p,
            final(self)@[p as int].label@ == win_string(label@),
            final(self)@[p as int].spec_is_quit(),
    {
        self.append(label, None)
    }

    /// The entry at `position`, or `None` when there is none.
    pub fn get(&self, position: usize) -> (r: Option<&MenuEntry<A>>)
        ensures
            position < self@.len() ==> r == Some(&self@[position as int]),
            position >= self@.len() ==> r is None,
    {
        if position < self.entries.len() {
            Some(&self.entries[position])
        } else {
            None
        }
    }

    /// The popup commands for all entries, in ascending position.
    pub fn menu_commands(&self) -> (r: Vec<MenuCommand>)
        requires
            self.wf(),
        ensures
            commands_of(r@, self@),
    {
        let mut out: Vec<MenuCommand> = Vec::new();
        let mut i: usize = 0;
        while i < self.entries.len()
            invariant
                i <= self@.len(),
                self.wf(),
                out@.len() == i,
                forall|k: int|
                    0 <= k < i ==> #[trigger] out@[k].id == k + COMMAND_ID_BASE && out@[k].label@
                        == self@[k].label@,
            decreases self@.len() - i,
        {
            let label = self.entries[i].label.clone();
            proof {
                assert(label@ =~= self@[i as int].label@);
            }
            out.push(MenuCommand { id: i + COMMAND_ID_BASE, label });
            i = i + 1;
        }
        out
    }
}

} // verus!
