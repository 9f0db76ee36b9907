//! The action menu: a popup listing labeled actions, each optionally bound
//! to a one-character shortcut.
//!
//! Actions are identified by their position in the menu: the caller keeps
//! the dispatch table of what each entry does, and `handle_key_event`
//! reports which entry fired, if any. A menu fires at most one action over
//! its whole lifetime: the first firing marks it complete, and a complete
//! menu ignores every further key.
//!
//! With no current selection, movement treats the first entry as its
//! reference point, and both directions wrap around the ends of the list.

use vstd::prelude::*;
use crate::event::{KeyCode, KeyInput};

verus! {

/// One menu entry: an optional shortcut and a display title. What the entry
/// does is the caller's affair: entries are addressed by index.
pub struct ActionItem {
    pub shortcut: Option<char>,
    pub title: String,
}

impl ActionItem {
    pub fn new(shortcut: Option<char>, title: String) -> (it: ActionItem)
        ensures
            it.shortcut == shortcut,
            it.title == title,
    {
        ActionItem { shortcut, title }
    }
}

/// A selectable list of actions shown as a modal popup.
pub struct ActionMenu {
    /// Optional title shown on the popup border.
    pub title: Option<String>,
    /// The entries, in declared order; on a shortcut press the first match
    /// in this order wins.
    pub items: Vec<ActionItem>,
    /// The highlighted entry; starts out absent until first navigation.
    pub selected: Option<usize>,
    /// Whether the interaction has concluded; set by firing an action or by
    /// cancelling, and never cleared.
    pub done: bool,
}

impl ActionMenu {
    /// A selection, when present, stays in bounds.
    pub open spec fn wf(self) -> bool {
        match self.selected {
            Some(i) => i < self.items@.len(),
            None => true,
        }
    }

    /// Where Down moves the selection: one past the current entry, wrapping
    /// from the last entry to the first. An absent selection counts as the
    /// first entry.
    pub open spec fn spec_down(sel: Option<usize>, n: nat) -> Option<usize> {
        if n == 0 {
            sel
        } else {
            let base: nat = match sel {
                Some(i) => i as nat,
                None => 0,
            };
            if base + 1 < n {
                Some((base + 1) as usize)
            } else {
                Some(0usize)
            }
        }
    }

    /// Where Up moves the selection: one before the current entry, wrapping
    /// from the first entry to the last. An absent selection counts as the
    /// first entry.
    pub open spec fn spec_up(sel: Option<usize>, n: nat) -> Option<usize> {
        if n == 0 {
            sel
        } else {
            let base: nat = match sel {
                Some(i) => i as nat,
                None => 0,
            };
            if base == 0 {
                Some((n - 1) as usize)
            } else {
                Some((base - 1) as usize)
            }
        }
    }

    /// The first entry, in declared order, whose shortcut is `c`.
    pub open spec fn first_match(items: Seq<ActionItem>, c: char) -> Option<int>
        decreases items.len(),
    {
        if items.len() <= 0 {
            None
        } else if items[0].shortcut == Some(c) {
            Some(0int)
        } else {
            match Self::first_match(items.drop_first(), c) {
                Some(i) => Some(i + 1),
                None => None,
            }
        }
    }

    /// What one key does to a menu, and which entry it fires: the menu
    /// afterwards, paired with the fired entry's index. A complete menu
    /// ignores everything; Escape cancels without firing; Up and Down move
    /// the selection with wrap-around; Enter fires the selected entry, if
    /// any; a character fires the first entry whose shortcut it is, if any;
    /// every other key does nothing.
    pub open spec fn spec_handle_key(m: ActionMenu, key: KeyInput) -> (ActionMenu, Option<usize>) {
        if m.done {
            (m, None::<usize>)
        } else {
            match key.code {
                KeyCode::Esc => (ActionMenu { done: true, ..m }, None),
                KeyCode::Up => (
                    ActionMenu { selected: Self::spec_up(m.selected, m.items@.len()), ..m },
                    None,
                ),
                KeyCode::Down => (
                    ActionMenu { selected: Self::spec_down(m.selected, m.items@.len()), ..m },
                    None,
                ),
                KeyCode::Enter => match m.selected {
                    Some(i) => (ActionMenu { done: true, ..m }, Some(i)),
                    None => (m, None),
                },
                KeyCode::Char(c) => match Self::first_match(m.items@, c) {
                    Some(i) => (ActionMenu { done: true, ..m }, Some(i as usize)),
                    None => (m, None),
                },
                KeyCode::Other => (m, None),
            }
        }
    }

    /// A fresh menu: nothing selected, not complete.
    pub fn new(title: Option<String>, items: Vec<ActionItem>) -> (m: ActionMenu)
        ensures
            m.title == title,
            m.items@ == items@,
            m.selected is None,
            !m.done,
            m.wf(),
    {
        ActionMenu { title, items, selected: None, done: false }
    }

    /// Whether the interaction has concluded.
    pub fn is_done(&self) -> (r: bool)
        ensures
            r == self.done,
    {
        self.done
    }

    /// Consume one key and report which entry fired, if any. The exact
    /// behaviour is `spec_handle_key`; in particular a complete menu is
    /// left untouched and fires nothing.
    pub fn handle_key_event(&mut self, key: KeyInput) -> (fired: Option<usize>)
        requires
            old(self).wf(),
        ensures
            final(self).wf(),
            *final(self) == ActionMenu::spec_handle_key(*old(self), key).0,
            fired == ActionMenu::spec_handle_key(*old(self), key).1,
            fired matches Some(i) ==> i < old(self).items@.len(),
            fired is Some ==> final(self).done,
            old(self).done ==> *final(self) == *old(self) && fired is None,
    {
        if self.done {
            return None;
        }
        match key.code {
            KeyCode::Esc => {
                self.done = true;
                None
            }
            KeyCode::Up => {
                self.select_previous();
                None
            }
            KeyCode::Down => {
                self.select_next();
                None
            }
            KeyCode::Enter => self.dispatch(),
            KeyCode::Char(c) => self.dispatch_shortcut(c),
            KeyCode::Other => None,
        }
    }

    /// Move the selection down one entry, wrapping past the end.
    fn select_next(&mut self)
        requires
            old(self).wf(),
        ensures
            final(self).selected == ActionMenu::spec_down(
                old(self).selected,
                old(self).items@.len(),
            ),
            final(self).items == old(self).items,
            final(self).title == old(self).title,
            final(self).done == old(self).done,
            final(self).wf(),
    {
        let n = self.items.len();
        if n > 0 {
            let base: usize = match self.selected {
                Some(i) => i,
                None => 0,
            };
            self.selected = if base + 1 < n {
                Some(base + 1)
            } else {
                Some(0)
            };
        }
    }

    /// Move the selection up one entry, wrapping past the start.
    fn select_previous(&mut self)
        requires
            old(self).wf(),
        ensures
            final(self).selected == ActionMenu::spec_up(
                old(self).selected,
                old(self).items@.len(),
            ),
            final(self).items == old(self).items,
            final(self).title == old(self).title,
            final(self).done == old(self).done,
            final(self).wf(),
    {
        let n = self.items.len();
        if n > 0 {
            let base: usize = match self.selected {
                Some(i) => i,
                None => 0,
            };
            self.selected = if base == 0 {
                Some(n - 1)
            } else {
                Some(base - 1)
            };
        }
    }

    /// Fire the selected entry, if there is one, and conclude.
    fn dispatch(&mut self) -> (fired: Option<usize>)
        requires
            old(self).wf(),
            !old(self).done,
        ensures
            final(self).wf(),
            final(self).items == old(self).items,
            final(self).title == old(self).title,
            final(self).selected == old(self).selected,
            old(self).selected matches Some(i) ==> final(self).done && fired == Some(i),
            old(self).selected is None ==> *final(self) == *old(self) && fired is None,
    {
        match self.selected {
            Some(i) => {
                self.done = true;
                Some(i)
            }
            None => None,
        }
    }

    /// Fire the first entry, in declared order, whose shortcut is `c`, and
    /// conclude; with no match, do nothing.
    fn dispatch_shortcut(&mut self, c: char) -> (fired: Option<usize>)
        requires
            old(self).wf(),
            !old(self).done,
        ensures
            final(self).wf(),
            final(self).items == old(self).items,
            final(self).title == old(self).title,
            final(self).selected == old(self).selected,
            fired == (match ActionMenu::first_match(old(self).items@, c) {
                Some(i) => Some(i as usize),
                None => None::<usize>,
            }),
            fired matches Some(i) ==> i < old(self).items@.len(),
            fired is Some ==> final(self).done && final(self).selected == old(self).selected,
            fired is None ==> *final(self) == *old(self),
    {
        proof {
            ActionMenu::lemma_first_match_found(self.items@, c);
        }
        let n = self.items.len();
        let mut i: usize = 0;
        while i < n
            invariant
                n == self.items@.len(),
                i <= n,
                self.items == old(self).items,
                self.title == old(self).title,
                self.selected == old(self).selected,
                self.done == old(self).done,
                old(self).wf(),
                !old(self).done,
                forall|j: int| 0 <= j < i ==> self.items@[j].shortcut != Some(c),
            decreases n - i,
        {
            let matched = match self.items[i].shortcut {
                Some(sc) => sc == c,
                None => false,
            };
            if matched {
                proof {
                    ActionMenu::lemma_first_match_unique(self.items@, c, i as int);
                }
                self.done = true;
                return Some(i);
            }
            i += 1;
        }
        None
    }

    /// Characterizes `first_match`: a hit is the earliest entry bearing the
    /// shortcut, and a miss means no entry bears it.
    proof fn lemma_first_match_found(items: Seq<ActionItem>, c: char)
        ensures
            match Self::first_match(items, c) {
                Some(i) => 0 <= i < items.len() && items[i].shortcut == Some(c) && (forall|j: int|
                    0 <= j < i ==> items[j].shortcut != Some(c)),
                None => forall|j: int| 0 <= j < items.len() ==> items[j].shortcut != Some(c),
            },
        decreases items.len(),
    {
        if items.len() == 0 {
        } else if items[0].shortcut == Some(c) {
        } else {
            let rest = items.drop_first();
            Self::lemma_first_match_found(rest, c);
            match Self::first_match(rest, c) {
                Some(i) => {
                    assert(Self::first_match(items, c) == Some(i + 1));
                    assert(items[i + 1].shortcut == Some(c));
                    assert forall|j: int| 0 <= j < i + 1 implies items[j].shortcut != Some(
                        c,
                    ) by {
                        if j > 0 {
                            assert(rest[j - 1] == items[j]);
                            assert(rest[j - 1].shortcut != Some(c));
                        }
                    }
                }
                None => {
                    assert forall|j: int| 0 <= j < items.len() implies items[j].shortcut != Some(
                        c,
                    ) by {
                        if j > 0 {
                            assert(rest[j - 1] == items[j]);
                            assert(rest[j - 1].shortcut != Some(c));
                        }
                    }
                }
            }
        }
    }

    /// The earliest entry bearing the shortcut is what `first_match` finds.
    proof fn lemma_first_match_unique(items: Seq<ActionItem>, c: char, i: int)
        requires
            0 <= i < items.len(),
            items[i].shortcut == Some(c),
            forall|j: int| 0 <= j < i ==> items[j].shortcut != Some(c),
        ensures
            Self::first_match(items, c) == Some(i),
    {
        Self::lemma_first_match_found(items, c);
        match Self::first_match(items, c) {
            Some(k) => {
                if k < i {
                    assert(items[k].shortcut != Some(c));
                } else if k > i {
                    assert(items[i].shortcut != Some(c));
                }
            }
            None => {
                assert(items[i].shortcut != Some(c));
            }
        }
    }

    /// How many entries a sequence of keys fires on a menu.
    pub open spec fn spec_fire_count(m: ActionMenu, keys: Seq<KeyInput>) -> nat
        decreases keys.len(),
    {
        if keys.len() == 0 {
            0
        } else {
            let step = Self::spec_handle_key(m, keys[0]);
            (if step.1 is Some {
                1nat
            } else {
                0nat
            }) + Self::spec_fire_count(step.0, keys.drop_first())
        }
    }

    /// A complete menu is inert: no sequence of keys fires anything on it.
    pub proof fn lemma_complete_menu_is_inert(m: ActionMenu, keys: Seq<KeyInput>)
        requires
            m.done,
        ensures
            Self::spec_fire_count(m, keys) == 0,
        decreases keys.len(),
    {
        if keys.len() > 0 {
            Self::lemma_complete_menu_is_inert(m, keys.drop_first());
        }
    }

    /// At most one action ever fires per menu instance: whatever keys are
    /// pressed, in whatever order, a menu fires at most once over its whole
    /// lifetime, because the first firing marks it complete and a complete
    /// menu is inert.
    pub proof fn lemma_at_most_one_fire(m: ActionMenu, keys: Seq<KeyInput>)
        ensures
            Self::spec_fire_count(m, keys) <= 1,
        decreases keys.len(),
    {
        if keys.len() > 0 {
            let step = Self::spec_handle_key(m, keys[0]);
            if step.1 is Some {
                assert(step.0.done);
                Self::lemma_complete_menu_is_inert(step.0, keys.drop_first());
            } else {
                Self::lemma_at_most_one_fire(step.0, keys.drop_first());
            }
        }
    }
}

} // verus!
