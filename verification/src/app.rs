//! The application controller: the single consumer of the bus.
//!
//! The controller holds the running flag, the current screen state and the
//! optional active popup, and decides — and it alone decides — whether a
//! key press is routed to the popup or to the current screen's key table.
//! While a popup is active it receives every key exclusively: no screen
//! transition and no screen-bound quit can happen (modal exclusivity).
//!
//! The controller never mutates anything but its own state: what it wants
//! enqueued on the bus it reports in its `Reaction`, and the loop around it
//! submits that. Requesting a popup while one is active replaces the
//! active one — the replace policy, not the reject policy, is the one
//! implemented here.
//!
//! A popup is a capability set — render into a region, consume one key,
//! report completion. The set of overlay kinds is closed and has one
//! member, the action menu, so the controller holds it directly rather
//! than behind dynamic dispatch.

use vstd::prelude::*;
use crate::action_menu::{ActionItem, ActionMenu};
use crate::event::{AppEvent, Event, InputEvent, KeyCode, KeyInput};

verus! {

/// The main application's current mode, governing which key table applies
/// when no popup is active. Mutated only by the controller, never by a
/// producer.
#[derive(Clone, Copy, Debug, PartialEq, Eq, Structural)]
pub enum AppState {
    Main,
    Help,
}

/// What dispatching one event asks of the surroundings: which popup entry
/// fired, if any, and which application event to enqueue, if any.
pub struct Reaction {
    pub fired: Option<usize>,
    pub signal: Option<AppEvent>,
}

/// The application controller's state.
pub struct App {
    /// Is the application running? Cleared only by a `Quit` event.
    pub running: bool,
    /// Current screen state.
    pub state: AppState,
    /// The active popup, at most one.
    pub popup: Option<ActionMenu>,
}

impl App {
    /// An active popup is well formed.
    pub open spec fn wf(self) -> bool {
        match self.popup {
            Some(m) => m.wf(),
            None => true,
        }
    }

    /// Whether `key`, on screen `state`, is bound to quitting: Escape on
    /// the main screen, the letter q on either screen, and Ctrl-c or
    /// Ctrl-C on either.
    pub open spec fn spec_is_quit_key(state: AppState, key: KeyInput) -> bool {
        match state {
            AppState::Main => key.code == KeyCode::Esc || key.code == KeyCode::Char('q') || (
            key.ctrl && (key.code == KeyCode::Char('c') || key.code == KeyCode::Char('C'))),
            AppState::Help => key.code == KeyCode::Char('q') || (key.ctrl && (key.code
                == KeyCode::Char('c') || key.code == KeyCode::Char('C'))),
        }
    }

    /// The screen state after `key`, when no popup is active: h or ? opens
    /// help from the main screen, Escape leaves help.
    pub open spec fn spec_next_state(state: AppState, key: KeyInput) -> AppState {
        match state {
            AppState::Main => if key.code == KeyCode::Char('h') || key.code == KeyCode::Char(
                '?',
            ) {
                AppState::Help
            } else {
                AppState::Main
            },
            AppState::Help => if key.code == KeyCode::Esc {
                AppState::Main
            } else {
                AppState::Help
            },
        }
    }

    /// Whether `key`, on screen `state` with no popup active, opens the
    /// main screen's action menu.
    pub open spec fn spec_opens_menu(state: AppState, key: KeyInput) -> bool {
        state == AppState::Main && key.code == KeyCode::Char('p')
    }

    /// The menu the main screen opens: two untitled actions, no shortcuts,
    /// nothing selected, not complete.
    pub open spec fn spec_is_main_menu(m: ActionMenu) -> bool {
        &&& m.title is None
        &&& m.items@.len() == 2
        &&& m.items@[0].shortcut is None
        &&& m.items@[0].title@ == "Action 1"@
        &&& m.items@[1].shortcut is None
        &&& m.items@[1].title@ == "Action 2"@
        &&& m.selected is None
        &&& !m.done
    }

    /// The popup slot after the end-of-iteration check: a popup that has
    /// reported completion is discarded, any other is kept.
    pub open spec fn spec_clear(p: Option<ActionMenu>) -> Option<ActionMenu> {
        match p {
            Some(m) => if m.done {
                None
            } else {
                Some(m)
            },
            None => None,
        }
    }

    /// What one key press does to the controller. With a popup active the
    /// key goes to the popup, whole and alone: the controller's own state
    /// and tables never see it, and nothing is enqueued. With none active
    /// the current screen's table applies: a quit binding asks for `Quit`
    /// to be enqueued, h/? and Escape switch screens, p opens the menu,
    /// anything else does nothing.
    pub open spec fn key_post(pre: App, key: KeyInput, post: App, out: Reaction) -> bool {
        match pre.popup {
            Some(m) => {
                &&& post.running == pre.running
                &&& post.state == pre.state
                &&& post.popup == Some(ActionMenu::spec_handle_key(m, key).0)
                &&& out.fired == ActionMenu::spec_handle_key(m, key).1
                &&& out.signal is None
            },
            None => {
                &&& out.fired is None
                &&& post.running == pre.running
                &&& post.state == Self::spec_next_state(pre.state, key)
                &&& out.signal == (if Self::spec_is_quit_key(pre.state, key) {
                    Some(AppEvent::Quit)
                } else {
                    None::<AppEvent>
                })
                &&& (if Self::spec_opens_menu(pre.state, key) {
                    post.popup matches Some(m2) && Self::spec_is_main_menu(m2)
                } else {
                    post.popup == pre.popup
                })
            },
        }
    }

    /// What one bus event does to the controller: a tick runs the periodic
    /// hook, a key press dispatches as `key_post`, any other terminal
    /// occurrence is ignored, and `Quit` clears the running flag.
    pub open spec fn event_post(pre: App, e: Event, post: App, out: Reaction) -> bool {
        match e {
            Event::Tick => post == pre && out.fired is None && out.signal is None,
            Event::Input(InputEvent::Key(k)) => Self::key_post(pre, k, post, out),
            Event::Input(InputEvent::Other) => post == pre && out.fired is None && out.signal
                is None,
            Event::App(AppEvent::Quit) => post == (App { running: false, ..pre })
                && out.fired is None && out.signal is None,
        }
    }

    /// A fresh controller: running, on the main screen, no popup.
    pub fn new() -> (app: App)
        ensures
            app.running,
            app.state == AppState::Main,
            app.popup is None,
            app.wf(),
    {
        App { running: true, state: AppState::Main, popup: None }
    }

    /// The menu the main screen's p binding opens.
    pub fn main_menu() -> (m: ActionMenu)
        ensures
            App::spec_is_main_menu(m),
            m.wf(),
    {
        let mut items: Vec<ActionItem> = Vec::new();
        items.push(ActionItem::new(None, "Action 1".to_owned()));
        items.push(ActionItem::new(None, "Action 2".to_owned()));
        ActionMenu::new(None, items)
    }

    /// Install `popup` as the active overlay, replacing any active one.
    pub fn show_popup(&mut self, popup: ActionMenu)
        requires
            popup.wf(),
        ensures
            final(self).popup == Some(popup),
            final(self).running == old(self).running,
            final(self).state == old(self).state,
            final(self).wf(),
    {
        self.popup = Some(popup);
    }

    /// The periodic hook run on every tick; nothing by default.
    pub fn tick(&self) {
    }

    /// Stop the application's loop.
    pub fn quit(&mut self)
        ensures
            *final(self) == (App { running: false, ..*old(self) }),
    {
        self.running = false;
    }

    /// Discard the active popup if it has reported completion.
    pub fn clear_done_popup(&mut self)
        requires
            old(self).wf(),
        ensures
            final(self).wf(),
            final(self).running == old(self).running,
            final(self).state == old(self).state,
            final(self).popup == App::spec_clear(old(self).popup),
    {
        let clear = match &self.popup {
            Some(m) => m.is_done(),
            None => false,
        };
        if clear {
            self.popup = None;
        }
    }

    /// Route one key press: to the active popup if there is one, else
    /// through the current screen's key table. The exact behaviour is
    /// `key_post`.
    pub fn handle_key_event(&mut self, key: KeyInput) -> (out: Reaction)
        requires
            old(self).wf(),
        ensures
            final(self).wf(),
            App::key_post(*old(self), key, *final(self), out),
    {
        match &mut self.popup {
            Some(m) => {
                let fired = m.handle_key_event(key);
                Reaction { fired, signal: None }
            }
            None => {
                let mut signal: Option<AppEvent> = None;
                match self.state {
                    AppState::Main => {
                        match key.code {
                            KeyCode::Esc => {
                                signal = Some(AppEvent::Quit);
                            }
                            KeyCode::Char(c) => {
                                if c == 'q' || ((c == 'c' || c == 'C') && key.ctrl) {
                                    signal = Some(AppEvent::Quit);
                                } else if c == 'h' || c == '?' {
                                    self.state = AppState::Help;
                                } else if c == 'p' {
                                    self.show_popup(App::main_menu());
                                }
                            }
                            _ => {}
                        }
                    }
                    AppState::Help => {
                        match key.code {
                            KeyCode::Esc => {
                                self.state = AppState::Main;
                            }
                            KeyCode::Char(c) => {
                                if c == 'q' || ((c == 'c' || c == 'C') && key.ctrl) {
                                    signal = Some(AppEvent::Quit);
                                }
                            }
                            _ => {}
                        }
                    }
                }
                Reaction { fired: None, signal }
            }
        }
    }

    /// Dispatch one bus event. The exact behaviour is `event_post`.
    pub fn handle_event(&mut self, e: Event) -> (out: Reaction)
        requires
            old(self).wf(),
        ensures
            final(self).wf(),
            App::event_post(*old(self), e, *final(self), out),
    {
        match e {
            Event::Tick => {
                self.tick();
                Reaction { fired: None, signal: None }
            }
            Event::Input(InputEvent::Key(k)) => self.handle_key_event(k),
            Event::Input(InputEvent::Other) => Reaction { fired: None, signal: None },
            Event::App(AppEvent::Quit) => {
                self.quit();
                Reaction { fired: None, signal: None }
            }
        }
    }

    /// Modal exclusivity, at the controller: while a popup is active, a
    /// key press — a quit binding or any other — changes no screen state,
    /// does not stop the application, and enqueues nothing; only the popup
    /// itself moves.
    pub proof fn lemma_modal_exclusivity(pre: App, key: KeyInput, post: App, out: Reaction)
        requires
            App::key_post(pre, key, post, out),
            pre.popup is Some,
        ensures
            post.running == pre.running,
            post.state == pre.state,
            out.signal is None,
    {
    }

    /// A quit binding quits only from the screen's own table: a main- or
    /// help-screen quit key asks for `Quit` exactly when no popup is
    /// active.
    pub proof fn lemma_quit_only_without_popup(pre: App, key: KeyInput, post: App, out: Reaction)
        requires
            App::key_post(pre, key, post, out),
        ensures
            out.signal == Some(AppEvent::Quit) <==> (pre.popup is None
                && App::spec_is_quit_key(pre.state, key)),
    {
    }
}

} // verus!
