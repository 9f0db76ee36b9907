//! One iteration of the application's main loop, wired to the bus.
//!
//! The running system repeats, while the running flag holds: render the
//! current state (delegating a centered region to the active popup, if
//! any), await the next bus event, dispatch it, and only then — never in
//! the middle of an iteration — discard a popup that has reported
//! completion. `step` is that iteration: the render phase is the
//! surrounding shell's, so the step reports whether a popup was on screen
//! when the iteration began, and the rest is performed here exactly.

use vstd::prelude::*;
use crate::action_menu::ActionMenu;
use crate::app::App;
use crate::bus::EventBus;
use crate::event::{AppEvent, Event, InputEvent, KeyInput};

verus! {

/// What one loop iteration reports: whether a popup was on screen during
/// the iteration's render phase, and which popup entry fired during its
/// dispatch phase, if any.
pub struct StepReport {
    pub popup_rendered: bool,
    pub fired: Option<usize>,
}

/// The controller wired to the bus it consumes.
pub struct EventLoop {
    pub app: App,
    pub bus: EventBus,
}

impl EventLoop {
    /// The loop invariant: controller and bus are well formed, and the
    /// consumer end is alive — the loop itself is the consumer.
    pub open spec fn wf(self) -> bool {
        &&& self.app.wf()
        &&& self.bus.wf()
        &&& self.bus.open
    }

    /// What one iteration does. With nothing pending the consumer would
    /// suspend and nothing changes. Otherwise the head event is delivered
    /// and dispatched: a key press routes to the active popup or the
    /// screen's key table, a screen-bound quit key enqueues `Quit` behind
    /// the still-pending events, a `Quit` event clears the running flag —
    /// and at the end of the iteration, not before, a popup that has
    /// reported completion is discarded.
    pub open spec fn step_post(pre: EventLoop, post: EventLoop, r: Option<StepReport>) -> bool {
        if pre.bus.queue@.len() == 0 {
            &&& post == pre
            &&& r is None
        } else {
            let e = pre.bus.queue@[0];
            &&& post.bus.open
            &&& post.bus.delivered@ == pre.bus.delivered@.push(e)
            &&& match e {
                Event::Tick => {
                    &&& post.app == (App { popup: App::spec_clear(pre.app.popup), ..pre.app })
                    &&& post.bus.queue@ == pre.bus.queue@.drop_first()
                    &&& post.bus.submitted@ == pre.bus.submitted@
                    &&& r == Some(
                        StepReport { popup_rendered: pre.app.popup is Some, fired: None },
                    )
                },
                Event::Input(InputEvent::Other) => {
                    &&& post.app == (App { popup: App::spec_clear(pre.app.popup), ..pre.app })
                    &&& post.bus.queue@ == pre.bus.queue@.drop_first()
                    &&& post.bus.submitted@ == pre.bus.submitted@
                    &&& r == Some(
                        StepReport { popup_rendered: pre.app.popup is Some, fired: None },
                    )
                },
                Event::App(AppEvent::Quit) => {
                    &&& post.app == (App {
                        running: false,
                        popup: App::spec_clear(pre.app.popup),
                        ..pre.app
                    })
                    &&& post.bus.queue@ == pre.bus.queue@.drop_first()
                    &&& post.bus.submitted@ == pre.bus.submitted@
                    &&& r == Some(
                        StepReport { popup_rendered: pre.app.popup is Some, fired: None },
                    )
                },
                Event::Input(InputEvent::Key(k)) => match pre.app.popup {
                    Some(m) => {
                        &&& post.app == (App {
                            popup: App::spec_clear(Some(ActionMenu::spec_handle_key(m, k).0)),
                            ..pre.app
                        })
                        &&& post.bus.queue@ == pre.bus.queue@.drop_first()
                        &&& post.bus.submitted@ == pre.bus.submitted@
                        &&& r == Some(
                            StepReport {
                                popup_rendered: true,
                                fired: ActionMenu::spec_handle_key(m, k).1,
                            },
                        )
                    },
                    None => {
                        &&& post.app.running == pre.app.running
                        &&& post.app.state == App::spec_next_state(pre.app.state, k)
                        &&& (if App::spec_opens_menu(pre.app.state, k) {
                            post.app.popup matches Some(m2) && App::spec_is_main_menu(m2)
                        } else {
                            post.app.popup is None
                        })
                        &&& (if App::spec_is_quit_key(pre.app.state, k) {
                            &&& post.bus.queue@ == pre.bus.queue@.drop_first().push(
                                Event::App(AppEvent::Quit),
                            )
                            &&& post.bus.submitted@ == pre.bus.submitted@.push(
                                Event::App(AppEvent::Quit),
                            )
                        } else {
                            &&& post.bus.queue@ == pre.bus.queue@.drop_first()
                            &&& post.bus.submitted@ == pre.bus.submitted@
                        })
                        &&& r == Some(StepReport { popup_rendered: false, fired: None })
                    },
                },
            }
        }
    }

    /// A fresh loop: a new controller on a new bus.
    pub fn new() -> (l: EventLoop)
        ensures
            l.wf(),
            l.app.running,
            l.app.popup is None,
            l.bus.queue@ == Seq::<Event>::empty(),
            l.bus.submitted@ == Seq::<Event>::empty(),
            l.bus.delivered@ == Seq::<Event>::empty(),
    {
        EventLoop { app: App::new(), bus: EventBus::new() }
    }

    /// One iteration of the main loop. The exact behaviour is `step_post`;
    /// in addition, whatever popup an iteration that processed an event
    /// leaves active has not reported completion — a complete popup never
    /// survives the iteration that completed it, so it is absent from
    /// every later render.
    pub fn step(&mut self) -> (r: Option<StepReport>)
        requires
            old(self).wf(),
        ensures
            final(self).wf(),
            EventLoop::step_post(*old(self), *final(self), r),
            r is Some ==> (final(self).app.popup matches Some(m) ==> !m.done),
    {
        let popup_rendered = self.app.popup.is_some();
        let next = self.bus.receive();
        match next {
            None => None,
            Some(e) => {
                let out = self.app.handle_event(e);
                if let Some(sig) = out.signal {
                    self.bus.submit(Event::App(sig));
                }
                self.app.clear_done_popup();
                Some(StepReport { popup_rendered, fired: out.fired })
            }
        }
    }

    /// Modal exclusivity, at the loop: while a popup is active, the key
    /// press at the head of the queue — a screen-bound quit key or any
    /// other — leaves the running flag and the screen state alone and
    /// enqueues nothing, so nothing later in the stream can stem from it.
    /// The program quits off a screen-bound quit key only when no popup is
    /// active.
    pub proof fn lemma_modal_exclusivity_step(
        pre: EventLoop,
        post: EventLoop,
        r: Option<StepReport>,
        k: KeyInput,
    )
        requires
            EventLoop::step_post(pre, post, r),
            pre.app.popup is Some,
            pre.bus.queue@.len() > 0,
            pre.bus.queue@[0] == Event::Input(InputEvent::Key(k)),
        ensures
            post.app.running == pre.app.running,
            post.app.state == pre.app.state,
            post.bus.queue@ == pre.bus.queue@.drop_first(),
            post.bus.submitted@ == pre.bus.submitted@,
    {
    }

    /// The other half of modal exclusivity: with no popup active, a quit
    /// key bound by the current screen enqueues `Quit` — behind everything
    /// already pending — and the iteration that later delivers that `Quit`
    /// clears the running flag.
    pub proof fn lemma_quit_key_without_popup(
        pre: EventLoop,
        post: EventLoop,
        r: Option<StepReport>,
        k: KeyInput,
    )
        requires
            EventLoop::step_post(pre, post, r),
            pre.app.popup is None,
            pre.bus.queue@.len() > 0,
            pre.bus.queue@[0] == Event::Input(InputEvent::Key(k)),
            App::spec_is_quit_key(pre.app.state, k),
        ensures
            post.bus.queue@ == pre.bus.queue@.drop_first().push(Event::App(AppEvent::Quit)),
            post.app.running == pre.app.running,
    {
    }

    /// Delivering `Quit` stops the loop.
    pub proof fn lemma_quit_event_stops(pre: EventLoop, post: EventLoop, r: Option<StepReport>)
        requires
            EventLoop::step_post(pre, post, r),
            pre.bus.queue@.len() > 0,
            pre.bus.queue@[0] == Event::App(AppEvent::Quit),
        ensures
            !post.app.running,
    {
    }

    /// Popup removal timing: a popup that becomes complete during the
    /// dispatch of an iteration was still on screen during that
    /// iteration's render phase — rendering precedes dispatch — and is
    /// gone by the iteration's end, hence absent from every subsequent
    /// frame.
    pub proof fn lemma_popup_removed_after_one_frame(
        pre: EventLoop,
        post: EventLoop,
        r: Option<StepReport>,
        k: KeyInput,
    )
        requires
            EventLoop::step_post(pre, post, r),
            pre.bus.queue@.len() > 0,
            pre.bus.queue@[0] == Event::Input(InputEvent::Key(k)),
            pre.app.popup matches Some(m) && !m.done && ActionMenu::spec_handle_key(m, k).0.done,
        ensures
            r matches Some(rep) && rep.popup_rendered,
            post.app.popup is None,
    {
    }
}

} // verus!
