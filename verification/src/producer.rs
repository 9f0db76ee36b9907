//! The background producers, as state machines over the bus.
//!
//! In the running system each producer is an independently scheduled task
//! whose loop races two conditions with a fair, first-ready-wins selection:
//! a ticker races "cancellation requested" against "period elapsed", and
//! the input relay races "consumer end destroyed" against "next terminal
//! occurrence ready". What is verified here is the decision each loop
//! iteration takes: `step` is handed what the selection observed and
//! performs exactly the iteration's effect on the bus and on the task's
//! own state. The scheduling itself — timers, terminal streams, task
//! spawning — is the surrounding shell's concern; the laws below hold for
//! every order in which it could call `step`.

use vstd::prelude::*;
use crate::bus::EventBus;
use crate::event::{Event, InputEvent};

verus! {

/// Whether a producer task is still looping.
#[derive(Clone, Copy, Debug, PartialEq, Eq, Structural)]
pub enum TaskStatus {
    Running,
    Stopped,
}

/// A periodic tick producer. One ticker stands for one spawned task; any
/// number may run against the same bus, sharing nothing but the send
/// capability. The caller-held handle owns a one-shot cancellation signal:
/// dropping the handle raises `cancel_requested`, and the next `step`
/// observes it — cancellation takes priority over an elapsed period, so
/// the stop is deterministic, not merely eventual.
pub struct Ticker {
    pub status: TaskStatus,
    /// Whether the handle's one-shot cancellation signal has fired. Once
    /// raised it never clears.
    pub cancel_requested: bool,
}

impl Ticker {
    /// Whether a step emits a tick: only a live, uncancelled ticker whose
    /// period elapsed on an open bus does.
    pub open spec fn spec_emits(t: Ticker, open: bool, elapsed: bool) -> bool {
        &&& t.status == TaskStatus::Running
        &&& !t.cancel_requested
        &&& elapsed
        &&& open
    }

    /// The ticker after one step: cancellation stops it at once; a
    /// submission that finds the bus closed stops it too; otherwise it
    /// keeps running.
    pub open spec fn spec_next(t: Ticker, open: bool, elapsed: bool) -> Ticker {
        if t.status == TaskStatus::Stopped {
            t
        } else if t.cancel_requested {
            Ticker { status: TaskStatus::Stopped, ..t }
        } else if elapsed && !open {
            Ticker { status: TaskStatus::Stopped, ..t }
        } else {
            t
        }
    }

    /// A freshly spawned ticker: running, not cancelled.
    pub fn new() -> (t: Ticker)
        ensures
            t.status == TaskStatus::Running,
            !t.cancel_requested,
    {
        Ticker { status: TaskStatus::Running, cancel_requested: false }
    }

    /// The handle was dropped: raise the one-shot cancellation signal.
    pub fn cancel(&mut self)
        ensures
            final(self).cancel_requested,
            final(self).status == old(self).status,
    {
        self.cancel_requested = true;
    }

    /// One iteration of the ticker's loop. `elapsed` is what the fair
    /// selection observed: whether the period branch was the one that won.
    /// A cancelled ticker stops without touching the bus even when the
    /// period was also ready; an elapsed period submits a tick, and a
    /// submission that finds the consumer gone stops the task.
    pub fn step(&mut self, bus: &mut EventBus, elapsed: bool)
        ensures
            *final(self) == Ticker::spec_next(*old(self), old(bus).open, elapsed),
            Ticker::spec_emits(*old(self), old(bus).open, elapsed) ==> {
                &&& final(bus).queue@ == old(bus).queue@.push(Event::Tick)
                &&& final(bus).submitted@ == old(bus).submitted@.push(Event::Tick)
            },
            !Ticker::spec_emits(*old(self), old(bus).open, elapsed) ==> *final(bus) == *old(
                bus,
            ),
            final(bus).open == old(bus).open,
            final(bus).delivered@ == old(bus).delivered@,
            old(bus).wf() ==> final(bus).wf(),
    {
        match self.status {
            TaskStatus::Stopped => {}
            TaskStatus::Running => {
                if self.cancel_requested {
                    self.status = TaskStatus::Stopped;
                } else if elapsed {
                    if bus.is_open() {
                        bus.submit(Event::Tick);
                    } else {
                        self.status = TaskStatus::Stopped;
                    }
                }
            }
        }
    }

    /// How many ticks a ticker emits over a whole schedule of steps, the
    /// bus staying open or closed throughout.
    pub open spec fn spec_tick_count(t: Ticker, open: bool, schedule: Seq<bool>) -> nat
        decreases schedule.len(),
    {
        if schedule.len() == 0 {
            0
        } else {
            (if Self::spec_emits(t, open, schedule[0]) {
                1nat
            } else {
                0nat
            }) + Self::spec_tick_count(Self::spec_next(t, open, schedule[0]), open, schedule.drop_first())
        }
    }

    /// Once cancellation is requested (or the ticker has already stopped),
    /// no schedule of further steps emits a single tick — whether or not
    /// the consumer is still reading — and the very first further step
    /// leaves the ticker stopped: the bound on the stop is one scheduling
    /// step.
    pub proof fn lemma_cancelled_ticker_is_silent(t: Ticker, open: bool, schedule: Seq<bool>)
        requires
            t.cancel_requested || t.status == TaskStatus::Stopped,
        ensures
            Self::spec_tick_count(t, open, schedule) == 0,
            schedule.len() > 0 ==> Self::spec_next(t, open, schedule[0]).status
                == TaskStatus::Stopped,
        decreases schedule.len(),
    {
        if schedule.len() > 0 {
            Self::lemma_cancelled_ticker_is_silent(
                Self::spec_next(t, open, schedule[0]),
                open,
                schedule.drop_first(),
            );
        }
    }
}

/// The input producer: a task that forwards every raw terminal occurrence
/// into the bus, unchanged and unfiltered, until the consumer end of the
/// bus is destroyed.
pub struct InputRelay {
    pub status: TaskStatus,
}

impl InputRelay {
    /// Whether a step forwards an event: only a live relay handed an input
    /// while the bus is open does.
    pub open spec fn spec_forwards(r: InputRelay, open: bool, observed: Option<InputEvent>) -> bool {
        &&& r.status == TaskStatus::Running
        &&& open
        &&& observed is Some
    }

    /// The relay after one step: observing the consumer's destruction
    /// stops it; so does an input that finds the bus closed (the event is
    /// dropped silently — the consumer is gone, so the task exits cleanly).
    pub open spec fn spec_next(r: InputRelay, open: bool, observed: Option<InputEvent>) -> InputRelay {
        if r.status == TaskStatus::Stopped {
            r
        } else if observed is None || !open {
            InputRelay { status: TaskStatus::Stopped }
        } else {
            r
        }
    }

    /// A freshly spawned relay: running.
    pub fn new() -> (r: InputRelay)
        ensures
            r.status == TaskStatus::Running,
    {
        InputRelay { status: TaskStatus::Running }
    }

    /// One iteration of the relay's loop. `observed` is what the fair
    /// selection observed: `None` when the closed-consumer branch won,
    /// `Some(ev)` when the next terminal occurrence arrived first. The
    /// closed-consumer branch can only win when the consumer end is in
    /// fact gone, which is what the `requires` records.
    pub fn step(&mut self, bus: &mut EventBus, observed: Option<InputEvent>)
        requires
            observed is None ==> !old(bus).open,
        ensures
            *final(self) == InputRelay::spec_next(*old(self), old(bus).open, observed),
            InputRelay::spec_forwards(*old(self), old(bus).open, observed) ==> {
                &&& final(bus).queue@ == old(bus).queue@.push(
                    Event::Input(observed->0),
                )
                &&& final(bus).submitted@ == old(bus).submitted@.push(
                    Event::Input(observed->0),
                )
            },
            !InputRelay::spec_forwards(*old(self), old(bus).open, observed) ==> *final(bus)
                == *old(bus),
            final(bus).open == old(bus).open,
            final(bus).delivered@ == old(bus).delivered@,
            old(bus).wf() ==> final(bus).wf(),
    {
        match self.status {
            TaskStatus::Stopped => {}
            TaskStatus::Running => {
                match observed {
                    None => {
                        self.status = TaskStatus::Stopped;
                    }
                    Some(ev) => {
                        if bus.is_open() {
                            bus.submit(Event::Input(ev));
                        } else {
                            self.status = TaskStatus::Stopped;
                        }
                    }
                }
            }
        }
    }

    /// How many events a relay forwards over a whole schedule of steps
    /// taken after the consumer end is gone.
    pub open spec fn spec_forward_count(r: InputRelay, open: bool, schedule: Seq<Option<InputEvent>>) -> nat
        decreases schedule.len(),
    {
        if schedule.len() == 0 {
            0
        } else {
            (if Self::spec_forwards(r, open, schedule[0]) {
                1nat
            } else {
                0nat
            }) + Self::spec_forward_count(
                Self::spec_next(r, open, schedule[0]),
                open,
                schedule.drop_first(),
            )
        }
    }

    /// Once the consumer end of the bus is destroyed, the relay forwards
    /// nothing more, and the very first further step — whichever branch of
    /// the race it observes — leaves it stopped, without error: the bound
    /// on the stop is one scheduling step.
    pub proof fn lemma_closed_bus_stops_relay(r: InputRelay, schedule: Seq<Option<InputEvent>>)
        ensures
            Self::spec_forward_count(r, false, schedule) == 0,
            schedule.len() > 0 ==> Self::spec_next(r, false, schedule[0]).status
                == TaskStatus::Stopped,
        decreases schedule.len(),
    {
        if schedule.len() > 0 {
            Self::lemma_closed_bus_stops_relay(
                Self::spec_next(r, false, schedule[0]),
                schedule.drop_first(),
            );
        }
    }
}

} // verus!
