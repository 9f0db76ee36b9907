use tui_core::event::{AppEvent, Event, InputEvent, KeyCode, KeyInput};
use tui_core::event_loop::EventLoop;
use tui_core::popup::{popup_area, Region};
use tui_core::producer::{InputRelay, TaskStatus, Ticker};

fn key_event(c: char) -> Event {
    Event::Input(InputEvent::Key(KeyInput::plain(KeyCode::Char(c))))
}

#[test]
fn quit_key_quits_through_the_bus() {
    let mut l = EventLoop::new();
    l.bus.submit(key_event('q'));
    let rep = l.step().expect("an event was pending");
    assert!(!rep.popup_rendered);
    // The key only enqueued Quit; the loop is still running.
    assert!(l.app.running);
    assert_eq!(l.bus.pending(), 1);
    l.step().expect("the quit event was pending");
    assert!(!l.app.running);
}

#[test]
fn quit_key_is_inert_while_popup_is_active() {
    let mut l = EventLoop::new();
    l.bus.submit(key_event('p'));
    l.step().expect("popup key pending");
    assert!(l.app.popup.is_some());
    // The main screen's quit binding goes to the popup, not the table:
    // nothing is enqueued and the loop keeps running.
    l.bus.submit(key_event('q'));
    l.step().expect("key pending");
    assert!(l.app.running);
    assert_eq!(l.bus.pending(), 0);
    // Once the popup concludes and is cleared, the binding works again.
    l.bus.submit(Event::Input(InputEvent::Key(KeyInput::plain(KeyCode::Esc))));
    l.step().expect("escape pending");
    assert!(l.app.popup.is_none());
    l.bus.submit(key_event('q'));
    l.step().expect("key pending");
    l.step().expect("quit pending");
    assert!(!l.app.running);
}

#[test]
fn completed_popup_is_rendered_once_more_then_absent() {
    let mut l = EventLoop::new();
    l.bus.submit(key_event('p'));
    l.step().expect("popup key pending");
    assert!(l.app.popup.is_some());
    // The popup completes during this iteration's dispatch; rendering came
    // first, so this frame still showed it, and it is gone afterwards.
    l.bus.submit(Event::Input(InputEvent::Key(KeyInput::plain(KeyCode::Esc))));
    let rep = l.step().expect("escape pending");
    assert!(rep.popup_rendered);
    assert!(l.app.popup.is_none());
    // Every subsequent frame is popup-free.
    l.bus.submit(Event::Tick);
    let rep = l.step().expect("tick pending");
    assert!(!rep.popup_rendered);
}

#[test]
fn popup_firing_is_reported_to_the_shell() {
    let mut l = EventLoop::new();
    l.bus.submit(key_event('p'));
    l.step().expect("popup key pending");
    l.bus.submit(Event::Input(InputEvent::Key(KeyInput::plain(KeyCode::Down))));
    l.step().expect("down pending");
    l.bus.submit(Event::Input(InputEvent::Key(KeyInput::plain(KeyCode::Enter))));
    let rep = l.step().expect("enter pending");
    assert!(rep.popup_rendered);
    assert_eq!(rep.fired, Some(1));
    assert!(l.app.popup.is_none());
}

#[test]
fn idle_step_changes_nothing() {
    let mut l = EventLoop::new();
    assert!(l.step().is_none());
    assert!(l.app.running);
    assert_eq!(l.bus.pending(), 0);
}

#[test]
fn ticker_emits_until_cancelled() {
    let mut l = EventLoop::new();
    let mut t = Ticker::new();
    t.step(&mut l.bus, true);
    t.step(&mut l.bus, false);
    t.step(&mut l.bus, true);
    assert_eq!(l.bus.pending(), 2);
    assert_eq!(l.bus.receive(), Some(Event::Tick));
    // Dropping the handle raises the one-shot cancellation signal; the
    // very next step stops the task, even with the period also ready, and
    // no further tick is ever observed.
    t.cancel();
    t.step(&mut l.bus, true);
    assert_eq!(t.status, TaskStatus::Stopped);
    t.step(&mut l.bus, true);
    t.step(&mut l.bus, false);
    assert_eq!(l.bus.pending(), 1);
}

#[test]
fn ticker_stops_when_consumer_is_gone() {
    let mut b = tui_core::bus::EventBus::new();
    let mut t = Ticker::new();
    b.close();
    t.step(&mut b, true);
    assert_eq!(t.status, TaskStatus::Stopped);
    assert_eq!(b.pending(), 0);
}

#[test]
fn independent_tickers_share_only_the_bus() {
    let mut l = EventLoop::new();
    let mut fast = Ticker::new();
    let mut slow = Ticker::new();
    fast.step(&mut l.bus, true);
    slow.step(&mut l.bus, true);
    fast.cancel();
    fast.step(&mut l.bus, true);
    slow.step(&mut l.bus, true);
    assert_eq!(fast.status, TaskStatus::Stopped);
    assert_eq!(slow.status, TaskStatus::Running);
    assert_eq!(l.bus.pending(), 3);
}

#[test]
fn relay_forwards_input_unchanged() {
    let mut b = tui_core::bus::EventBus::new();
    let mut r = InputRelay::new();
    let ev = InputEvent::Key(KeyInput::plain(KeyCode::Up));
    r.step(&mut b, Some(ev));
    r.step(&mut b, Some(InputEvent::Other));
    assert_eq!(r.status, TaskStatus::Running);
    assert_eq!(b.receive(), Some(Event::Input(ev)));
    assert_eq!(b.receive(), Some(Event::Input(InputEvent::Other)));
}

#[test]
fn relay_stops_when_consumer_is_gone() {
    let mut b = tui_core::bus::EventBus::new();
    let mut r = InputRelay::new();
    b.close();
    // Whichever branch of the race is observed first, the task stops
    // within one step and forwards nothing.
    r.step(&mut b, Some(InputEvent::Other));
    assert_eq!(r.status, TaskStatus::Stopped);
    assert_eq!(b.pending(), 0);
    let mut b2 = tui_core::bus::EventBus::new();
    let mut r2 = InputRelay::new();
    b2.close();
    r2.step(&mut b2, None);
    assert_eq!(r2.status, TaskStatus::Stopped);
    assert_eq!(b2.pending(), 0);
}

#[test]
fn popup_region_is_centered_percentage() {
    let area = Region { x: 0, y: 0, width: 80, height: 24 };
    let r = popup_area(area, 50, 50);
    assert_eq!(r, Region { x: 20, y: 6, width: 40, height: 12 });
    let offset = Region { x: 10, y: 5, width: 21, height: 11 };
    let r = popup_area(offset, 50, 50);
    // Widths round down; the leftover margin splits evenly, rounding down.
    assert_eq!(r, Region { x: 15, y: 8, width: 10, height: 5 });
    let all = popup_area(area, 100, 100);
    assert_eq!(all, area);
    let none = popup_area(area, 0, 0);
    assert_eq!(none.width, 0);
    assert_eq!(none.height, 0);
}
