use tui_core::app::{App, AppState};
use tui_core::event::{AppEvent, Event, InputEvent, KeyCode, KeyInput};

fn press(c: char) -> KeyInput {
    KeyInput::plain(KeyCode::Char(c))
}

fn ctrl(c: char) -> KeyInput {
    KeyInput { code: KeyCode::Char(c), ctrl: true }
}

#[test]
fn quit_keys_ask_for_quit_on_main_screen() {
    for k in [KeyInput::plain(KeyCode::Esc), press('q'), ctrl('c'), ctrl('C')] {
        let mut app = App::new();
        let out = app.handle_key_event(k);
        assert_eq!(out.signal, Some(AppEvent::Quit));
        assert_eq!(out.fired, None);
        // Quitting goes through the bus: the flag is untouched here.
        assert!(app.running);
    }
}

#[test]
fn plain_c_is_not_a_quit_key() {
    let mut app = App::new();
    let out = app.handle_key_event(press('c'));
    assert_eq!(out.signal, None);
    assert_eq!(app.state, AppState::Main);
}

#[test]
fn help_screen_round_trip() {
    let mut app = App::new();
    assert_eq!(app.handle_key_event(press('h')).signal, None);
    assert_eq!(app.state, AppState::Help);
    assert_eq!(app.handle_key_event(KeyInput::plain(KeyCode::Esc)).signal, None);
    assert_eq!(app.state, AppState::Main);
    assert_eq!(app.handle_key_event(press('?')).signal, None);
    assert_eq!(app.state, AppState::Help);
    // q and Ctrl-c still quit from the help screen.
    assert_eq!(app.handle_key_event(press('q')).signal, Some(AppEvent::Quit));
    assert_eq!(app.handle_key_event(ctrl('C')).signal, Some(AppEvent::Quit));
}

#[test]
fn p_opens_the_action_menu() {
    let mut app = App::new();
    let out = app.handle_key_event(press('p'));
    assert_eq!(out.signal, None);
    let menu = app.popup.as_ref().expect("menu should be active");
    assert_eq!(menu.items.len(), 2);
    assert_eq!(menu.items[0].title, "Action 1");
    assert_eq!(menu.items[1].title, "Action 2");
    assert_eq!(menu.items[0].shortcut, None);
    assert_eq!(menu.selected, None);
    assert!(!menu.done);
}

#[test]
fn active_popup_takes_every_key() {
    let mut app = App::new();
    app.handle_key_event(press('p'));
    // A main-screen quit binding must not quit while the popup is active.
    let out = app.handle_key_event(press('q'));
    assert_eq!(out.signal, None);
    assert!(app.running);
    assert_eq!(app.state, AppState::Main);
    // Screen-switching keys do not reach the main table either.
    let out = app.handle_key_event(press('h'));
    assert_eq!(out.signal, None);
    assert_eq!(app.state, AppState::Main);
}

#[test]
fn escape_concludes_popup_and_clearing_restores_routing() {
    let mut app = App::new();
    app.handle_key_event(press('p'));
    let out = app.handle_key_event(KeyInput::plain(KeyCode::Esc));
    assert_eq!(out.signal, None);
    assert!(app.popup.as_ref().expect("still installed").done);
    app.clear_done_popup();
    assert!(app.popup.is_none());
    // Routing reverted: the quit binding works again.
    assert_eq!(app.handle_key_event(press('q')).signal, Some(AppEvent::Quit));
}

#[test]
fn quit_event_clears_running_flag() {
    let mut app = App::new();
    let out = app.handle_event(Event::App(AppEvent::Quit));
    assert_eq!(out.signal, None);
    assert_eq!(out.fired, None);
    assert!(!app.running);
}

#[test]
fn tick_and_opaque_input_change_nothing() {
    let mut app = App::new();
    app.handle_event(Event::Tick);
    app.handle_event(Event::Input(InputEvent::Other));
    assert!(app.running);
    assert_eq!(app.state, AppState::Main);
    assert!(app.popup.is_none());
}

#[test]
fn new_popup_replaces_the_active_one() {
    let mut app = App::new();
    app.handle_key_event(press('p'));
    app.handle_key_event(KeyInput::plain(KeyCode::Down));
    assert_eq!(app.popup.as_ref().unwrap().selected, Some(1));
    app.show_popup(App::main_menu());
    assert_eq!(app.popup.as_ref().unwrap().selected, None);
}
