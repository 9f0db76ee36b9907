use tui_core::action_menu::{ActionItem, ActionMenu};
use tui_core::event::{KeyCode, KeyInput};

fn press(c: char) -> KeyInput {
    KeyInput::plain(KeyCode::Char(c))
}

fn two_entry_menu() -> ActionMenu {
    ActionMenu::new(
        None,
        vec![
            ActionItem::new(Some('a'), "One".to_string()),
            ActionItem::new(Some('b'), "Two".to_string()),
        ],
    )
}

fn three_entry_menu() -> ActionMenu {
    ActionMenu::new(
        Some("Pick".to_string()),
        vec![
            ActionItem::new(None, "First".to_string()),
            ActionItem::new(None, "Second".to_string()),
            ActionItem::new(None, "Third".to_string()),
        ],
    )
}

#[test]
fn shortcut_fires_first_entry_and_completes() {
    let mut m = two_entry_menu();
    assert_eq!(m.handle_key_event(press('a')), Some(0));
    assert!(m.is_done());
    // Already complete: a further shortcut has no effect.
    assert_eq!(m.handle_key_event(press('b')), None);
    assert!(m.is_done());
}

#[test]
fn duplicate_shortcut_first_declared_wins() {
    let mut m = ActionMenu::new(
        None,
        vec![
            ActionItem::new(Some('x'), "Early".to_string()),
            ActionItem::new(Some('x'), "Late".to_string()),
        ],
    );
    assert_eq!(m.handle_key_event(press('x')), Some(0));
    assert!(m.is_done());
}

#[test]
fn unbound_character_is_ignored() {
    let mut m = two_entry_menu();
    assert_eq!(m.handle_key_event(press('z')), None);
    assert!(!m.is_done());
    assert_eq!(m.selected, None);
}

#[test]
fn down_twice_up_once_selects_second_entry() {
    let mut m = three_entry_menu();
    assert_eq!(m.selected, None);
    assert_eq!(m.handle_key_event(KeyInput::plain(KeyCode::Down)), None);
    assert_eq!(m.handle_key_event(KeyInput::plain(KeyCode::Down)), None);
    assert_eq!(m.handle_key_event(KeyInput::plain(KeyCode::Up)), None);
    assert_eq!(m.selected, Some(1));
    assert!(!m.is_done());
}

#[test]
fn down_from_last_wraps_to_first() {
    let mut m = three_entry_menu();
    m.handle_key_event(KeyInput::plain(KeyCode::Down));
    m.handle_key_event(KeyInput::plain(KeyCode::Down));
    assert_eq!(m.selected, Some(2));
    m.handle_key_event(KeyInput::plain(KeyCode::Down));
    assert_eq!(m.selected, Some(0));
}

#[test]
fn up_from_first_wraps_to_last() {
    let mut m = three_entry_menu();
    m.handle_key_event(KeyInput::plain(KeyCode::Down));
    m.handle_key_event(KeyInput::plain(KeyCode::Up));
    assert_eq!(m.selected, Some(0));
    m.handle_key_event(KeyInput::plain(KeyCode::Up));
    assert_eq!(m.selected, Some(2));
}

#[test]
fn enter_without_selection_does_nothing() {
    let mut m = three_entry_menu();
    assert_eq!(m.handle_key_event(KeyInput::plain(KeyCode::Enter)), None);
    assert!(!m.is_done());
}

#[test]
fn enter_fires_selected_entry() {
    let mut m = three_entry_menu();
    m.handle_key_event(KeyInput::plain(KeyCode::Down));
    m.handle_key_event(KeyInput::plain(KeyCode::Down));
    assert_eq!(m.selected, Some(2));
    assert_eq!(m.handle_key_event(KeyInput::plain(KeyCode::Enter)), Some(2));
    assert!(m.is_done());
}

#[test]
fn escape_cancels_without_firing() {
    let mut m = two_entry_menu();
    assert_eq!(m.handle_key_event(KeyInput::plain(KeyCode::Esc)), None);
    assert!(m.is_done());
    // Complete: navigation and firing keys are all ignored now.
    assert_eq!(m.handle_key_event(KeyInput::plain(KeyCode::Down)), None);
    assert_eq!(m.selected, None);
    assert_eq!(m.handle_key_event(press('a')), None);
}
