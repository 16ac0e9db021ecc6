use sprite_ecs::components::Direction;
use sprite_ecs::input::{
    direction_of_key, InputHandler, KeyEvent, KEY_DOWN, KEY_LEFT, KEY_RIGHT, KEY_UP,
};

fn key(key_code: i32, pressed: bool) -> KeyEvent {
    KeyEvent { key_code, pressed, is_repeat: false }
}

#[test]
fn new_handler_has_no_direction() {
    let handler = InputHandler::new();
    assert_eq!(handler.get_effective_direction(), None);
    assert_eq!(handler.horizontal_balance(), 0);
    assert_eq!(handler.vertical_balance(), 0);
    assert!(handler.held_directions().is_empty());
}

#[test]
fn single_press_is_effective() {
    let mut handler = InputHandler::new();
    handler.press_key(Direction::Up);
    assert_eq!(handler.get_effective_direction(), Some(Direction::Up));
    assert_eq!(handler.vertical_balance(), -1);
    assert_eq!(handler.horizontal_balance(), 0);
}

#[test]
fn balance_signs_follow_direction() {
    let mut handler = InputHandler::new();
    handler.press_key(Direction::Right);
    assert_eq!(handler.horizontal_balance(), 1);
    handler.release_key(Direction::Right);
    handler.press_key(Direction::Left);
    assert_eq!(handler.horizontal_balance(), -1);
    handler.press_key(Direction::Down);
    assert_eq!(handler.vertical_balance(), 1);
    handler.release_key(Direction::Down);
    handler.press_key(Direction::Up);
    assert_eq!(handler.vertical_balance(), -1);
}

#[test]
fn opposite_keys_cancel_and_release_restores() {
    let mut handler = InputHandler::new();
    handler.press_key(Direction::Left);
    assert_eq!(handler.get_effective_direction(), Some(Direction::Left));
    handler.press_key(Direction::Right);
    assert_eq!(handler.horizontal_balance(), 0);
    assert_eq!(handler.get_effective_direction(), None);
    assert_eq!(handler.held_directions(), vec![Direction::Right, Direction::Left]);
    handler.release_key(Direction::Right);
    assert_eq!(handler.get_effective_direction(), Some(Direction::Left));
    assert_eq!(handler.held_directions(), vec![Direction::Left]);
}

#[test]
fn cancelled_axis_yields_to_other_axis() {
    let mut handler = InputHandler::new();
    handler.press_key(Direction::Up);
    handler.press_key(Direction::Left);
    handler.press_key(Direction::Right);
    assert_eq!(handler.get_effective_direction(), Some(Direction::Up));
    handler.release_key(Direction::Left);
    assert_eq!(handler.get_effective_direction(), Some(Direction::Right));
}

#[test]
fn latest_press_wins_across_axes() {
    let mut handler = InputHandler::new();
    handler.press_key(Direction::Left);
    handler.press_key(Direction::Down);
    assert_eq!(handler.get_effective_direction(), Some(Direction::Down));
    handler.release_key(Direction::Down);
    assert_eq!(handler.get_effective_direction(), Some(Direction::Left));
}

#[test]
fn repeated_press_is_idempotent() {
    let mut handler = InputHandler::new();
    handler.press_key(Direction::Right);
    handler.press_key(Direction::Up);
    handler.press_key(Direction::Right);
    handler.press_key(Direction::Right);
    assert_eq!(handler.held_directions(), vec![Direction::Right, Direction::Up]);
    assert_eq!(handler.horizontal_balance(), 1);
    assert_eq!(handler.vertical_balance(), -1);
    handler.release_key(Direction::Right);
    assert_eq!(handler.horizontal_balance(), 0);
    assert_eq!(handler.get_effective_direction(), Some(Direction::Up));
}

#[test]
fn release_without_press_changes_nothing() {
    let mut handler = InputHandler::new();
    handler.release_key(Direction::Left);
    handler.release_key(Direction::Left);
    assert_eq!(handler.horizontal_balance(), 0);
    assert_eq!(handler.get_effective_direction(), None);
    handler.press_key(Direction::Left);
    assert_eq!(handler.horizontal_balance(), -1);
    assert_eq!(handler.get_effective_direction(), Some(Direction::Left));
}

#[test]
fn arrow_keys_map_to_directions() {
    assert_eq!(direction_of_key(KEY_LEFT), Some(Direction::Left));
    assert_eq!(direction_of_key(KEY_RIGHT), Some(Direction::Right));
    assert_eq!(direction_of_key(KEY_UP), Some(Direction::Up));
    assert_eq!(direction_of_key(KEY_DOWN), Some(Direction::Down));
    assert_eq!(direction_of_key(27), None);
    assert_eq!(direction_of_key(0), None);
}

#[test]
fn unknown_keys_and_repeats_are_ignored() {
    let mut handler = InputHandler::new();
    assert!(!handler.handle_event(key(27, true)));
    assert!(!handler.handle_event(KeyEvent { key_code: KEY_LEFT, pressed: true, is_repeat: true }));
    assert_eq!(handler.get_effective_direction(), None);
    assert!(handler.handle_event(key(KEY_LEFT, true)));
    assert_eq!(handler.get_effective_direction(), Some(Direction::Left));
    assert!(!handler.handle_event(KeyEvent { key_code: KEY_LEFT, pressed: false, is_repeat: true }));
    assert_eq!(handler.get_effective_direction(), Some(Direction::Left));
}

#[test]
fn events_are_folded_in_order() {
    let mut handler = InputHandler::new();
    let events = vec![key(KEY_LEFT, true), key(KEY_RIGHT, true), key(KEY_RIGHT, false)];
    assert!(handler.handle_events(&events));
    assert_eq!(handler.get_effective_direction(), Some(Direction::Left));
    assert!(!handler.handle_events(&vec![key(13, true)]));
    assert!(!handler.handle_events(&Vec::new()));
    assert_eq!(handler.get_effective_direction(), Some(Direction::Left));
}

#[test]
fn single_axis_is_none_only_when_balanced() {
    let mut handler = InputHandler::new();
    let steps = [
        (Direction::Left, true, Some(Direction::Left)),
        (Direction::Right, true, None),
        (Direction::Left, false, Some(Direction::Right)),
        (Direction::Right, false, None),
        (Direction::Right, true, Some(Direction::Right)),
    ];
    for (direction, down, expected) in steps {
        if down {
            handler.press_key(direction);
        } else {
            handler.release_key(direction);
        }
        assert_eq!(handler.get_effective_direction(), expected);
        assert_eq!(handler.get_effective_direction().is_none(), handler.horizontal_balance() == 0);
    }
}
