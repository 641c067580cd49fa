use learn_opengl::camera::Movement;
use learn_opengl::input::{key_command, Command, ControlKey, KeyAction};

#[test]
fn escape_press_closes() {
    assert_eq!(key_command(ControlKey::Escape, KeyAction::Press), Command::Close);
}

#[test]
fn escape_repeat_and_release_do_nothing() {
    assert_eq!(key_command(ControlKey::Escape, KeyAction::Repeat), Command::Ignore);
    assert_eq!(key_command(ControlKey::Escape, KeyAction::Release), Command::Ignore);
}

#[test]
fn movement_keys_move_while_down() {
    let keys = [
        (ControlKey::W, Movement::Forward),
        (ControlKey::S, Movement::BackWard),
        (ControlKey::A, Movement::Left),
        (ControlKey::D, Movement::Right),
    ];
    for (key, movement) in keys {
        assert_eq!(key_command(key, KeyAction::Press), Command::Move(movement));
        assert_eq!(key_command(key, KeyAction::Repeat), Command::Move(movement));
        assert_eq!(key_command(key, KeyAction::Release), Command::Ignore);
    }
}

#[test]
fn other_keys_do_nothing() {
    assert_eq!(key_command(ControlKey::Other, KeyAction::Press), Command::Ignore);
    assert_eq!(key_command(ControlKey::Other, KeyAction::Release), Command::Ignore);
}
