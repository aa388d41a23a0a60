use passman::Command;
use passman::Input;
use passman::Key;
use passman::command_for_key;

#[test]
fn startup_keys_route_commands() {
    assert_eq!(command_for_key(Key::Char('l')), Command::Login);
    assert_eq!(command_for_key(Key::Char('r')), Command::Register);
    assert_eq!(command_for_key(Key::Char('q')), Command::Quit);
    assert_eq!(command_for_key(Key::Enter), Command::Enter);
    assert_eq!(command_for_key(Key::Char('x')), Command::Idle);
    assert_eq!(command_for_key(Key::Backspace), Command::Idle);
    assert_eq!(command_for_key(Key::Other), Command::Idle);
}

#[test]
fn input_buffers_and_masks() {
    let mut input = Input::new();
    input.add('h');
    input.add('i');
    assert_eq!(input.message, "hi");
    assert_eq!(input.message_encrypt, "**");
    input.remove();
    assert_eq!(input.message, "h");
    assert_eq!(input.message_encrypt, "*");
}

#[test]
fn remove_on_empty_buffer_is_harmless() {
    let mut input = Input::new();
    input.remove();
    assert_eq!(input.message, "");
    assert_eq!(input.message_encrypt, "");
}

#[test]
fn apply_key_edits_until_enter() {
    let mut input = Input::new();
    assert!(!input.apply_key(Key::Char('a')));
    assert!(!input.apply_key(Key::Char('b')));
    assert!(!input.apply_key(Key::Backspace));
    assert!(!input.apply_key(Key::Other));
    assert!(input.apply_key(Key::Enter));
    assert_eq!(input.message, "a");
    assert_eq!(input.message_encrypt, "*");
}
