use interactive_list::events::down_or_up;
use interactive_list::events::get_key_char;
use interactive_list::events::translate_key;
use interactive_list::events::Action;
use interactive_list::events::KeyCharPressed;
use interactive_list::events::KeyInput;
use interactive_list::events::Mode;

#[test]
fn get_key_char_maps_edit_keys() {
    assert_eq!(get_key_char(KeyInput::Char('x')), KeyCharPressed::Char('x'));
    assert_eq!(get_key_char(KeyInput::Backspace), KeyCharPressed::Backspace);
    assert_eq!(get_key_char(KeyInput::Ctrl('w')), KeyCharPressed::Exit);
    assert_eq!(get_key_char(KeyInput::Ctrl('g')), KeyCharPressed::Quit);
    assert_eq!(get_key_char(KeyInput::Ctrl('x')), KeyCharPressed::NoKey);
    assert_eq!(get_key_char(KeyInput::Up), KeyCharPressed::NoKey);
    assert_eq!(get_key_char(KeyInput::Down), KeyCharPressed::NoKey);
    assert_eq!(get_key_char(KeyInput::NonKey), KeyCharPressed::NoKey);
}

#[test]
fn down_or_up_maps_navigate_keys() {
    assert_eq!(down_or_up(KeyInput::Up), -1);
    assert_eq!(down_or_up(KeyInput::Down), 1);
    assert_eq!(down_or_up(KeyInput::Ctrl('w')), 254);
    assert_eq!(down_or_up(KeyInput::Ctrl('g')), 255);
    assert_eq!(down_or_up(KeyInput::Ctrl('q')), 0);
    assert_eq!(down_or_up(KeyInput::Char('j')), 0);
    assert_eq!(down_or_up(KeyInput::OtherKey), 0);
}

#[test]
fn translate_key_in_navigate_mode() {
    assert_eq!(translate_key(Mode::Navigate, KeyInput::Up), Action::Move(-1));
    assert_eq!(translate_key(Mode::Navigate, KeyInput::Down), Action::Move(1));
    assert_eq!(
        translate_key(Mode::Navigate, KeyInput::Ctrl('w')),
        Action::EnterEdit
    );
    assert_eq!(
        translate_key(Mode::Navigate, KeyInput::Ctrl('g')),
        Action::Quit
    );
    // printable characters are ignored while navigating
    assert_eq!(translate_key(Mode::Navigate, KeyInput::Char('a')), Action::NoOp);
    assert_eq!(translate_key(Mode::Navigate, KeyInput::Backspace), Action::NoOp);
    assert_eq!(translate_key(Mode::Navigate, KeyInput::OtherKey), Action::NoOp);
}

#[test]
fn translate_key_in_edit_mode() {
    assert_eq!(
        translate_key(Mode::Edit, KeyInput::Char('a')),
        Action::InsertChar('a')
    );
    assert_eq!(translate_key(Mode::Edit, KeyInput::Backspace), Action::Backspace);
    assert_eq!(translate_key(Mode::Edit, KeyInput::Ctrl('w')), Action::ExitEdit);
    assert_eq!(translate_key(Mode::Edit, KeyInput::Ctrl('g')), Action::Quit);
    // navigation deltas are ignored while editing
    assert_eq!(translate_key(Mode::Edit, KeyInput::Up), Action::NoOp);
    assert_eq!(translate_key(Mode::Edit, KeyInput::Down), Action::NoOp);
}

#[test]
fn translator_toggling_is_strict() {
    // while editing, no key can emit EnterEdit; while navigating, none can
    // emit ExitEdit
    let keys = vec![
        KeyInput::Char('w'),
        KeyInput::Ctrl('w'),
        KeyInput::Ctrl('g'),
        KeyInput::Ctrl('z'),
        KeyInput::Backspace,
        KeyInput::Up,
        KeyInput::Down,
        KeyInput::OtherKey,
        KeyInput::NonKey,
    ];
    for key in keys {
        assert_ne!(translate_key(Mode::Edit, key), Action::EnterEdit);
        assert_ne!(translate_key(Mode::Navigate, key), Action::ExitEdit);
    }
}

#[test]
fn unrecognized_keys_are_noop_not_error() {
    assert_eq!(translate_key(Mode::Navigate, KeyInput::NonKey), Action::NoOp);
    assert_eq!(translate_key(Mode::Edit, KeyInput::NonKey), Action::NoOp);
    assert_eq!(translate_key(Mode::Edit, KeyInput::OtherKey), Action::NoOp);
    assert_eq!(translate_key(Mode::Navigate, KeyInput::Ctrl('p')), Action::NoOp);
}
