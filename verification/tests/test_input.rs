use ravana::input::gen_key;
use ravana::input::keys_for_char;
use ravana::input::keys_for_event;
use ravana::input::EventType;
use ravana::input::InputDetails;
use ravana::input::NamedKey;
use ravana::input::Received;
use ravana::keys::Key;

fn details(ctrl: bool, shift: bool, alt: bool) -> InputDetails {
    InputDetails {
        evtype: EventType::Press,
        ctrl,
        shift,
        alt,
    }
}

fn released() -> InputDetails {
    InputDetails {
        evtype: EventType::Release,
        ctrl: false,
        shift: false,
        alt: false,
    }
}

#[test]
fn test_gen_key_plain_letter() {
    assert_eq!(
        gen_key(&Received::Char('z'), &details(false, false, false)),
        Some(vec![Key::KeyZ])
    );
    assert_eq!(
        gen_key(&Received::Char('k'), &details(false, false, false)),
        Some(vec![Key::KeyK])
    );
}

#[test]
fn test_gen_key_release_produces_no_key() {
    assert_eq!(gen_key(&Received::Char('z'), &released()), None);
    assert_eq!(gen_key(&Received::Event(NamedKey::Enter), &released()), None);
    assert_eq!(gen_key(&Received::NoInput, &released()), None);
}

#[test]
fn test_gen_key_repeat_and_unknown_types_produce_keys() {
    let mut d = details(false, false, false);
    d.evtype = EventType::Repeat;
    assert_eq!(gen_key(&Received::Char('a'), &d), Some(vec![Key::KeyA]));
    d.evtype = EventType::Unknown;
    assert_eq!(gen_key(&Received::Char('a'), &d), Some(vec![Key::KeyA]));
}

#[test]
fn test_gen_key_upper_case_without_ctrl_implies_shift() {
    assert_eq!(
        gen_key(&Received::Char('G'), &details(false, false, false)),
        Some(vec![Key::HoldShift, Key::KeyG])
    );
    assert_eq!(
        gen_key(&Received::Char('G'), &details(false, false, true)),
        Some(vec![Key::HoldAlt, Key::HoldShift, Key::KeyG])
    );
}

#[test]
fn test_gen_key_upper_case_with_ctrl_has_no_shift() {
    assert_eq!(
        gen_key(&Received::Char('G'), &details(true, false, false)),
        Some(vec![Key::HoldCtrl, Key::KeyG])
    );
    assert_eq!(
        gen_key(&Received::Char('G'), &details(true, false, true)),
        Some(vec![Key::HoldCtrl, Key::HoldAlt, Key::KeyG])
    );
}

#[test]
fn test_gen_key_modifier_order() {
    assert_eq!(
        gen_key(&Received::Char('a'), &details(true, true, true)),
        Some(vec![Key::HoldCtrl, Key::HoldAlt, Key::HoldShift, Key::KeyA])
    );
    assert_eq!(
        gen_key(&Received::Event(NamedKey::Tab), &details(true, true, true)),
        Some(vec![Key::HoldCtrl, Key::HoldAlt, Key::HoldShift, Key::KeyTab])
    );
    assert_eq!(
        gen_key(&Received::Event(NamedKey::Up), &details(false, false, true)),
        Some(vec![Key::HoldAlt, Key::KeyUp])
    );
}

#[test]
fn test_gen_key_unknown_characters_produce_no_key() {
    let d = details(false, false, false);
    assert_eq!(gen_key(&Received::Char('1'), &d), None);
    assert_eq!(gen_key(&Received::Char(':'), &d), None);
    assert_eq!(gen_key(&Received::Char(' '), &d), None);
    assert_eq!(gen_key(&Received::Char('é'), &d), None);
    assert_eq!(gen_key(&Received::Char('山'), &d), None);
    assert_eq!(gen_key(&Received::NoInput, &d), None);
    assert_eq!(gen_key(&Received::Event(NamedKey::Other), &d), None);
}

// The lowercase mapping is the one of the standard library: the Kelvin
// sign maps to the letter k, and a capital I with a dot to two characters
// of which the second is no letter.
#[test]
fn test_gen_key_goes_by_the_lowercase_mapping() {
    let d = details(false, false, false);
    assert_eq!(
        gen_key(&Received::Char('\u{212A}'), &d),
        Some(vec![Key::HoldShift, Key::KeyK])
    );
    assert_eq!(gen_key(&Received::Char('\u{130}'), &d), None);
}

#[test]
fn test_gen_key_every_named_key() {
    let d = details(false, false, false);
    let pairs = [
        (NamedKey::Enter, Key::KeyEnter),
        (NamedKey::Esc, Key::KeyEsc),
        (NamedKey::Space, Key::KeySpace),
        (NamedKey::Backspace, Key::KeyBackspace),
        (NamedKey::Tab, Key::KeyTab),
        (NamedKey::Up, Key::KeyUp),
        (NamedKey::Down, Key::KeyDown),
        (NamedKey::Left, Key::KeyLeft),
        (NamedKey::Right, Key::KeyRight),
        (NamedKey::F01, Key::KeyF1),
        (NamedKey::F02, Key::KeyF2),
        (NamedKey::F03, Key::KeyF3),
        (NamedKey::F04, Key::KeyF4),
        (NamedKey::F05, Key::KeyF5),
        (NamedKey::F06, Key::KeyF6),
        (NamedKey::F07, Key::KeyF7),
        (NamedKey::F08, Key::KeyF8),
        (NamedKey::F09, Key::KeyF9),
        (NamedKey::F10, Key::KeyF10),
        (NamedKey::F11, Key::KeyF11),
        (NamedKey::F12, Key::KeyF12),
        (NamedKey::Ins, Key::KeyInsert),
        (NamedKey::Del, Key::KeyDel),
        (NamedKey::Home, Key::KeyHome),
        (NamedKey::End, Key::KeyEnd),
        (NamedKey::PgUp, Key::KeyPageUp),
        (NamedKey::PgDown, Key::KeyPageDown),
    ];
    for (named, key) in pairs {
        assert_eq!(gen_key(&Received::Event(named), &d), Some(vec![key]));
        assert_eq!(keys_for_event(named, &d), Some(vec![key]));
    }
}

#[test]
fn test_keys_for_char_takes_the_mapping_as_given() {
    let d = details(false, false, false);
    assert_eq!(keys_for_char('Q', &vec!['q'], &d), Some(vec![Key::HoldShift, Key::KeyQ]));
    assert_eq!(keys_for_char('q', &vec!['q'], &d), Some(vec![Key::KeyQ]));
    assert_eq!(keys_for_char('Q', &vec!['q', '!'], &d), None);
    assert_eq!(keys_for_char('Q', &vec![], &d), Some(vec![]));
    assert_eq!(
        keys_for_char('X', &vec!['a', 'b'], &details(true, true, false)),
        Some(vec![
            Key::HoldCtrl,
            Key::HoldShift,
            Key::KeyA,
            Key::HoldShift,
            Key::KeyB
        ])
    );
    assert_eq!(keys_for_char('q', &vec!['q'], &released()), None);
}
