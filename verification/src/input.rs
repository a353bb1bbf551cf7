//! Decoding one keystroke of the terminal into keys.

use crate::keys::letter_key;
use crate::keys::letter_to_key;
use crate::keys::Key;
use crate::keys::KeyCombination;
use vstd::prelude::*;

verus! {

/// A key event of the terminal that is not a character.
#[derive(Clone, Copy, Debug, PartialEq, Eq, Hash, Structural)]
pub enum NamedKey {
    Enter,
    Esc,
    Space,
    Backspace,
    Tab,
    Up,
    Down,
    Left,
    Right,
    F01,
    F02,
    F03,
    F04,
    F05,
    F06,
    F07,
    F08,
    F09,
    F10,
    F11,
    F12,
    Ins,
    Del,
    Home,
    End,
    PgUp,
    PgDown,
    /// Any other event: a mouse event, a resize, a key that bindings cannot name.
    Other,
}

/// What one read of the terminal returned.
#[derive(Clone, Copy, Debug, PartialEq, Eq, Hash, Structural)]
pub enum Received {
    /// Nothing was waiting.
    NoInput,
    /// A key event that is not a character.
    Event(NamedKey),
    /// A character.
    Char(char),
}

/// Whether a key went down, stayed down or came up.
#[derive(Clone, Copy, Debug, PartialEq, Eq, Hash, Structural)]
pub enum EventType {
    Unknown,
    Press,
    Repeat,
    Release,
}

/// The details that the terminal reports with a keystroke.
#[derive(Clone, Copy, Debug, PartialEq, Eq, Hash, Structural)]
pub struct InputDetails {
    pub evtype: EventType,
    pub ctrl: bool,
    pub shift: bool,
    pub alt: bool,
}

/// The lowercase mapping of a character, as `char::to_lowercase` yields it.
pub uninterp spec fn lowercase_of(ch: char) -> Seq<char>;

/// `char::to_lowercase`, collected: the characters of the lowercase mapping
/// of `ch`, in order.
#[verifier::external_body]
fn char_to_lowercase(ch: char) -> (lower: Vec<char>)
    ensures
        lower@ == lowercase_of(ch),
{
    ch.to_lowercase().collect()
}

/// The key of a named key event; `Other` has none.
pub open spec fn named_key(key: NamedKey) -> Option<Key> {
    match key {
        NamedKey::Enter => Some(Key::KeyEnter),
        NamedKey::Esc => Some(Key::KeyEsc),
        NamedKey::Space => Some(Key::KeySpace),
        NamedKey::Backspace => Some(Key::KeyBackspace),
        NamedKey::Tab => Some(Key::KeyTab),
        NamedKey::Up => Some(Key::KeyUp),
        NamedKey::Down => Some(Key::KeyDown),
        NamedKey::Left => Some(Key::KeyLeft),
        NamedKey::Right => Some(Key::KeyRight),
        NamedKey::F01 => Some(Key::KeyF1),
        NamedKey::F02 => Some(Key::KeyF2),
        NamedKey::F03 => Some(Key::KeyF3),
        NamedKey::F04 => Some(Key::KeyF4),
        NamedKey::F05 => Some(Key::KeyF5),
        NamedKey::F06 => Some(Key::KeyF6),
        NamedKey::F07 => Some(Key::KeyF7),
        NamedKey::F08 => Some(Key::KeyF8),
        NamedKey::F09 => Some(Key::KeyF9),
        NamedKey::F10 => Some(Key::KeyF10),
        NamedKey::F11 => Some(Key::KeyF11),
        NamedKey::F12 => Some(Key::KeyF12),
        NamedKey::Ins => Some(Key::KeyInsert),
        NamedKey::Del => Some(Key::KeyDel),
        NamedKey::Home => Some(Key::KeyHome),
        NamedKey::End => Some(Key::KeyEnd),
        NamedKey::PgUp => Some(Key::KeyPageUp),
        NamedKey::PgDown => Some(Key::KeyPageDown),
        NamedKey::Other => None,
    }
}

/// The modifier keys that come before every key of a keystroke: Ctrl, then Alt.
pub open spec fn held_modifiers(details: InputDetails) -> Seq<Key> {
    (if details.ctrl { seq![Key::HoldCtrl] } else { Seq::<Key>::empty() })
        + (if details.alt { seq![Key::HoldAlt] } else { Seq::<Key>::empty() })
}

/// Whether Shift precedes the letter `lower` that the character `ch` maps to:
/// when Shift is held, or when `ch` is not its own lowercase and Ctrl is not held.
pub open spec fn shift_applies(ch: char, lower: char, details: InputDetails) -> bool {
    details.shift || (ch != lower && !details.ctrl)
}

/// The keys of the characters `lower` that `ch` maps to: each letter's key,
/// with Shift before it where `shift_applies`. A character that is no letter
/// leaves no keys at all.
pub open spec fn letter_keys(ch: char, lower: Seq<char>, details: InputDetails) -> Option<Seq<Key>>
    decreases lower.len(),
{
    if lower.len() == 0 {
        Some(Seq::<Key>::empty())
    } else {
        match (letter_keys(ch, lower.drop_last(), details), letter_key(lower.last())) {
            (Some(before), Some(key)) => Some(
                before + (if shift_applies(ch, lower.last(), details) {
                    seq![Key::HoldShift]
                } else {
                    Seq::<Key>::empty()
                }) + seq![key],
            ),
            _ => None,
        }
    }
}

/// The keys of a character keystroke, given the lowercase mapping `lower` of
/// `ch`: nothing on a release; else the held modifiers, then `letter_keys`.
pub open spec fn char_keys(ch: char, lower: Seq<char>, details: InputDetails) -> Option<Seq<Key>> {
    if details.evtype == EventType::Release {
        None
    } else {
        match letter_keys(ch, lower, details) {
            Some(keys) => Some(held_modifiers(details) + keys),
            None => None,
        }
    }
}

/// The keys of a named key event: nothing on a release or for `Other`; else
/// the held modifiers Ctrl, Alt, Shift in that order, then the key.
pub open spec fn event_keys(key: NamedKey, details: InputDetails) -> Option<Seq<Key>> {
    if details.evtype == EventType::Release {
        None
    } else {
        match named_key(key) {
            Some(k) => Some(
                held_modifiers(details) + (if details.shift {
                    seq![Key::HoldShift]
                } else {
                    Seq::<Key>::empty()
                }) + seq![k],
            ),
            None => None,
        }
    }
}

/// The keys of a keystroke.
pub open spec fn keystroke_keys(received: Received, details: InputDetails) -> Option<Seq<Key>> {
    match received {
        Received::NoInput => None,
        Received::Event(key) => event_keys(key, details),
        Received::Char(ch) => char_keys(ch, lowercase_of(ch), details),
    }
}

/// The view of an optional key combination.
pub open spec fn keys_view(keys: Option<KeyCombination>) -> Option<Seq<Key>> {
    match keys {
        Some(k) => Some(k@),
        None => None,
    }
}

fn named_to_key(key: NamedKey) -> (found: Option<Key>)
    ensures
        found == named_key(key),
{
    match key {
        NamedKey::Enter => Some(Key::KeyEnter),
        NamedKey::Esc => Some(Key::KeyEsc),
        NamedKey::Space => Some(Key::KeySpace),
        NamedKey::Backspace => Some(Key::KeyBackspace),
        NamedKey::Tab => Some(Key::KeyTab),
        NamedKey::Up => Some(Key::KeyUp),
        NamedKey::Down => Some(Key::KeyDown),
        NamedKey::Left => Some(Key::KeyLeft),
        NamedKey::Right => Some(Key::KeyRight),
        NamedKey::F01 => Some(Key::KeyF1),
        NamedKey::F02 => Some(Key::KeyF2),
        NamedKey::F03 => Some(Key::KeyF3),
        NamedKey::F04 => Some(Key::KeyF4),
        NamedKey::F05 => Some(Key::KeyF5),
        NamedKey::F06 => Some(Key::KeyF6),
        NamedKey::F07 => Some(Key::KeyF7),
        NamedKey::F08 => Some(Key::KeyF8),
        NamedKey::F09 => Some(Key::KeyF9),
        NamedKey::F10 => Some(Key::KeyF10),
        NamedKey::F11 => Some(Key::KeyF11),
        NamedKey::F12 => Some(Key::KeyF12),
        NamedKey::Ins => Some(Key::KeyInsert),
        NamedKey::Del => Some(Key::KeyDel),
        NamedKey::Home => Some(Key::KeyHome),
        NamedKey::End => Some(Key::KeyEnd),
        NamedKey::PgUp => Some(Key::KeyPageUp),
        NamedKey::PgDown => Some(Key::KeyPageDown),
        NamedKey::Other => None,
    }
}

fn modifiers_held(details: &InputDetails) -> (keys: Vec<Key>)
    ensures
        keys@ == held_modifiers(*details),
{
    let mut keys: Vec<Key> = Vec::new();
    if details.ctrl {
        keys.push(Key::HoldCtrl);
    }
    if details.alt {
        keys.push(Key::HoldAlt);
    }
    assert(keys@ =~= held_modifiers(*details));
    keys
}

/// The keys of a character keystroke, from the character, its lowercase
/// mapping and the details reported with it.
pub fn keys_for_char(ch: char, lower: &Vec<char>, details: &InputDetails) -> (keys: Option<KeyCombination>)
    ensures
        keys_view(keys) == char_keys(ch, lower@, *details),
{
    if details.evtype == EventType::Release {
        return None;
    }
    let mut keys = modifiers_held(details);
    let mut i: usize = 0;
    while i < lower.len()
        invariant
            i <= lower.len(),
            letter_keys(ch, lower@.subrange(0, i as int), *details) is Some,
            keys@ == held_modifiers(*details) + letter_keys(
                ch,
                lower@.subrange(0, i as int),
                *details,
            )->0,
        decreases lower.len() - i,
    {
        let ghost before = lower@.subrange(0, i as int);
        let ghost upto = lower@.subrange(0, i + 1);
        assert(upto.drop_last() == before);
        assert(upto.last() == lower@[i as int]);
        let l = lower[i];
        let key = letter_to_key(l);
        match key {
            None => {
                proof {
                    lemma_letter_keys_none(ch, lower@, i + 1, *details);
                }
                return None;
            },
            Some(k) => {
                if details.shift || (ch != l && !details.ctrl) {
                    keys.push(Key::HoldShift);
                }
                keys.push(k);
                assert(keys@ =~= held_modifiers(*details) + letter_keys(ch, upto, *details)->0);
            },
        }
        i += 1;
    }
    assert(lower@.subrange(0, lower.len() as int) == lower@);
    Some(keys)
}

/// Once a prefix of `lower` has no keys, neither has `lower`.
proof fn lemma_letter_keys_none(ch: char, lower: Seq<char>, n: int, details: InputDetails)
    requires
        0 <= n <= lower.len(),
        letter_keys(ch, lower.subrange(0, n), details) is None,
    ensures
        letter_keys(ch, lower, details) is None,
    decreases lower.len() - n,
{
    if n == lower.len() {
        assert(lower.subrange(0, n) == lower);
    } else {
        let upto = lower.subrange(0, n + 1);
        assert(upto.drop_last() == lower.subrange(0, n));
        lemma_letter_keys_none(ch, lower, n + 1, details);
    }
}

/// The keys of a named key event.
pub fn keys_for_event(key: NamedKey, details: &InputDetails) -> (keys: Option<KeyCombination>)
    ensures
        keys_view(keys) == event_keys(key, *details),
{
    if details.evtype == EventType::Release {
        return None;
    }
    match named_to_key(key) {
        None => None,
        Some(k) => {
            let mut keys = modifiers_held(details);
            if details.shift {
                keys.push(Key::HoldShift);
            }
            keys.push(k);
            assert(keys@ =~= event_keys(key, *details)->0);
            Some(keys)
        },
    }
}

/// Decodes one keystroke: the keys that it adds to the buffer of the
/// binding resolver, or `None` where it stands for no key.
pub fn gen_key(received: &Received, details: &InputDetails) -> (keys: Option<KeyCombination>)
    ensures
        keys_view(keys) == keystroke_keys(*received, *details),
{
    match received {
        Received::NoInput => None,
        Received::Event(key) => keys_for_event(*key, details),
        Received::Char(ch) => {
            let lower = char_to_lowercase(*ch);
            keys_for_char(*ch, &lower, details)
        },
    }
}

/// A release produces no key, whatever was released.
pub proof fn lemma_release_has_no_key(received: Received, details: InputDetails)
    requires
        details.evtype == EventType::Release,
    ensures
        keystroke_keys(received, details) is None,
{
}

/// A character that differs from the one letter it maps to, without Ctrl:
/// Shift comes right before the letter's key, after Ctrl and Alt.
pub proof fn lemma_upper_case_without_ctrl(ch: char, lower: char, details: InputDetails)
    requires
        details.evtype != EventType::Release,
        !details.ctrl,
        ch != lower,
        letter_key(lower) is Some,
    ensures
        char_keys(ch, seq![lower], details) == Some(
            (if details.alt { seq![Key::HoldAlt] } else { Seq::<Key>::empty() }) + seq![
                Key::HoldShift,
                letter_key(lower)->0,
            ],
        ),
{
    lemma_letter_keys_single(ch, lower, details);
    assert(held_modifiers(details) + seq![Key::HoldShift, letter_key(lower)->0] =~= (if details.alt {
        seq![Key::HoldAlt]
    } else {
        Seq::<Key>::empty()
    }) + seq![Key::HoldShift, letter_key(lower)->0]);
}

/// A character with Ctrl and without Shift: Ctrl, Alt if held, then the
/// letter's key, and no Shift, whether or not the character is upper case.
pub proof fn lemma_letter_with_ctrl(ch: char, lower: char, details: InputDetails)
    requires
        details.evtype != EventType::Release,
        details.ctrl,
        !details.shift,
        letter_key(lower) is Some,
    ensures
        char_keys(ch, seq![lower], details) == Some(
            seq![Key::HoldCtrl] + (if details.alt { seq![Key::HoldAlt] } else { Seq::<Key>::empty() })
                + seq![letter_key(lower)->0],
        ),
{
    lemma_letter_keys_single(ch, lower, details);
}

/// Every modifier of a keystroke comes before its last key, in the order
/// Ctrl, Alt, Shift, and the last key is no modifier.
pub proof fn lemma_event_modifier_order(key: NamedKey, details: InputDetails)
    requires
        event_keys(key, details) is Some,
    ensures
        ({
            let keys = event_keys(key, details)->0;
            let c: int = if details.ctrl { 1 } else { 0 };
            let a: int = if details.alt { 1 } else { 0 };
            let s: int = if details.shift { 1 } else { 0 };
            &&& keys.len() == c + a + s + 1
            &&& details.ctrl ==> keys[0] == Key::HoldCtrl
            &&& details.alt ==> keys[c] == Key::HoldAlt
            &&& details.shift ==> keys[c + a] == Key::HoldShift
            &&& keys.last() == named_key(key)->0
            &&& keys.last() != Key::HoldCtrl && keys.last() != Key::HoldAlt && keys.last()
                != Key::HoldShift
        }),
{
}

proof fn lemma_letter_keys_single(ch: char, lower: char, details: InputDetails)
    requires
        letter_key(lower) is Some,
    ensures
        letter_keys(ch, seq![lower], details) == Some(
            (if shift_applies(ch, lower, details) {
                seq![Key::HoldShift]
            } else {
                Seq::<Key>::empty()
            }) + seq![letter_key(lower)->0],
        ),
{
    let one = seq![lower];
    assert(one.drop_last() =~= Seq::<char>::empty());
    assert(one.last() == lower);
    assert(letter_keys(ch, one.drop_last(), details) == Some(Seq::<Key>::empty()));
    let shift = if shift_applies(ch, lower, details) {
        seq![Key::HoldShift]
    } else {
        Seq::<Key>::empty()
    };
    assert(Seq::<Key>::empty() + shift + seq![letter_key(lower)->0] =~= shift + seq![
        letter_key(lower)->0,
    ]);
}

} // verus!
