//! The key model: the keys a binding can name and the numeric code of each.

use vstd::prelude::*;

verus! {

/// A key that a binding can name, or a modifier held while a key is pressed.
///
/// Modifiers are elements of a key sequence like any other key; within one
/// key press they come first, in the order Ctrl, Alt, Shift.
#[derive(Clone, Copy, Debug, PartialEq, Eq, Hash, Structural)]
pub enum Key {
    KeyA,
    KeyB,
    KeyC,
    KeyD,
    KeyE,
    KeyF,
    KeyG,
    KeyH,
    KeyI,
    KeyJ,
    KeyK,
    KeyL,
    KeyM,
    KeyN,
    KeyO,
    KeyP,
    KeyQ,
    KeyR,
    KeyS,
    KeyT,
    KeyU,
    KeyV,
    KeyW,
    KeyX,
    KeyY,
    KeyZ,
    KeyEnter,
    KeyEsc,
    KeySpace,
    KeyBackspace,
    KeyTab,
    KeyUp,
    KeyDown,
    KeyLeft,
    KeyRight,
    KeyF1,
    KeyF2,
    KeyF3,
    KeyF4,
    KeyF5,
    KeyF6,
    KeyF7,
    KeyF8,
    KeyF9,
    KeyF10,
    KeyF11,
    KeyF12,
    KeyInsert,
    KeyDel,
    KeyHome,
    KeyEnd,
    KeyPageUp,
    KeyPageDown,
    HoldCtrl,
    HoldShift,
    HoldAlt,
}

/// An ordered sequence of keys: one user gesture, possibly several key presses.
pub type KeyCombination = Vec<Key>;

/// The code of a key: the keys are numbered from 1 in declaration order.
pub open spec fn key_code(key: Key) -> u8 {
    match key {
        Key::KeyA => 0x01u8,
        Key::KeyB => 0x02u8,
        Key::KeyC => 0x03u8,
        Key::KeyD => 0x04u8,
        Key::KeyE => 0x05u8,
        Key::KeyF => 0x06u8,
        Key::KeyG => 0x07u8,
        Key::KeyH => 0x08u8,
        Key::KeyI => 0x09u8,
        Key::KeyJ => 0x0au8,
        Key::KeyK => 0x0bu8,
        Key::KeyL => 0x0cu8,
        Key::KeyM => 0x0du8,
        Key::KeyN => 0x0eu8,
        Key::KeyO => 0x0fu8,
        Key::KeyP => 0x10u8,
        Key::KeyQ => 0x11u8,
        Key::KeyR => 0x12u8,
        Key::KeyS => 0x13u8,
        Key::KeyT => 0x14u8,
        Key::KeyU => 0x15u8,
        Key::KeyV => 0x16u8,
        Key::KeyW => 0x17u8,
        Key::KeyX => 0x18u8,
        Key::KeyY => 0x19u8,
        Key::KeyZ => 0x1au8,
        Key::KeyEnter => 0x1bu8,
        Key::KeyEsc => 0x1cu8,
        Key::KeySpace => 0x1du8,
        Key::KeyBackspace => 0x1eu8,
        Key::KeyTab => 0x1fu8,
        Key::KeyUp => 0x20u8,
        Key::KeyDown => 0x21u8,
        Key::KeyLeft => 0x22u8,
        Key::KeyRight => 0x23u8,
        Key::KeyF1 => 0x24u8,
        Key::KeyF2 => 0x25u8,
        Key::KeyF3 => 0x26u8,
        Key::KeyF4 => 0x27u8,
        Key::KeyF5 => 0x28u8,
        Key::KeyF6 => 0x29u8,
        Key::KeyF7 => 0x2au8,
        Key::KeyF8 => 0x2bu8,
        Key::KeyF9 => 0x2cu8,
        Key::KeyF10 => 0x2du8,
        Key::KeyF11 => 0x2eu8,
        Key::KeyF12 => 0x2fu8,
        Key::KeyInsert => 0x30u8,
        Key::KeyDel => 0x31u8,
        Key::KeyHome => 0x32u8,
        Key::KeyEnd => 0x33u8,
        Key::KeyPageUp => 0x34u8,
        Key::KeyPageDown => 0x35u8,
        Key::HoldCtrl => 0x36u8,
        Key::HoldShift => 0x37u8,
        Key::HoldAlt => 0x38u8,
    }
}

/// The key of a lowercase letter `a` to `z`; no other character has one.
pub open spec fn letter_key(ch: char) -> Option<Key> {
    if ch == 'a' {
        Some(Key::KeyA)
    } else if ch == 'b' {
        Some(Key::KeyB)
    } else if ch == 'c' {
        Some(Key::KeyC)
    } else if ch == 'd' {
        Some(Key::KeyD)
    } else if ch == 'e' {
        Some(Key::KeyE)
    } else if ch == 'f' {
        Some(Key::KeyF)
    } else if ch == 'g' {
        Some(Key::KeyG)
    } else if ch == 'h' {
        Some(Key::KeyH)
    } else if ch == 'i' {
        Some(Key::KeyI)
    } else if ch == 'j' {
        Some(Key::KeyJ)
    } else if ch == 'k' {
        Some(Key::KeyK)
    } else if ch == 'l' {
        Some(Key::KeyL)
    } else if ch == 'm' {
        Some(Key::KeyM)
    } else if ch == 'n' {
        Some(Key::KeyN)
    } else if ch == 'o' {
        Some(Key::KeyO)
    } else if ch == 'p' {
        Some(Key::KeyP)
    } else if ch == 'q' {
        Some(Key::KeyQ)
    } else if ch == 'r' {
        Some(Key::KeyR)
    } else if ch == 's' {
        Some(Key::KeyS)
    } else if ch == 't' {
        Some(Key::KeyT)
    } else if ch == 'u' {
        Some(Key::KeyU)
    } else if ch == 'v' {
        Some(Key::KeyV)
    } else if ch == 'w' {
        Some(Key::KeyW)
    } else if ch == 'x' {
        Some(Key::KeyX)
    } else if ch == 'y' {
        Some(Key::KeyY)
    } else if ch == 'z' {
        Some(Key::KeyZ)
    } else {
        None
    }
}

/// The key of a lowercase letter.
pub fn letter_to_key(ch: char) -> (key: Option<Key>)
    ensures
        key == letter_key(ch),
{
    if ch == 'a' {
        Some(Key::KeyA)
    } else if ch == 'b' {
        Some(Key::KeyB)
    } else if ch == 'c' {
        Some(Key::KeyC)
    } else if ch == 'd' {
        Some(Key::KeyD)
    } else if ch == 'e' {
        Some(Key::KeyE)
    } else if ch == 'f' {
        Some(Key::KeyF)
    } else if ch == 'g' {
        Some(Key::KeyG)
    } else if ch == 'h' {
        Some(Key::KeyH)
    } else if ch == 'i' {
        Some(Key::KeyI)
    } else if ch == 'j' {
        Some(Key::KeyJ)
    } else if ch == 'k' {
        Some(Key::KeyK)
    } else if ch == 'l' {
        Some(Key::KeyL)
    } else if ch == 'm' {
        Some(Key::KeyM)
    } else if ch == 'n' {
        Some(Key::KeyN)
    } else if ch == 'o' {
        Some(Key::KeyO)
    } else if ch == 'p' {
        Some(Key::KeyP)
    } else if ch == 'q' {
        Some(Key::KeyQ)
    } else if ch == 'r' {
        Some(Key::KeyR)
    } else if ch == 's' {
        Some(Key::KeyS)
    } else if ch == 't' {
        Some(Key::KeyT)
    } else if ch == 'u' {
        Some(Key::KeyU)
    } else if ch == 'v' {
        Some(Key::KeyV)
    } else if ch == 'w' {
        Some(Key::KeyW)
    } else if ch == 'x' {
        Some(Key::KeyX)
    } else if ch == 'y' {
        Some(Key::KeyY)
    } else if ch == 'z' {
        Some(Key::KeyZ)
    } else {
        None
    }
}

/// Whether `key` is one of the letter keys `KeyA` to `KeyZ`.
pub open spec fn is_letter_key(key: Key) -> bool {
    key_code(key) <= 0x1a
}

/// The codes of a key sequence, element by element.
pub open spec fn key_codes(keys: Seq<Key>) -> Seq<u8> {
    keys.map_values(|k: Key| key_code(k))
}

/// The code of `key`.
pub fn key_to_code(key: &Key) -> (code: u8)
    ensures
        code == key_code(*key),
        1 <= code <= 0x38,
{
    match key {
        Key::KeyA => 0x01u8,
        Key::KeyB => 0x02u8,
        Key::KeyC => 0x03u8,
        Key::KeyD => 0x04u8,
        Key::KeyE => 0x05u8,
        Key::KeyF => 0x06u8,
        Key::KeyG => 0x07u8,
        Key::KeyH => 0x08u8,
        Key::KeyI => 0x09u8,
        Key::KeyJ => 0x0au8,
        Key::KeyK => 0x0bu8,
        Key::KeyL => 0x0cu8,
        Key::KeyM => 0x0du8,
        Key::KeyN => 0x0eu8,
        Key::KeyO => 0x0fu8,
        Key::KeyP => 0x10u8,
        Key::KeyQ => 0x11u8,
        Key::KeyR => 0x12u8,
        Key::KeyS => 0x13u8,
        Key::KeyT => 0x14u8,
        Key::KeyU => 0x15u8,
        Key::KeyV => 0x16u8,
        Key::KeyW => 0x17u8,
        Key::KeyX => 0x18u8,
        Key::KeyY => 0x19u8,
        Key::KeyZ => 0x1au8,
        Key::KeyEnter => 0x1bu8,
        Key::KeyEsc => 0x1cu8,
        Key::KeySpace => 0x1du8,
        Key::KeyBackspace => 0x1eu8,
        Key::KeyTab => 0x1fu8,
        Key::KeyUp => 0x20u8,
        Key::KeyDown => 0x21u8,
        Key::KeyLeft => 0x22u8,
        Key::KeyRight => 0x23u8,
        Key::KeyF1 => 0x24u8,
        Key::KeyF2 => 0x25u8,
        Key::KeyF3 => 0x26u8,
        Key::KeyF4 => 0x27u8,
        Key::KeyF5 => 0x28u8,
        Key::KeyF6 => 0x29u8,
        Key::KeyF7 => 0x2au8,
        Key::KeyF8 => 0x2bu8,
        Key::KeyF9 => 0x2cu8,
        Key::KeyF10 => 0x2du8,
        Key::KeyF11 => 0x2eu8,
        Key::KeyF12 => 0x2fu8,
        Key::KeyInsert => 0x30u8,
        Key::KeyDel => 0x31u8,
        Key::KeyHome => 0x32u8,
        Key::KeyEnd => 0x33u8,
        Key::KeyPageUp => 0x34u8,
        Key::KeyPageDown => 0x35u8,
        Key::HoldCtrl => 0x36u8,
        Key::HoldShift => 0x37u8,
        Key::HoldAlt => 0x38u8,
    }
}

/// Distinct keys have distinct codes, and every code lies in `1..=0x38`.
pub proof fn lemma_key_code_injective(a: Key, b: Key)
    ensures
        1 <= key_code(a) <= 0x38,
        key_code(a) == key_code(b) <==> a == b,
{
}

/// Distinct key sequences have distinct code sequences.
pub proof fn lemma_key_codes_injective(a: Seq<Key>, b: Seq<Key>)
    ensures
        key_codes(a) == key_codes(b) <==> a == b,
{
    if key_codes(a) == key_codes(b) {
        assert(key_codes(a).len() == a.len());
        assert(key_codes(b).len() == b.len());
        assert forall|i: int| 0 <= i < a.len() implies a[i] == b[i] by {
            assert(key_codes(a)[i] == key_codes(b)[i]);
            lemma_key_code_injective(a[i], b[i]);
        }
        assert(a =~= b);
    }
}

/// The codes of `keys`, in order.
pub fn keys_to_codes(keys: &Vec<Key>) -> (codes: Vec<u8>)
    ensures
        codes@ == key_codes(keys@),
{
    let mut codes: Vec<u8> = Vec::new();
    let mut i: usize = 0;
    while i < keys.len()
        invariant
            i <= keys.len(),
            codes@ == key_codes(keys@.subrange(0, i as int)),
        decreases keys.len() - i,
    {
        let c = key_to_code(&keys[i]);
        codes.push(c);
        assert(keys@.subrange(0, i + 1) == keys@.subrange(0, i as int).push(keys@[i as int]));
        assert(codes@ =~= key_codes(keys@.subrange(0, i + 1)));
        i += 1;
    }
    assert(keys@.subrange(0, keys.len() as int) == keys@);
    codes
}

} // verus!
