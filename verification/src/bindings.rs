//! The textual form of key bindings.
//!
//! A binding is a run of atoms. An atom is a single letter, or a group in
//! angle brackets of key names joined by `-`, such as `<C-a>` or `<Space>`.
//! A lower-case letter stands for its key, an upper-case letter for Shift
//! and its key.

use crate::keys::is_letter_key;
use crate::keys::key_to_code;
use crate::keys::letter_key;
use crate::keys::letter_to_key;
use crate::keys::Key;
use crate::keys::KeyCombination;
use crate::text::str_chars;
use vstd::prelude::*;
use vstd::string::StrSliceExecFns;
use vstd::string::StringExecFns;

verus! {

/// Why a binding does not parse.
#[derive(Clone, Copy, Debug, PartialEq, Eq, Hash, Structural)]
pub enum ParseError {
    /// `<` inside a group, `>` or `-` outside one, or a group left open.
    Syntax,
    /// A name in a group, or a character outside one, that stands for no key.
    UnknownKey,
}

/// The key of an upper-case letter `A` to `Z`; no other character has one.
pub open spec fn upper_letter_key(ch: char) -> Option<Key> {
    if ch == 'A' {
        Some(Key::KeyA)
    } else if ch == 'B' {
        Some(Key::KeyB)
    } else if ch == 'C' {
        Some(Key::KeyC)
    } else if ch == 'D' {
        Some(Key::KeyD)
    } else if ch == 'E' {
        Some(Key::KeyE)
    } else if ch == 'F' {
        Some(Key::KeyF)
    } else if ch == 'G' {
        Some(Key::KeyG)
    } else if ch == 'H' {
        Some(Key::KeyH)
    } else if ch == 'I' {
        Some(Key::KeyI)
    } else if ch == 'J' {
        Some(Key::KeyJ)
    } else if ch == 'K' {
        Some(Key::KeyK)
    } else if ch == 'L' {
        Some(Key::KeyL)
    } else if ch == 'M' {
        Some(Key::KeyM)
    } else if ch == 'N' {
        Some(Key::KeyN)
    } else if ch == 'O' {
        Some(Key::KeyO)
    } else if ch == 'P' {
        Some(Key::KeyP)
    } else if ch == 'Q' {
        Some(Key::KeyQ)
    } else if ch == 'R' {
        Some(Key::KeyR)
    } else if ch == 'S' {
        Some(Key::KeyS)
    } else if ch == 'T' {
        Some(Key::KeyT)
    } else if ch == 'U' {
        Some(Key::KeyU)
    } else if ch == 'V' {
        Some(Key::KeyV)
    } else if ch == 'W' {
        Some(Key::KeyW)
    } else if ch == 'X' {
        Some(Key::KeyX)
    } else if ch == 'Y' {
        Some(Key::KeyY)
    } else if ch == 'Z' {
        Some(Key::KeyZ)
    } else {
        None
    }
}

/// The keys of a character outside a group: a lower-case letter is its key,
/// an upper-case letter is Shift and then its key.
pub open spec fn literal_keys(ch: char) -> Option<Seq<Key>> {
    if letter_key(ch) is Some {
        Some(seq![letter_key(ch)->0])
    } else if upper_letter_key(ch) is Some {
        Some(seq![Key::HoldShift, upper_letter_key(ch)->0])
    } else {
        None
    }
}

/// The key that a name inside a group stands for: a lower-case letter, a
/// modifier `C`, `S`, `A` or `M`, or the name of a key.
pub open spec fn token_key(token: Seq<char>) -> Option<Key> {
    if token.len() == 1 && letter_key(token[0]) is Some {
        letter_key(token[0])
    } else if token == "C"@ {
        Some(Key::HoldCtrl)
    } else if token == "S"@ {
        Some(Key::HoldShift)
    } else if token == "A"@ {
        Some(Key::HoldAlt)
    } else if token == "M"@ {
        Some(Key::HoldAlt)
    } else if token == "Esc"@ {
        Some(Key::KeyEsc)
    } else if token == "Enter"@ {
        Some(Key::KeyEnter)
    } else if token == "CR"@ {
        Some(Key::KeyEnter)
    } else if token == "Return"@ {
        Some(Key::KeyEnter)
    } else if token == "Space"@ {
        Some(Key::KeySpace)
    } else if token == "Tab"@ {
        Some(Key::KeyTab)
    } else if token == "BS"@ {
        Some(Key::KeyBackspace)
    } else if token == "Up"@ {
        Some(Key::KeyUp)
    } else if token == "Down"@ {
        Some(Key::KeyDown)
    } else if token == "Left"@ {
        Some(Key::KeyLeft)
    } else if token == "Right"@ {
        Some(Key::KeyRight)
    } else if token == "F1"@ {
        Some(Key::KeyF1)
    } else if token == "F2"@ {
        Some(Key::KeyF2)
    } else if token == "F3"@ {
        Some(Key::KeyF3)
    } else if token == "F4"@ {
        Some(Key::KeyF4)
    } else if token == "F5"@ {
        Some(Key::KeyF5)
    } else if token == "F6"@ {
        Some(Key::KeyF6)
    } else if token == "F7"@ {
        Some(Key::KeyF7)
    } else if token == "F8"@ {
        Some(Key::KeyF8)
    } else if token == "F9"@ {
        Some(Key::KeyF9)
    } else if token == "F10"@ {
        Some(Key::KeyF10)
    } else if token == "F11"@ {
        Some(Key::KeyF11)
    } else if token == "F12"@ {
        Some(Key::KeyF12)
    } else if token == "Insert"@ {
        Some(Key::KeyInsert)
    } else if token == "Del"@ {
        Some(Key::KeyDel)
    } else if token == "Home"@ {
        Some(Key::KeyHome)
    } else if token == "End"@ {
        Some(Key::KeyEnd)
    } else if token == "PageUp"@ {
        Some(Key::KeyPageUp)
    } else if token == "PageDown"@ {
        Some(Key::KeyPageDown)
    } else {
        None
    }
}

/// Whether `ch` has a meaning of its own in a binding.
pub open spec fn is_special(ch: char) -> bool {
    ch == '<' || ch == '>' || ch == '-'
}

/// Parsing from position `at` of `s`, with `keys` read so far. `group` is
/// `Some(start)` inside a group, where `start` is the position at which the
/// name being read began.
pub open spec fn parse_from(s: Seq<char>, at: int, group: Option<int>, keys: Seq<Key>) -> Result<
    Seq<Key>,
    ParseError,
>
    decreases s.len() - at,
{
    if at >= s.len() {
        if group is Some {
            Err(ParseError::Syntax)
        } else {
            Ok(keys)
        }
    } else if s[at] == '<' {
        if group is Some {
            Err(ParseError::Syntax)
        } else {
            parse_from(s, at + 1, Some(at + 1), keys)
        }
    } else if s[at] == '-' || s[at] == '>' {
        match group {
            None => Err(ParseError::Syntax),
            Some(start) => match token_key(s.subrange(start, at)) {
                None => Err(ParseError::UnknownKey),
                Some(key) => parse_from(
                    s,
                    at + 1,
                    if s[at] == '-' {
                        Some(at + 1)
                    } else {
                        None
                    },
                    keys.push(key),
                ),
            },
        }
    } else if group is Some {
        parse_from(s, at + 1, group, keys)
    } else {
        match literal_keys(s[at]) {
            None => Err(ParseError::UnknownKey),
            Some(found) => parse_from(s, at + 1, None, keys + found),
        }
    }
}

/// The key combination that the binding `s` stands for, or why it has none.
pub open spec fn parse_binding(s: Seq<char>) -> Result<Seq<Key>, ParseError> {
    parse_from(s, 0, None, Seq::<Key>::empty())
}

/// The name under which a key is printed.
pub open spec fn key_token(key: Key) -> Seq<char> {
    match key {
        Key::KeyA => "a"@,
        Key::KeyB => "b"@,
        Key::KeyC => "c"@,
        Key::KeyD => "d"@,
        Key::KeyE => "e"@,
        Key::KeyF => "f"@,
        Key::KeyG => "g"@,
        Key::KeyH => "h"@,
        Key::KeyI => "i"@,
        Key::KeyJ => "j"@,
        Key::KeyK => "k"@,
        Key::KeyL => "l"@,
        Key::KeyM => "m"@,
        Key::KeyN => "n"@,
        Key::KeyO => "o"@,
        Key::KeyP => "p"@,
        Key::KeyQ => "q"@,
        Key::KeyR => "r"@,
        Key::KeyS => "s"@,
        Key::KeyT => "t"@,
        Key::KeyU => "u"@,
        Key::KeyV => "v"@,
        Key::KeyW => "w"@,
        Key::KeyX => "x"@,
        Key::KeyY => "y"@,
        Key::KeyZ => "z"@,
        Key::KeyEnter => "Enter"@,
        Key::KeyEsc => "Esc"@,
        Key::KeySpace => "Space"@,
        Key::KeyBackspace => "BS"@,
        Key::KeyTab => "Tab"@,
        Key::KeyUp => "Up"@,
        Key::KeyDown => "Down"@,
        Key::KeyLeft => "Left"@,
        Key::KeyRight => "Right"@,
        Key::KeyF1 => "F1"@,
        Key::KeyF2 => "F2"@,
        Key::KeyF3 => "F3"@,
        Key::KeyF4 => "F4"@,
        Key::KeyF5 => "F5"@,
        Key::KeyF6 => "F6"@,
        Key::KeyF7 => "F7"@,
        Key::KeyF8 => "F8"@,
        Key::KeyF9 => "F9"@,
        Key::KeyF10 => "F10"@,
        Key::KeyF11 => "F11"@,
        Key::KeyF12 => "F12"@,
        Key::KeyInsert => "Insert"@,
        Key::KeyDel => "Del"@,
        Key::KeyHome => "Home"@,
        Key::KeyEnd => "End"@,
        Key::KeyPageUp => "PageUp"@,
        Key::KeyPageDown => "PageDown"@,
        Key::HoldCtrl => "C"@,
        Key::HoldShift => "S"@,
        Key::HoldAlt => "A"@,
    }
}

/// The atom that prints one key: the letter itself, or the key's name in
/// angle brackets.
pub open spec fn key_atom(key: Key) -> Seq<char> {
    if is_letter_key(key) {
        key_token(key)
    } else {
        "<"@ + key_token(key) + ">"@
    }
}

/// The canonical text of a key combination: the atoms of its keys, in order.
pub open spec fn print_binding(keys: Seq<Key>) -> Seq<char>
    decreases keys.len(),
{
    if keys.len() == 0 {
        Seq::<char>::empty()
    } else {
        print_binding(keys.drop_last()) + key_atom(keys.last())
    }
}

/// The view of a parse result.
pub open spec fn parsed_view(parsed: Result<KeyCombination, ParseError>) -> Result<
    Seq<Key>,
    ParseError,
> {
    match parsed {
        Ok(keys) => Ok(keys@),
        Err(e) => Err(e),
    }
}

fn upper_letter_to_key(ch: char) -> (key: Option<Key>)
    ensures
        key == upper_letter_key(ch),
{
    if ch == 'A' {
        Some(Key::KeyA)
    } else if ch == 'B' {
        Some(Key::KeyB)
    } else if ch == 'C' {
        Some(Key::KeyC)
    } else if ch == 'D' {
        Some(Key::KeyD)
    } else if ch == 'E' {
        Some(Key::KeyE)
    } else if ch == 'F' {
        Some(Key::KeyF)
    } else if ch == 'G' {
        Some(Key::KeyG)
    } else if ch == 'H' {
        Some(Key::KeyH)
    } else if ch == 'I' {
        Some(Key::KeyI)
    } else if ch == 'J' {
        Some(Key::KeyJ)
    } else if ch == 'K' {
        Some(Key::KeyK)
    } else if ch == 'L' {
        Some(Key::KeyL)
    } else if ch == 'M' {
        Some(Key::KeyM)
    } else if ch == 'N' {
        Some(Key::KeyN)
    } else if ch == 'O' {
        Some(Key::KeyO)
    } else if ch == 'P' {
        Some(Key::KeyP)
    } else if ch == 'Q' {
        Some(Key::KeyQ)
    } else if ch == 'R' {
        Some(Key::KeyR)
    } else if ch == 'S' {
        Some(Key::KeyS)
    } else if ch == 'T' {
        Some(Key::KeyT)
    } else if ch == 'U' {
        Some(Key::KeyU)
    } else if ch == 'V' {
        Some(Key::KeyV)
    } else if ch == 'W' {
        Some(Key::KeyW)
    } else if ch == 'X' {
        Some(Key::KeyX)
    } else if ch == 'Y' {
        Some(Key::KeyY)
    } else if ch == 'Z' {
        Some(Key::KeyZ)
    } else {
        None
    }
}

/// Whether the characters of `chars` from `start` up to `end` spell `name`.
fn token_is(chars: &Vec<char>, start: usize, end: usize, name: &str) -> (same: bool)
    requires
        start <= end <= chars.len(),
    ensures
        same == (chars@.subrange(start as int, end as int) == name@),
{
    let n = name.unicode_len();
    if end - start != n {
        return false;
    }
    let mut i: usize = 0;
    while i < n
        invariant
            start <= end <= chars.len(),
            end - start == n,
            n == name@.len(),
            i <= n,
            forall|j: int| 0 <= j < i ==> chars@[start + j] == name@[j],
        decreases n - i,
    {
        if chars[start + i] != name.get_char(i) {
            assert(chars@.subrange(start as int, end as int)[i as int] != name@[i as int]);
            return false;
        }
        i += 1;
    }
    assert(chars@.subrange(start as int, end as int) =~= name@);
    true
}

/// The key that the name in `chars` from `start` up to `end` stands for.
fn find_key(chars: &Vec<char>, start: usize, end: usize) -> (key: Option<Key>)
    requires
        start <= end <= chars.len(),
    ensures
        key == token_key(chars@.subrange(start as int, end as int)),
{
    if end - start == 1 {
        let letter = letter_to_key(chars[start]);
        if letter.is_some() {
            return letter;
        }
    }
    if token_is(chars, start, end, "C") {
        Some(Key::HoldCtrl)
    } else if token_is(chars, start, end, "S") {
        Some(Key::HoldShift)
    } else if token_is(chars, start, end, "A") {
        Some(Key::HoldAlt)
    } else if token_is(chars, start, end, "M") {
        Some(Key::HoldAlt)
    } else if token_is(chars, start, end, "Esc") {
        Some(Key::KeyEsc)
    } else if token_is(chars, start, end, "Enter") {
        Some(Key::KeyEnter)
    } else if token_is(chars, start, end, "CR") {
        Some(Key::KeyEnter)
    } else if token_is(chars, start, end, "Return") {
        Some(Key::KeyEnter)
    } else if token_is(chars, start, end, "Space") {
        Some(Key::KeySpace)
    } else if token_is(chars, start, end, "Tab") {
        Some(Key::KeyTab)
    } else if token_is(chars, start, end, "BS") {
        Some(Key::KeyBackspace)
    } else if token_is(chars, start, end, "Up") {
        Some(Key::KeyUp)
    } else if token_is(chars, start, end, "Down") {
        Some(Key::KeyDown)
    } else if token_is(chars, start, end, "Left") {
        Some(Key::KeyLeft)
    } else if token_is(chars, start, end, "Right") {
        Some(Key::KeyRight)
    } else if token_is(chars, start, end, "F1") {
        Some(Key::KeyF1)
    } else if token_is(chars, start, end, "F2") {
        Some(Key::KeyF2)
    } else if token_is(chars, start, end, "F3") {
        Some(Key::KeyF3)
    } else if token_is(chars, start, end, "F4") {
        Some(Key::KeyF4)
    } else if token_is(chars, start, end, "F5") {
        Some(Key::KeyF5)
    } else if token_is(chars, start, end, "F6") {
        Some(Key::KeyF6)
    } else if token_is(chars, start, end, "F7") {
        Some(Key::KeyF7)
    } else if token_is(chars, start, end, "F8") {
        Some(Key::KeyF8)
    } else if token_is(chars, start, end, "F9") {
        Some(Key::KeyF9)
    } else if token_is(chars, start, end, "F10") {
        Some(Key::KeyF10)
    } else if token_is(chars, start, end, "F11") {
        Some(Key::KeyF11)
    } else if token_is(chars, start, end, "F12") {
        Some(Key::KeyF12)
    } else if token_is(chars, start, end, "Insert") {
        Some(Key::KeyInsert)
    } else if token_is(chars, start, end, "Del") {
        Some(Key::KeyDel)
    } else if token_is(chars, start, end, "Home") {
        Some(Key::KeyHome)
    } else if token_is(chars, start, end, "End") {
        Some(Key::KeyEnd)
    } else if token_is(chars, start, end, "PageUp") {
        Some(Key::KeyPageUp)
    } else if token_is(chars, start, end, "PageDown") {
        Some(Key::KeyPageDown)
    } else {
        None
    }
}

/// Parses a binding such as `<C-a>g`, `gg` or `<Space>x` into the key
/// combination it stands for.
pub fn parse_to_key_combination(key_comb_str: &str) -> (parsed: Result<KeyCombination, ParseError>)
    ensures
        parsed_view(parsed) == parse_binding(key_comb_str@),
{
    let chars = str_chars(key_comb_str);
    let mut keys: Vec<Key> = Vec::new();
    let mut in_group = false;
    let mut start: usize = 0;
    let mut at: usize = 0;
    while at < chars.len()
        invariant
            chars@ == key_comb_str@,
            at <= chars.len(),
            in_group ==> start <= at,
            parse_binding(chars@) == parse_from(
                chars@,
                at as int,
                if in_group {
                    Some(start as int)
                } else {
                    None
                },
                keys@,
            ),
        decreases chars.len() - at,
    {
        let c = chars[at];
        if c == '<' {
            if in_group {
                return Err(ParseError::Syntax);
            }
            in_group = true;
            start = at + 1;
        } else if c == '-' || c == '>' {
            if !in_group {
                return Err(ParseError::Syntax);
            }
            match find_key(&chars, start, at) {
                None => {
                    return Err(ParseError::UnknownKey);
                },
                Some(key) => {
                    keys.push(key);
                },
            }
            if c == '-' {
                start = at + 1;
            } else {
                in_group = false;
            }
        } else if !in_group {
            match letter_to_key(c) {
                Some(key) => {
                    let ghost before = keys@;
                    keys.push(key);
                    assert(keys@ =~= before + seq![key]);
                },
                None => match upper_letter_to_key(c) {
                    Some(key) => {
                        let ghost before = keys@;
                        keys.push(Key::HoldShift);
                        keys.push(key);
                        assert(keys@ =~= before + seq![Key::HoldShift, key]);
                    },
                    None => {
                        return Err(ParseError::UnknownKey);
                    },
                },
            }
        }
        at += 1;
    }
    if in_group {
        Err(ParseError::Syntax)
    } else {
        Ok(keys)
    }
}

/// The name under which `key` is printed.
fn key_token_str(key: Key) -> (name: &'static str)
    ensures
        name@ == key_token(key),
{
    match key {
        Key::KeyA => "a",
        Key::KeyB => "b",
        Key::KeyC => "c",
        Key::KeyD => "d",
        Key::KeyE => "e",
        Key::KeyF => "f",
        Key::KeyG => "g",
        Key::KeyH => "h",
        Key::KeyI => "i",
        Key::KeyJ => "j",
        Key::KeyK => "k",
        Key::KeyL => "l",
        Key::KeyM => "m",
        Key::KeyN => "n",
        Key::KeyO => "o",
        Key::KeyP => "p",
        Key::KeyQ => "q",
        Key::KeyR => "r",
        Key::KeyS => "s",
        Key::KeyT => "t",
        Key::KeyU => "u",
        Key::KeyV => "v",
        Key::KeyW => "w",
        Key::KeyX => "x",
        Key::KeyY => "y",
        Key::KeyZ => "z",
        Key::KeyEnter => "Enter",
        Key::KeyEsc => "Esc",
        Key::KeySpace => "Space",
        Key::KeyBackspace => "BS",
        Key::KeyTab => "Tab",
        Key::KeyUp => "Up",
        Key::KeyDown => "Down",
        Key::KeyLeft => "Left",
        Key::KeyRight => "Right",
        Key::KeyF1 => "F1",
        Key::KeyF2 => "F2",
        Key::KeyF3 => "F3",
        Key::KeyF4 => "F4",
        Key::KeyF5 => "F5",
        Key::KeyF6 => "F6",
        Key::KeyF7 => "F7",
        Key::KeyF8 => "F8",
        Key::KeyF9 => "F9",
        Key::KeyF10 => "F10",
        Key::KeyF11 => "F11",
        Key::KeyF12 => "F12",
        Key::KeyInsert => "Insert",
        Key::KeyDel => "Del",
        Key::KeyHome => "Home",
        Key::KeyEnd => "End",
        Key::KeyPageUp => "PageUp",
        Key::KeyPageDown => "PageDown",
        Key::HoldCtrl => "C",
        Key::HoldShift => "S",
        Key::HoldAlt => "A",
    }
}

/// Prints a key combination in its canonical form: each letter key as its
/// lower-case letter, every other key as its name in angle brackets.
pub fn format_key_combination(keys: &Vec<Key>) -> (text: String)
    ensures
        text@ == print_binding(keys@),
{
    let mut text = String::new();
    let mut i: usize = 0;
    while i < keys.len()
        invariant
            i <= keys.len(),
            text@ == print_binding(keys@.subrange(0, i as int)),
        decreases keys.len() - i,
    {
        let ghost upto = keys@.subrange(0, i + 1);
        assert(upto.drop_last() == keys@.subrange(0, i as int));
        assert(upto.last() == keys@[i as int]);
        let key = keys[i];
        if key_to_code(&key) <= 0x1a {
            text.append(key_token_str(key));
        } else {
            text.append("<");
            text.append(key_token_str(key));
            text.append(">");
        }
        assert(text@ =~= print_binding(upto));
        i += 1;
    }
    assert(keys@.subrange(0, keys.len() as int) == keys@);
    text
}

/// What the names of the keys are made of: a letter key's name is its
/// letter; any other key's name is free of `<`, `>` and `-`, is not a single
/// letter, and stands for that key inside a group.
proof fn lemma_key_token(key: Key)
    ensures
        "<"@ == seq!['<'],
        ">"@ == seq!['>'],
        is_letter_key(key) ==> key_token(key).len() == 1 && letter_key(key_token(key)[0]) == Some(
            key,
        ),
        !is_letter_key(key) ==> token_key(key_token(key)) == Some(key),
        !is_letter_key(key) ==> forall|i: int|
            0 <= i < key_token(key).len() ==> !is_special(#[trigger] key_token(key)[i]),
{
    reveal_strlit("<");
    reveal_strlit(">");
    assert("<"@ =~= seq!['<']);
    assert(">"@ =~= seq!['>']);
    reveal_strlit("a");
    assert("a"@.len() == 1 && "a"@[0] == 'a');
    reveal_strlit("b");
    assert("b"@.len() == 1 && "b"@[0] == 'b');
    reveal_strlit("c");
    assert("c"@.len() == 1 && "c"@[0] == 'c');
    reveal_strlit("d");
    assert("d"@.len() == 1 && "d"@[0] == 'd');
    reveal_strlit("e");
    assert("e"@.len() == 1 && "e"@[0] == 'e');
    reveal_strlit("f");
    assert("f"@.len() == 1 && "f"@[0] == 'f');
    reveal_strlit("g");
    assert("g"@.len() == 1 && "g"@[0] == 'g');
    reveal_strlit("h");
    assert("h"@.len() == 1 && "h"@[0] == 'h');
    reveal_strlit("i");
    assert("i"@.len() == 1 && "i"@[0] == 'i');
    reveal_strlit("j");
    assert("j"@.len() == 1 && "j"@[0] == 'j');
    reveal_strlit("k");
    assert("k"@.len() == 1 && "k"@[0] == 'k');
    reveal_strlit("l");
    assert("l"@.len() == 1 && "l"@[0] == 'l');
    reveal_strlit("m");
    assert("m"@.len() == 1 && "m"@[0] == 'm');
    reveal_strlit("n");
    assert("n"@.len() == 1 && "n"@[0] == 'n');
    reveal_strlit("o");
    assert("o"@.len() == 1 && "o"@[0] == 'o');
    reveal_strlit("p");
    assert("p"@.len() == 1 && "p"@[0] == 'p');
    reveal_strlit("q");
    assert("q"@.len() == 1 && "q"@[0] == 'q');
    reveal_strlit("r");
    assert("r"@.len() == 1 && "r"@[0] == 'r');
    reveal_strlit("s");
    assert("s"@.len() == 1 && "s"@[0] == 's');
    reveal_strlit("t");
    assert("t"@.len() == 1 && "t"@[0] == 't');
    reveal_strlit("u");
    assert("u"@.len() == 1 && "u"@[0] == 'u');
    reveal_strlit("v");
    assert("v"@.len() == 1 && "v"@[0] == 'v');
    reveal_strlit("w");
    assert("w"@.len() == 1 && "w"@[0] == 'w');
    reveal_strlit("x");
    assert("x"@.len() == 1 && "x"@[0] == 'x');
    reveal_strlit("y");
    assert("y"@.len() == 1 && "y"@[0] == 'y');
    reveal_strlit("z");
    assert("z"@.len() == 1 && "z"@[0] == 'z');
    reveal_strlit("C");
    assert("C"@.len() == 1 && "C"@[0] == 'C');
    reveal_strlit("S");
    assert("S"@.len() == 1 && "S"@[0] == 'S');
    reveal_strlit("A");
    assert("A"@.len() == 1 && "A"@[0] == 'A');
    reveal_strlit("M");
    assert("M"@.len() == 1 && "M"@[0] == 'M');
    reveal_strlit("Esc");
    assert("Esc"@.len() == 3 && "Esc"@[0] == 'E' && "Esc"@[1] == 's' && "Esc"@[2] == 'c');
    reveal_strlit("Enter");
    assert("Enter"@.len() == 5 && "Enter"@[0] == 'E' && "Enter"@[1] == 'n' && "Enter"@[2] == 't' && "Enter"@[3] == 'e' && "Enter"@[4] == 'r');
    reveal_strlit("CR");
    assert("CR"@.len() == 2 && "CR"@[0] == 'C' && "CR"@[1] == 'R');
    reveal_strlit("Return");
    assert("Return"@.len() == 6 && "Return"@[0] == 'R' && "Return"@[1] == 'e' && "Return"@[2] == 't' && "Return"@[3] == 'u' && "Return"@[4] == 'r' && "Return"@[5] == 'n');
    reveal_strlit("Space");
    assert("Space"@.len() == 5 && "Space"@[0] == 'S' && "Space"@[1] == 'p' && "Space"@[2] == 'a' && "Space"@[3] == 'c' && "Space"@[4] == 'e');
    reveal_strlit("Tab");
    assert("Tab"@.len() == 3 && "Tab"@[0] == 'T' && "Tab"@[1] == 'a' && "Tab"@[2] == 'b');
    reveal_strlit("BS");
    assert("BS"@.len() == 2 && "BS"@[0] == 'B' && "BS"@[1] == 'S');
    reveal_strlit("Up");
    assert("Up"@.len() == 2 && "Up"@[0] == 'U' && "Up"@[1] == 'p');
    reveal_strlit("Down");
    assert("Down"@.len() == 4 && "Down"@[0] == 'D' && "Down"@[1] == 'o' && "Down"@[2] == 'w' && "Down"@[3] == 'n');
    reveal_strlit("Left");
    assert("Left"@.len() == 4 && "Left"@[0] == 'L' && "Left"@[1] == 'e' && "Left"@[2] == 'f' && "Left"@[3] == 't');
    reveal_strlit("Right");
    assert("Right"@.len() == 5 && "Right"@[0] == 'R' && "Right"@[1] == 'i' && "Right"@[2] == 'g' && "Right"@[3] == 'h' && "Right"@[4] == 't');
    reveal_strlit("F1");
    assert("F1"@.len() == 2 && "F1"@[0] == 'F' && "F1"@[1] == '1');
    reveal_strlit("F2");
    assert("F2"@.len() == 2 && "F2"@[0] == 'F' && "F2"@[1] == '2');
    reveal_strlit("F3");
    assert("F3"@.len() == 2 && "F3"@[0] == 'F' && "F3"@[1] == '3');
    reveal_strlit("F4");
    assert("F4"@.len() == 2 && "F4"@[0] == 'F' && "F4"@[1] == '4');
    reveal_strlit("F5");
    assert("F5"@.len() == 2 && "F5"@[0] == 'F' && "F5"@[1] == '5');
    reveal_strlit("F6");
    assert("F6"@.len() == 2 && "F6"@[0] == 'F' && "F6"@[1] == '6');
    reveal_strlit("F7");
    assert("F7"@.len() == 2 && "F7"@[0] == 'F' && "F7"@[1] == '7');
    reveal_strlit("F8");
    assert("F8"@.len() == 2 && "F8"@[0] == 'F' && "F8"@[1] == '8');
    reveal_strlit("F9");
    assert("F9"@.len() == 2 && "F9"@[0] == 'F' && "F9"@[1] == '9');
    reveal_strlit("F10");
    assert("F10"@.len() == 3 && "F10"@[0] == 'F' && "F10"@[1] == '1' && "F10"@[2] == '0');
    reveal_strlit("F11");
    assert("F11"@.len() == 3 && "F11"@[0] == 'F' && "F11"@[1] == '1' && "F11"@[2] == '1');
    reveal_strlit("F12");
    assert("F12"@.len() == 3 && "F12"@[0] == 'F' && "F12"@[1] == '1' && "F12"@[2] == '2');
    reveal_strlit("Insert");
    assert("Insert"@.len() == 6 && "Insert"@[0] == 'I' && "Insert"@[1] == 'n' && "Insert"@[2] == 's' && "Insert"@[3] == 'e' && "Insert"@[4] == 'r' && "Insert"@[5] == 't');
    reveal_strlit("Del");
    assert("Del"@.len() == 3 && "Del"@[0] == 'D' && "Del"@[1] == 'e' && "Del"@[2] == 'l');
    reveal_strlit("Home");
    assert("Home"@.len() == 4 && "Home"@[0] == 'H' && "Home"@[1] == 'o' && "Home"@[2] == 'm' && "Home"@[3] == 'e');
    reveal_strlit("End");
    assert("End"@.len() == 3 && "End"@[0] == 'E' && "End"@[1] == 'n' && "End"@[2] == 'd');
    reveal_strlit("PageUp");
    assert("PageUp"@.len() == 6 && "PageUp"@[0] == 'P' && "PageUp"@[1] == 'a' && "PageUp"@[2] == 'g' && "PageUp"@[3] == 'e' && "PageUp"@[4] == 'U' && "PageUp"@[5] == 'p');
    reveal_strlit("PageDown");
    assert("PageDown"@.len() == 8 && "PageDown"@[0] == 'P' && "PageDown"@[1] == 'a' && "PageDown"@[2] == 'g' && "PageDown"@[3] == 'e' && "PageDown"@[4] == 'D' && "PageDown"@[5] == 'o' && "PageDown"@[6] == 'w' && "PageDown"@[7] == 'n');
}

/// Inside a group, characters that are not special are passed over.
proof fn lemma_skip_name(s: Seq<char>, at: int, n: int, start: int, keys: Seq<Key>)
    requires
        0 <= at,
        0 <= n,
        at + n <= s.len(),
        forall|j: int| at <= j < at + n ==> !is_special(#[trigger] s[j]),
    ensures
        parse_from(s, at, Some(start), keys) == parse_from(s, at + n, Some(start), keys),
    decreases n,
{
    if n > 0 {
        assert(!is_special(s[at]));
        lemma_skip_name(s, at + 1, n - 1, start, keys);
    }
}

/// Reading the atom of `key` at position `at` adds `key` and nothing else.
proof fn lemma_parse_atom(s: Seq<char>, at: int, key: Key, keys: Seq<Key>)
    requires
        0 <= at,
        at + key_atom(key).len() <= s.len(),
        s.subrange(at, at + key_atom(key).len()) == key_atom(key),
    ensures
        parse_from(s, at, None, keys) == parse_from(
            s,
            at + key_atom(key).len(),
            None,
            keys.push(key),
        ),
{
    lemma_key_token(key);
    let atom = key_atom(key);
    let name = key_token(key);
    assert forall|j: int| 0 <= j < atom.len() implies s[at + j] == atom[j] by {
        assert(s.subrange(at, at + atom.len())[j] == s[at + j]);
    }
    if is_letter_key(key) {
        assert(s[at] == atom[0]);
        assert(letter_key(s[at]) == Some(key));
        assert(keys + seq![key] =~= keys.push(key));
    } else {
        let n = name.len() as int;
        assert(atom.len() == n + 2);
        assert(s[at] == atom[0]);
        assert(s[at] == '<');
        assert forall|j: int| at + 1 <= j < at + 1 + n implies !is_special(#[trigger] s[j]) by {
            assert(s[j] == atom[j - at]);
            assert(atom[j - at] == name[j - at - 1]);
        }
        lemma_skip_name(s, at + 1, n, at + 1, keys);
        assert(s[at + 1 + n] == atom[n + 1]);
        assert(s[at + 1 + n] == '>');
        assert forall|j: int| 0 <= j < n implies s.subrange(at + 1, at + 1 + n)[j] == name[j] by {
            assert(s[at + 1 + j] == atom[j + 1]);
            assert(atom[j + 1] == name[j]);
        }
        assert(s.subrange(at + 1, at + 1 + n) =~= name);
    }
}

/// Parsing a text that begins with the canonical text of `keys` reads
/// exactly `keys` from it and goes on behind it, outside any group.
proof fn lemma_parse_printed_prefix(s: Seq<char>, keys: Seq<Key>)
    requires
        print_binding(keys).len() <= s.len(),
        s.subrange(0, print_binding(keys).len() as int) == print_binding(keys),
    ensures
        parse_binding(s) == parse_from(s, print_binding(keys).len() as int, None, keys),
    decreases keys.len(),
{
    if keys.len() == 0 {
        assert(keys =~= Seq::<Key>::empty());
    } else {
        let init = keys.drop_last();
        let last = keys.last();
        let n = print_binding(init).len() as int;
        let m = key_atom(last).len() as int;
        let whole = print_binding(keys);
        assert(whole == print_binding(init) + key_atom(last));
        assert(s.subrange(0, n) =~= print_binding(init)) by {
            assert forall|j: int| 0 <= j < n implies s.subrange(0, n)[j] == print_binding(init)[j] by {
                assert(s.subrange(0, n + m)[j] == whole[j]);
            }
        }
        assert(s.subrange(n, n + m) =~= key_atom(last)) by {
            assert forall|j: int| 0 <= j < m implies s.subrange(n, n + m)[j] == key_atom(last)[j] by {
                assert(s.subrange(0, n + m)[n + j] == whole[n + j]);
            }
        }
        lemma_parse_printed_prefix(s, init);
        lemma_parse_atom(s, n, last, init);
        assert(init.push(last) =~= keys);
    }
}

/// Printing and parsing round-trip: the canonical text of a key combination
/// parses, and parses to that key combination.
pub proof fn lemma_parse_print(keys: Seq<Key>)
    ensures
        parse_binding(print_binding(keys)) == Ok::<Seq<Key>, ParseError>(keys),
{
    let s = print_binding(keys);
    assert(s.subrange(0, s.len() as int) =~= s);
    lemma_parse_printed_prefix(s, keys);
}

/// Whether a group that is open at position `at` began at or before `at`.
spec fn group_in_range(group: Option<int>, at: int) -> bool {
    match group {
        Some(start) => 0 <= start <= at,
        None => true,
    }
}

/// The keys read so far stand before whatever is read after them.
proof fn lemma_parse_keys_so_far(s: Seq<char>, at: int, group: Option<int>, keys: Seq<Key>)
    requires
        0 <= at,
    ensures
        parse_from(s, at, group, keys) == match parse_from(s, at, group, Seq::<Key>::empty()) {
            Ok(more) => Ok::<Seq<Key>, ParseError>(keys + more),
            Err(e) => Err(e),
        },
    decreases s.len() - at,
{
    let none = Seq::<Key>::empty();
    if at >= s.len() {
        assert(keys + none =~= keys);
    } else if s[at] == '<' {
        if group is None {
            lemma_parse_keys_so_far(s, at + 1, Some(at + 1), keys);
        }
    } else if s[at] == '-' || s[at] == '>' {
        if group is Some {
            match token_key(s.subrange(group->0, at)) {
                None => {},
                Some(key) => {
                    let next = if s[at] == '-' {
                        Some(at + 1)
                    } else {
                        None
                    };
                    lemma_parse_keys_so_far(s, at + 1, next, keys.push(key));
                    lemma_parse_keys_so_far(s, at + 1, next, none.push(key));
                    match parse_from(s, at + 1, next, none) {
                        Ok(more) => {
                            assert(keys.push(key) + more =~= keys + (none.push(key) + more));
                        },
                        Err(e) => {},
                    }
                },
            }
        }
    } else if group is Some {
        lemma_parse_keys_so_far(s, at + 1, group, keys);
    } else {
        match literal_keys(s[at]) {
            None => {},
            Some(found) => {
                lemma_parse_keys_so_far(s, at + 1, None, keys + found);
                lemma_parse_keys_so_far(s, at + 1, None, none + found);
                match parse_from(s, at + 1, None, none) {
                    Ok(more) => {
                        assert((keys + found) + more =~= keys + ((none + found) + more));
                    },
                    Err(e) => {},
                }
            },
        }
    }
}

/// Where a binding parses, what follows it in a longer text does not
/// matter to what is read from it: the longer text is read up to the end
/// of the binding as the binding is, and goes on behind it outside any
/// group.
proof fn lemma_parse_head(a: Seq<char>, b: Seq<char>, at: int, group: Option<int>, keys: Seq<Key>)
    requires
        0 <= at <= a.len(),
        group_in_range(group, at),
        parse_from(a, at, group, keys) is Ok,
    ensures
        parse_from(a + b, at, group, keys) == parse_from(
            a + b,
            a.len() as int,
            None,
            parse_from(a, at, group, keys)->Ok_0,
        ),
    decreases a.len() - at,
{
    let s = a + b;
    if at < a.len() {
        assert(s[at] == a[at]);
        if a[at] == '<' {
            lemma_parse_head(a, b, at + 1, Some(at + 1), keys);
        } else if a[at] == '-' || a[at] == '>' {
            let start = group->0;
            assert(s.subrange(start, at) =~= a.subrange(start, at));
            let key = token_key(a.subrange(start, at))->0;
            let next = if a[at] == '-' {
                Some(at + 1)
            } else {
                None
            };
            lemma_parse_head(a, b, at + 1, next, keys.push(key));
        } else if group is Some {
            lemma_parse_head(a, b, at + 1, group, keys);
        } else {
            lemma_parse_head(a, b, at + 1, None, keys + literal_keys(a[at])->0);
        }
    }
}

/// A text is read behind a binding as it is read alone.
proof fn lemma_parse_tail(a: Seq<char>, b: Seq<char>, at: int, group: Option<int>, keys: Seq<Key>)
    requires
        0 <= at,
        group_in_range(group, at),
    ensures
        parse_from(
            a + b,
            a.len() + at,
            match group {
                Some(start) => Some(a.len() + start),
                None => None,
            },
            keys,
        ) == parse_from(b, at, group, keys),
    decreases b.len() - at,
{
    let s = a + b;
    let n = a.len() as int;
    if at < b.len() {
        assert(s[n + at] == b[at]);
        if b[at] == '<' {
            if group is None {
                lemma_parse_tail(a, b, at + 1, Some(at + 1), keys);
            }
        } else if b[at] == '-' || b[at] == '>' {
            if group is Some {
                let start = group->0;
                assert(s.subrange(n + start, n + at) =~= b.subrange(start, at));
                match token_key(b.subrange(start, at)) {
                    None => {},
                    Some(key) => {
                        let next = if b[at] == '-' {
                            Some(at + 1)
                        } else {
                            None
                        };
                        lemma_parse_tail(a, b, at + 1, next, keys.push(key));
                    },
                }
            }
        } else if group is Some {
            lemma_parse_tail(a, b, at + 1, group, keys);
        } else {
            match literal_keys(b[at]) {
                None => {},
                Some(found) => {
                    lemma_parse_tail(a, b, at + 1, None, keys + found);
                },
            }
        }
    }
}

/// A binding is a run of atoms: two bindings that parse, written one behind
/// the other, parse to the keys of the first followed by the keys of the
/// second.
pub proof fn lemma_parse_concat(a: Seq<char>, b: Seq<char>)
    requires
        parse_binding(a) is Ok,
        parse_binding(b) is Ok,
    ensures
        parse_binding(a + b) == Ok::<Seq<Key>, ParseError>(
            parse_binding(a)->Ok_0 + parse_binding(b)->Ok_0,
        ),
{
    let first = parse_binding(a)->Ok_0;
    lemma_parse_head(a, b, 0, None, Seq::<Key>::empty());
    lemma_parse_tail(a, b, 0, None, first);
    lemma_parse_keys_so_far(b, 0, None, first);
}

/// The canonical form of a binding that parses: the canonical text of the
/// key combination it stands for.
pub open spec fn canonical_binding(s: Seq<char>) -> Seq<char>
    recommends
        parse_binding(s) is Ok,
{
    print_binding(parse_binding(s)->Ok_0)
}

/// For every binding that parses, printing what it parses to gives a
/// binding that stands for the same key combination, and that is its own
/// canonical form.
pub proof fn lemma_canonical_binding(s: Seq<char>)
    requires
        parse_binding(s) is Ok,
    ensures
        parse_binding(canonical_binding(s)) == parse_binding(s),
        canonical_binding(canonical_binding(s)) == canonical_binding(s),
{
    lemma_parse_print(parse_binding(s)->Ok_0);
}

} // verus!
