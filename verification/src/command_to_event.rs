//! The command dispatcher: from the text of a command to what the
//! application does.

use crate::app::App;
use crate::app::AppView;
use crate::command_palette::AppRes;
use crate::commands::command_from_name;
use crate::commands::command_name;
use crate::commands::command_of;
use crate::commands::lemma_command_names;
use crate::commands::Command;
use crate::text::str_chars;
use vstd::prelude::*;
use vstd::string::StrSliceExecFns;

verus! {

/// Why a command is not carried out.
#[derive(Clone, Copy, Debug, PartialEq, Eq, Hash, Structural)]
pub enum DispatchError {
    /// The command needs a number and has none, or has one that is no
    /// number or too large a one.
    BadArgument,
}

/// The position of the first space of `s` at or behind `from`, or the
/// length of `s` where there is none.
pub open spec fn first_space(s: Seq<char>, from: int) -> int
    decreases s.len() - from,
{
    if from >= s.len() {
        s.len() as int
    } else if s[from] == ' ' {
        from
    } else {
        first_space(s, from + 1)
    }
}

/// The verb of a command: what stands before its first space.
pub open spec fn verb_of(cmd: Seq<char>) -> Seq<char> {
    cmd.subrange(0, first_space(cmd, 0))
}

/// The argument of a command: what stands between its first space and its
/// second. A command without a space has none.
pub open spec fn argument_of(cmd: Seq<char>) -> Option<Seq<char>> {
    let end = first_space(cmd, 0);
    if end >= cmd.len() {
        None
    } else {
        Some(cmd.subrange(end + 1, first_space(cmd, end + 1)))
    }
}

/// The value of a decimal digit.
pub open spec fn digit_value(ch: char) -> Option<nat> {
    if ch == '0' {
        Some(0)
    } else if ch == '1' {
        Some(1)
    } else if ch == '2' {
        Some(2)
    } else if ch == '3' {
        Some(3)
    } else if ch == '4' {
        Some(4)
    } else if ch == '5' {
        Some(5)
    } else if ch == '6' {
        Some(6)
    } else if ch == '7' {
        Some(7)
    } else if ch == '8' {
        Some(8)
    } else if ch == '9' {
        Some(9)
    } else {
        None
    }
}

/// The number that decimal digits write; nothing where a character is no
/// digit. No digits write zero.
pub open spec fn digits_value(s: Seq<char>) -> Option<nat>
    decreases s.len(),
{
    if s.len() == 0 {
        Some(0)
    } else {
        match (digits_value(s.drop_last()), digit_value(s.last())) {
            (Some(v), Some(d)) => Some(v * 10 + d),
            _ => None,
        }
    }
}

/// The digits of an unsigned number: the text without the `+` that may
/// stand before it.
pub open spec fn unsigned_digits(s: Seq<char>) -> Seq<char> {
    if s.len() > 0 && s[0] == '+' {
        s.subrange(1, s.len() as int)
    } else {
        s
    }
}

/// The unsigned number that a text writes: one decimal digit or more, with
/// or without a `+` before them, of a value that a `usize` holds.
pub open spec fn usize_of(s: Seq<char>) -> Option<usize> {
    let digits = unsigned_digits(s);
    if digits.len() == 0 {
        None
    } else {
        match digits_value(digits) {
            Some(v) => if v <= usize::MAX {
                Some(v as usize)
            } else {
                None
            },
            None => None,
        }
    }
}

/// What a command does to the application, and what it answers: `app_quit`
/// answers that the application is to end; `scroll_up`, `scroll_down`,
/// `next_page`, `prev_page` and `switch_page` with its number do what they
/// say and render; a verb that is no command does nothing.
pub open spec fn dispatched(app: AppView, cmd: Seq<char>) -> (
    AppView,
    Result<Option<AppRes>, DispatchError>,
) {
    match command_of(verb_of(cmd)) {
        Some(Command::AppQuit) => (app, Ok(Some(AppRes::AppQuit))),
        Some(Command::ScrollUp) => (app.scrolled_up().rendered(), Ok(None)),
        Some(Command::ScrollDown) => (app.scrolled_down().rendered(), Ok(None)),
        Some(Command::SwitchPage) => match argument_of(cmd) {
            None => (app, Err(DispatchError::BadArgument)),
            Some(arg) => match usize_of(arg) {
                None => (app, Err(DispatchError::BadArgument)),
                Some(n) => (app.with_foc_page(n).rendered(), Ok(None)),
            },
        },
        Some(Command::NextPage) => (app.next_page().rendered(), Ok(None)),
        Some(Command::PrevPage) => (app.prev_page().rendered(), Ok(None)),
        None => (app, Ok(None)),
    }
}

/// The position of the first space of `chars` at or behind `from`.
fn find_space(chars: &Vec<char>, from: usize) -> (at: usize)
    requires
        from <= chars.len(),
    ensures
        at == first_space(chars@, from as int),
        from <= at <= chars.len(),
{
    let mut at: usize = from;
    while at < chars.len() && chars[at] != ' '
        invariant
            from <= at <= chars.len(),
            first_space(chars@, from as int) == first_space(chars@, at as int),
        decreases chars.len() - at,
    {
        at += 1;
    }
    at
}

fn digit_of(ch: char) -> (value: Option<usize>)
    ensures
        value is Some <==> digit_value(ch) is Some,
        value is Some ==> value->0 == digit_value(ch)->0 && value->0 <= 9,
{
    if ch == '0' {
        Some(0)
    } else if ch == '1' {
        Some(1)
    } else if ch == '2' {
        Some(2)
    } else if ch == '3' {
        Some(3)
    } else if ch == '4' {
        Some(4)
    } else if ch == '5' {
        Some(5)
    } else if ch == '6' {
        Some(6)
    } else if ch == '7' {
        Some(7)
    } else if ch == '8' {
        Some(8)
    } else if ch == '9' {
        Some(9)
    } else {
        None
    }
}

/// Digits that write too large a number go on to write too large a number,
/// and a character that is no digit spoils all that follows.
proof fn lemma_digits_grow(s: Seq<char>, n: int)
    requires
        0 <= n <= s.len(),
    ensures
        digits_value(s.subrange(0, n)) is None ==> digits_value(s) is None,
        digits_value(s) is Some ==> digits_value(s.subrange(0, n))->0 <= digits_value(s)->0,
    decreases s.len() - n,
{
    if n == s.len() {
        assert(s.subrange(0, n) =~= s);
    } else {
        let upto = s.subrange(0, n + 1);
        assert(upto.drop_last() =~= s.subrange(0, n));
        lemma_digits_grow(s, n + 1);
    }
}

/// The unsigned number that the characters of `chars` from `start` up to
/// `end` write.
fn parse_usize(chars: &Vec<char>, start: usize, end: usize) -> (value: Option<usize>)
    requires
        start <= end <= chars.len(),
    ensures
        value == usize_of(chars@.subrange(start as int, end as int)),
{
    let ghost text = chars@.subrange(start as int, end as int);
    let from: usize = if start < end && chars[start] == '+' {
        start + 1
    } else {
        start
    };
    let ghost digits = chars@.subrange(from as int, end as int);
    assert(digits =~= unsigned_digits(text));
    if from == end {
        return None;
    }
    let mut value: usize = 0;
    let mut at: usize = from;
    assert(digits.subrange(0, 0) =~= Seq::<char>::empty());
    while at < end
        invariant
            start <= from <= at <= end <= chars.len(),
            from < end,
            digits == chars@.subrange(from as int, end as int),
            digits == unsigned_digits(chars@.subrange(start as int, end as int)),
            digits_value(digits.subrange(0, at - from)) == Some(value as nat),
        decreases end - at,
    {
        let ghost upto = digits.subrange(0, at - from + 1);
        assert(upto.drop_last() =~= digits.subrange(0, at - from));
        assert(upto.last() == chars@[at as int]);
        match digit_of(chars[at]) {
            None => {
                proof {
                    lemma_digits_grow(digits, at - from + 1);
                }
                return None;
            },
            Some(d) => {
                if value > (usize::MAX - d) / 10 {
                    proof {
                        lemma_digits_grow(digits, at - from + 1);
                    }
                    return None;
                }
                value = value * 10 + d;
            },
        }
        at += 1;
    }
    assert(digits.subrange(0, end - from) =~= digits);
    Some(value)
}

/// Carries out the command `cmd`.
pub fn exec_cmd(app: &mut App, cmd: &str) -> (res: Result<Option<AppRes>, DispatchError>)
    requires
        old(app)@.wf(),
    ensures
        (final(app)@, res) == dispatched(old(app)@, cmd@),
        final(app)@.wf(),
{
    let chars = str_chars(cmd);
    let verb_end = find_space(&chars, 0);
    let verb = cmd.substring_char(0, verb_end);
    match command_from_name(verb) {
        Some(Command::AppQuit) => Ok(Some(AppRes::AppQuit)),
        Some(Command::ScrollDown) => {
            app.scroll_down();
            let _ = app.render();
            Ok(None)
        },
        Some(Command::ScrollUp) => {
            app.scroll_up();
            let _ = app.render();
            Ok(None)
        },
        Some(Command::SwitchPage) => {
            if verb_end >= chars.len() {
                return Err(DispatchError::BadArgument);
            }
            let arg_end = find_space(&chars, verb_end + 1);
            match parse_usize(&chars, verb_end + 1, arg_end) {
                None => Err(DispatchError::BadArgument),
                Some(n) => {
                    app.set_foc_page(n);
                    let _ = app.render();
                    Ok(None)
                },
            }
        },
        Some(Command::NextPage) => {
            app.switch_next_page();
            let _ = app.render();
            Ok(None)
        },
        Some(Command::PrevPage) => {
            app.switch_prev_page();
            let _ = app.render();
            Ok(None)
        },
        None => Ok(None),
    }
}

/// A text without a space behind `from` has its first space at its end.
proof fn lemma_no_space(s: Seq<char>, from: int)
    requires
        0 <= from <= s.len(),
        forall|i: int| from <= i < s.len() ==> #[trigger] s[i] != ' ',
    ensures
        first_space(s, from) == s.len(),
    decreases s.len() - from,
{
    if from < s.len() {
        lemma_no_space(s, from + 1);
    }
}

/// The name of a command, given as a command, carries that command out:
/// the name of `app_quit` answers that the application is to end, the names
/// of the scrolling and paging commands do what they say and render, and
/// the name of `switch_page`, which lacks its number, is refused.
pub proof fn lemma_dispatch_by_name(app: AppView, command: Command)
    ensures
        dispatched(app, command_name(command)) == match command {
            Command::AppQuit => (app, Ok::<Option<AppRes>, DispatchError>(Some(AppRes::AppQuit))),
            Command::ScrollUp => (app.scrolled_up().rendered(), Ok(None)),
            Command::ScrollDown => (app.scrolled_down().rendered(), Ok(None)),
            Command::SwitchPage => (app, Err(DispatchError::BadArgument)),
            Command::NextPage => (app.next_page().rendered(), Ok(None)),
            Command::PrevPage => (app.prev_page().rendered(), Ok(None)),
        },
{
    let name = command_name(command);
    lemma_command_names(command);
    lemma_no_space(name, 0);
    assert(verb_of(name) =~= name);
}

} // verus!
