//! The commands that a binding or the command palette can name.

use crate::text::str_eq;
use vstd::prelude::*;

verus! {

/// A command of the application.
#[derive(Clone, Copy, Debug, PartialEq, Eq, Hash, Structural)]
pub enum Command {
    AppQuit,
    ScrollUp,
    ScrollDown,
    SwitchPage,
    NextPage,
    PrevPage,
}

/// How many commands there are.
pub const COMMAND_COUNT: usize = 6;

/// The name of a command, as bindings and the palette spell it.
pub open spec fn command_name(command: Command) -> Seq<char> {
    match command {
        Command::AppQuit => "app_quit"@,
        Command::ScrollUp => "scroll_up"@,
        Command::ScrollDown => "scroll_down"@,
        Command::SwitchPage => "switch_page"@,
        Command::NextPage => "next_page"@,
        Command::PrevPage => "prev_page"@,
    }
}

/// The command that a name spells.
pub open spec fn command_of(name: Seq<char>) -> Option<Command> {
    if name == "app_quit"@ {
        Some(Command::AppQuit)
    } else if name == "scroll_up"@ {
        Some(Command::ScrollUp)
    } else if name == "scroll_down"@ {
        Some(Command::ScrollDown)
    } else if name == "switch_page"@ {
        Some(Command::SwitchPage)
    } else if name == "next_page"@ {
        Some(Command::NextPage)
    } else if name == "prev_page"@ {
        Some(Command::PrevPage)
    } else {
        None
    }
}

/// The commands in their order: the one at position `n`.
pub open spec fn command_at(n: int) -> Command {
    if n == 0 {
        Command::AppQuit
    } else if n == 1 {
        Command::ScrollUp
    } else if n == 2 {
        Command::ScrollDown
    } else if n == 3 {
        Command::SwitchPage
    } else if n == 4 {
        Command::NextPage
    } else {
        Command::PrevPage
    }
}

/// The binding that a command has where the user gives it none.
pub open spec fn default_binding(command: Command) -> Option<Seq<char>> {
    match command {
        Command::AppQuit => Some("zz"@),
        _ => None,
    }
}

/// The name of `command`.
pub fn command_name_str(command: Command) -> (name: &'static str)
    ensures
        name@ == command_name(command),
{
    match command {
        Command::AppQuit => "app_quit",
        Command::ScrollUp => "scroll_up",
        Command::ScrollDown => "scroll_down",
        Command::SwitchPage => "switch_page",
        Command::NextPage => "next_page",
        Command::PrevPage => "prev_page",
    }
}

/// The command that `name` spells, if it spells one.
pub fn command_from_name(name: &str) -> (command: Option<Command>)
    ensures
        command == command_of(name@),
{
    if str_eq(name, "app_quit") {
        Some(Command::AppQuit)
    } else if str_eq(name, "scroll_up") {
        Some(Command::ScrollUp)
    } else if str_eq(name, "scroll_down") {
        Some(Command::ScrollDown)
    } else if str_eq(name, "switch_page") {
        Some(Command::SwitchPage)
    } else if str_eq(name, "next_page") {
        Some(Command::NextPage)
    } else if str_eq(name, "prev_page") {
        Some(Command::PrevPage)
    } else {
        None
    }
}

/// The command at position `n` of their order.
pub fn nth_command(n: usize) -> (command: Command)
    requires
        n < COMMAND_COUNT,
    ensures
        command == command_at(n as int),
{
    if n == 0 {
        Command::AppQuit
    } else if n == 1 {
        Command::ScrollUp
    } else if n == 2 {
        Command::ScrollDown
    } else if n == 3 {
        Command::SwitchPage
    } else if n == 4 {
        Command::NextPage
    } else {
        Command::PrevPage
    }
}

/// The binding that `command` has where the user gives it none.
pub fn default_binding_str(command: Command) -> (binding: Option<&'static str>)
    ensures
        binding is Some <==> default_binding(command) is Some,
        binding is Some ==> binding->0@ == default_binding(command)->0,
{
    match command {
        Command::AppQuit => Some("zz"),
        _ => None,
    }
}

/// Every command is found again under its name, and no name holds a space.
pub proof fn lemma_command_names(command: Command)
    ensures
        command_of(command_name(command)) == Some(command),
        forall|i: int|
            0 <= i < command_name(command).len() ==> #[trigger] command_name(command)[i] != ' ',
{
    reveal_strlit("app_quit");
    assert("app_quit"@.len() == 8 && "app_quit"@[0] == 'a' && "app_quit"@[1] == 'p' && "app_quit"@[2] == 'p' && "app_quit"@[3] == '_' && "app_quit"@[4] == 'q' && "app_quit"@[5] == 'u' && "app_quit"@[6] == 'i' && "app_quit"@[7] == 't');
    reveal_strlit("scroll_up");
    assert("scroll_up"@.len() == 9 && "scroll_up"@[0] == 's' && "scroll_up"@[1] == 'c' && "scroll_up"@[2] == 'r' && "scroll_up"@[3] == 'o' && "scroll_up"@[4] == 'l' && "scroll_up"@[5] == 'l' && "scroll_up"@[6] == '_' && "scroll_up"@[7] == 'u' && "scroll_up"@[8] == 'p');
    reveal_strlit("scroll_down");
    assert("scroll_down"@.len() == 11 && "scroll_down"@[0] == 's' && "scroll_down"@[1] == 'c' && "scroll_down"@[2] == 'r' && "scroll_down"@[3] == 'o' && "scroll_down"@[4] == 'l' && "scroll_down"@[5] == 'l' && "scroll_down"@[6] == '_' && "scroll_down"@[7] == 'd' && "scroll_down"@[8] == 'o' && "scroll_down"@[9] == 'w' && "scroll_down"@[10] == 'n');
    reveal_strlit("switch_page");
    assert("switch_page"@.len() == 11 && "switch_page"@[0] == 's' && "switch_page"@[1] == 'w' && "switch_page"@[2] == 'i' && "switch_page"@[3] == 't' && "switch_page"@[4] == 'c' && "switch_page"@[5] == 'h' && "switch_page"@[6] == '_' && "switch_page"@[7] == 'p' && "switch_page"@[8] == 'a' && "switch_page"@[9] == 'g' && "switch_page"@[10] == 'e');
    reveal_strlit("next_page");
    assert("next_page"@.len() == 9 && "next_page"@[0] == 'n' && "next_page"@[1] == 'e' && "next_page"@[2] == 'x' && "next_page"@[3] == 't' && "next_page"@[4] == '_' && "next_page"@[5] == 'p' && "next_page"@[6] == 'a' && "next_page"@[7] == 'g' && "next_page"@[8] == 'e');
    reveal_strlit("prev_page");
    assert("prev_page"@.len() == 9 && "prev_page"@[0] == 'p' && "prev_page"@[1] == 'r' && "prev_page"@[2] == 'e' && "prev_page"@[3] == 'v' && "prev_page"@[4] == '_' && "prev_page"@[5] == 'p' && "prev_page"@[6] == 'a' && "prev_page"@[7] == 'g' && "prev_page"@[8] == 'e');
}

} // verus!
