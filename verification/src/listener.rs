//! The modal state machine that takes one keystroke at a time: in normal
//! mode keystrokes grow a buffer that is resolved against the key bindings,
//! in command mode they edit the line of the command palette.

use crate::app::command_text;
use crate::app::App;
use crate::app::AppView;
use crate::command_palette::cmd_plt_val_input;
use crate::command_palette::palette_result;
use crate::command_palette::palette_takes;
use crate::command_palette::AppRes;
use crate::command_palette::ReaderReply;
use crate::command_palette::ReaderReplyView;
use crate::command_to_event::dispatched;
use crate::command_to_event::exec_cmd;
use crate::command_to_event::DispatchError;
use crate::input::gen_key;
use crate::input::keystroke_keys;
use crate::input::InputDetails;
use crate::input::NamedKey;
use crate::input::Received;
use crate::keys::Key;
use crate::keys::KeyCombination;
use crate::trie::lookup_spec;
use crate::trie::KeyBindingsTrie;
use crate::trie::Lookup;
use crate::trie::Match;
use vstd::prelude::*;

verus! {

/// What the terminal has to do with the line of the command palette for a
/// keystroke, before the keystroke is handled.
#[derive(Clone, Copy, Debug, PartialEq, Eq, Hash, Structural)]
pub enum PaletteRequest {
    /// Nothing.
    Nothing,
    /// Put `:` in the line.
    Open,
    /// Offer the keystroke to the line, and report what became of it.
    Offer,
    /// Clear the line.
    Clear,
    /// Report what the line holds, then clear it.
    Take,
}

/// What the terminal has to do with the line of the palette for a keystroke.
pub open spec fn requested(cmd_mode: bool, received: Received) -> PaletteRequest {
    if cmd_mode {
        match received {
            Received::Event(NamedKey::Enter) => PaletteRequest::Take,
            Received::Event(NamedKey::Esc) => PaletteRequest::Clear,
            _ => if palette_takes(received) {
                PaletteRequest::Offer
            } else {
                PaletteRequest::Nothing
            },
        }
    } else if received == Received::Char(':') {
        PaletteRequest::Open
    } else {
        PaletteRequest::Nothing
    }
}

/// What the terminal has to do with the line of the palette for a keystroke.
pub fn palette_request(cmd_mode: bool, received: &Received) -> (request: PaletteRequest)
    ensures
        request == requested(cmd_mode, *received),
{
    if cmd_mode {
        match received {
            Received::Event(NamedKey::Enter) => PaletteRequest::Take,
            Received::Event(NamedKey::Esc) => PaletteRequest::Clear,
            _ => if cmd_plt_val_input(received) {
                PaletteRequest::Offer
            } else {
                PaletteRequest::Nothing
            },
        }
    } else {
        match received {
            Received::Char(ch) => if *ch == ':' {
                PaletteRequest::Open
            } else {
                PaletteRequest::Nothing
            },
            _ => PaletteRequest::Nothing,
        }
    }
}

/// The state after a keystroke, and whether the loop goes on.
pub struct Handled {
    /// The application.
    pub app: AppView,
    /// The keys that wait to become a binding.
    pub buffer: Seq<Key>,
    /// Whether keystrokes go to the command palette.
    pub cmd_mode: bool,
    /// Whether the loop goes on: it does until a command ends the application.
    pub proceed: bool,
}

/// Whether the dispatcher answered that the application is to end.
pub open spec fn quits(res: Result<Option<AppRes>, DispatchError>) -> bool {
    res == Ok::<Option<AppRes>, DispatchError>(Some(AppRes::AppQuit))
}

/// What a keystroke does in command mode. Enter carries out the command of
/// the line and Esc drops it; both lead back to normal mode. A keystroke
/// that the palette takes edits the line, and leads back to normal mode
/// where the line refuses it or becomes empty. Any other keystroke is
/// passed over.
pub open spec fn handled_in_cmd_mode(
    app: AppView,
    buffer: Seq<Key>,
    received: Received,
    reply: ReaderReplyView,
) -> Handled {
    match received {
        Received::Event(NamedKey::Enter) => {
            let done = dispatched(app.rendered(), command_text(reply.contents));
            Handled { app: done.0, buffer, cmd_mode: false, proceed: !quits(done.1) }
        },
        Received::Event(NamedKey::Esc) => Handled {
            app: app.rendered(),
            buffer,
            cmd_mode: false,
            proceed: true,
        },
        _ => if palette_takes(received) {
            Handled {
                app: app.rendered(),
                buffer,
                cmd_mode: palette_result(reply) == AppRes::CmdModeCont,
                proceed: true,
            }
        } else {
            Handled { app, buffer, cmd_mode: true, proceed: true }
        },
    }
}

/// What the keys of a keystroke do in normal mode: they join the buffer.
/// A buffer that begins no binding is emptied. A buffer that is a binding
/// has its command carried out, and is emptied unless that command ends
/// the application. A buffer that is the beginning of a binding waits.
pub open spec fn handled_keys(
    app: AppView,
    buffer: Seq<Key>,
    keys: Seq<Key>,
    bindings: Map<Seq<Key>, Seq<char>>,
) -> Handled {
    let grown = buffer + keys;
    match lookup_spec(bindings, grown) {
        Match::NoMatch => Handled { app, buffer: Seq::empty(), cmd_mode: false, proceed: true },
        Match::Interior => Handled { app, buffer: grown, cmd_mode: false, proceed: true },
        Match::Command(name) => {
            let done = dispatched(app, name);
            if quits(done.1) {
                Handled { app: done.0, buffer: grown, cmd_mode: false, proceed: false }
            } else {
                Handled { app: done.0, buffer: Seq::empty(), cmd_mode: false, proceed: true }
            }
        },
    }
}

/// What a keystroke does. In normal mode `:` opens the command palette and
/// empties the buffer; a keystroke that stands for no key is passed over.
pub open spec fn handled(
    app: AppView,
    buffer: Seq<Key>,
    cmd_mode: bool,
    received: Received,
    details: InputDetails,
    bindings: Map<Seq<Key>, Seq<char>>,
    reply: ReaderReplyView,
) -> Handled {
    if cmd_mode {
        handled_in_cmd_mode(app, buffer, received, reply)
    } else if received == Received::Char(':') {
        Handled { app: app.rendered(), buffer: Seq::empty(), cmd_mode: true, proceed: true }
    } else {
        match keystroke_keys(received, details) {
            None => Handled { app, buffer, cmd_mode: false, proceed: true },
            Some(keys) => handled_keys(app, buffer, keys, bindings),
        }
    }
}

/// Whether `received` is the character `:`.
fn is_colon(received: &Received) -> (colon: bool)
    ensures
        colon == (*received == Received::Char(':')),
{
    match received {
        Received::Char(ch) => *ch == ':',
        _ => false,
    }
}

/// Whether the dispatcher answered that the application is to end.
fn is_quit(res: &Result<Option<AppRes>, DispatchError>) -> (quit: bool)
    ensures
        quit == quits(*res),
{
    match res {
        Ok(Some(AppRes::AppQuit)) => true,
        _ => false,
    }
}

/// Handles one keystroke. `reply` is what the terminal reports of the line
/// of the palette after it did what `palette_request` asks for this
/// keystroke. Returns whether the loop goes on.
pub fn handle_input(
    app: &mut App,
    buffer: &mut KeyCombination,
    cmd_mode: &mut bool,
    recorded_input: &Received,
    input_details: &InputDetails,
    kbt: &KeyBindingsTrie,
    reply: &ReaderReply,
) -> (proceed: bool)
    requires
        old(app)@.wf(),
    ensures
        final(app)@.wf(),
        (Handled {
            app: final(app)@,
            buffer: final(buffer)@,
            cmd_mode: *final(cmd_mode),
            proceed,
        }) == handled(
            old(app)@,
            old(buffer)@,
            *old(cmd_mode),
            *recorded_input,
            *input_details,
            kbt@,
            reply@,
        ),
{
    if *cmd_mode {
        match recorded_input {
            Received::Event(NamedKey::Enter) => {
                *cmd_mode = false;
                let res = app.exec_cmd(reply.contents.as_str());
                !is_quit(&res)
            },
            Received::Event(NamedKey::Esc) => {
                *cmd_mode = false;
                let _ = app.exit_cmd();
                true
            },
            _ => {
                if cmd_plt_val_input(recorded_input) {
                    match app.input_cmd_plt(reply) {
                        AppRes::CmdModeCont => {},
                        _ => {
                            *cmd_mode = false;
                        },
                    }
                }
                true
            },
        }
    } else if is_colon(recorded_input) {
        *cmd_mode = true;
        let _ = app.enter_cmd();
        buffer.clear();
        true
    } else {
        match gen_key(recorded_input, input_details) {
            None => true,
            Some(mut keys) => {
                let ghost grown = buffer@ + keys@;
                buffer.append(&mut keys);
                assert(buffer@ == grown);
                match kbt.lookup(buffer) {
                    Lookup::NoMatch => {
                        buffer.clear();
                        true
                    },
                    Lookup::Interior => true,
                    Lookup::Command(name) => {
                        let res = exec_cmd(app, name.as_str());
                        if is_quit(&res) {
                            false
                        } else {
                            buffer.clear();
                            true
                        }
                    },
                }
            },
        }
    }
}

/// `:` in normal mode leads to command mode and has the terminal put `:`
/// in the line of the palette; Esc in command mode leads back to normal
/// mode and has the terminal clear the line.
pub proof fn lemma_cmd_mode_enter_exit(
    app: AppView,
    buffer: Seq<Key>,
    details: InputDetails,
    bindings: Map<Seq<Key>, Seq<char>>,
    reply: ReaderReplyView,
)
    ensures
        requested(false, Received::Char(':')) == PaletteRequest::Open,
        handled(app, buffer, false, Received::Char(':'), details, bindings, reply).cmd_mode,
        requested(true, Received::Event(NamedKey::Esc)) == PaletteRequest::Clear,
        !handled(
            app,
            buffer,
            true,
            Received::Event(NamedKey::Esc),
            details,
            bindings,
            reply,
        ).cmd_mode,
        requested(true, Received::Event(NamedKey::Enter)) == PaletteRequest::Take,
        !handled(
            app,
            buffer,
            true,
            Received::Event(NamedKey::Enter),
            details,
            bindings,
            reply,
        ).cmd_mode,
{
}

} // verus!
