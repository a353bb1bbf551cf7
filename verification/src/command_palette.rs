//! The command palette: one editable line in the bottom row. The terminal
//! edits the line; what follows from each edit is decided here.

use crate::input::NamedKey;
use crate::input::Received;
use crate::prefs::TuiPrefs;
use crate::surface::Channels;
use crate::surface::Surface;
use vstd::prelude::*;
use vstd::string::StrSliceExecFns;

verus! {

/// What the application tells the loop that feeds it keystrokes.
#[derive(Clone, Copy, Debug, PartialEq, Eq, Hash, Structural)]
pub enum AppRes {
    /// The application is to end.
    AppQuit,
    /// The palette stays open.
    CmdModeCont,
    /// The palette closes.
    CmdModeQuit,
}

/// What the terminal reports after a keystroke was offered to the editable
/// line of the palette.
#[derive(Clone, Debug, PartialEq, Eq)]
pub struct ReaderReply {
    /// Whether the line took the keystroke.
    pub accepted: bool,
    /// The line after the keystroke.
    pub contents: String,
    /// The row of the cursor within the palette.
    pub cursor_y: u32,
    /// The column of the cursor within the palette.
    pub cursor_x: u32,
}

/// The mathematical form of a `ReaderReply`.
pub struct ReaderReplyView {
    pub accepted: bool,
    pub contents: Seq<char>,
    pub cursor_y: u32,
    pub cursor_x: u32,
}

impl View for ReaderReply {
    type V = ReaderReplyView;

    open spec fn view(&self) -> ReaderReplyView {
        ReaderReplyView {
            accepted: self.accepted,
            contents: self.contents@,
            cursor_y: self.cursor_y,
            cursor_x: self.cursor_x,
        }
    }
}

/// The command palette: its surface, the switches of its editable line, and
/// whether that line is still open.
#[derive(Clone, Copy, Debug, PartialEq, Eq, Hash, Structural)]
pub struct CmdPalette {
    /// The surface of the palette.
    pub plane: Surface,
    /// Whether the line shows a cursor.
    pub cursor: bool,
    /// Whether the line scrolls sideways once it is full.
    pub horscroll: bool,
    /// Whether the line is open: it is from `new` until `destroy_reader`.
    pub reader_open: bool,
}

/// Whether a keystroke is one that the palette is offered: a character,
/// Left, Right, Enter or Backspace.
pub open spec fn palette_takes(received: Received) -> bool {
    match received {
        Received::Char(_) => true,
        Received::Event(NamedKey::Left) => true,
        Received::Event(NamedKey::Right) => true,
        Received::Event(NamedKey::Enter) => true,
        Received::Event(NamedKey::Backspace) => true,
        _ => false,
    }
}

/// Whether the line of the palette has become empty: it holds one character
/// at most and the cursor is back in the first cell.
pub open spec fn line_emptied(reply: ReaderReplyView) -> bool {
    reply.contents.len() <= 1 && reply.cursor_y == 0 && reply.cursor_x == 0
}

/// What follows from a keystroke offered to the palette: the palette closes
/// where the line refused the keystroke or has become empty, and stays open
/// otherwise.
pub open spec fn palette_result(reply: ReaderReplyView) -> AppRes {
    if !reply.accepted || line_emptied(reply) {
        AppRes::CmdModeQuit
    } else {
        AppRes::CmdModeCont
    }
}

/// The palette that `CmdPalette::new` makes: at `(x, y)`, in the colours
/// that the theme gives the palette, its line open, with a cursor, and
/// scrolling sideways.
pub open spec fn fresh_palette(prefs: TuiPrefs, x: i32, y: i32, dim_x: u32, dim_y: u32) -> CmdPalette {
    CmdPalette {
        plane: Surface {
            x: x as i64,
            y: y as i64,
            dim_x,
            dim_y,
            channels: Some(Channels { fg: prefs.theme.cmd_plt_fg, bg: prefs.theme.cmd_plt_bg }),
            bold: false,
        },
        cursor: true,
        horscroll: true,
        reader_open: true,
    }
}

/// Whether a keystroke is one that the palette is offered.
pub fn cmd_plt_val_input(received: &Received) -> (valid: bool)
    ensures
        valid == palette_takes(*received),
{
    match received {
        Received::Char(_) => true,
        Received::Event(NamedKey::Left) => true,
        Received::Event(NamedKey::Right) => true,
        Received::Event(NamedKey::Enter) => true,
        Received::Event(NamedKey::Backspace) => true,
        _ => false,
    }
}

impl CmdPalette {
    /// The palette at `(x, y)` of its parent.
    pub fn new(tui_prefs: &TuiPrefs, x: i32, y: i32, dim_x: u32, dim_y: u32) -> (made: CmdPalette)
        ensures
            made == fresh_palette(*tui_prefs, x, y, dim_x, dim_y),
    {
        CmdPalette {
            plane: Surface::painted(
                x as i64,
                y as i64,
                dim_x,
                dim_y,
                tui_prefs.theme.cmd_plt_fg,
                tui_prefs.theme.cmd_plt_bg,
                false,
            ),
            cursor: true,
            horscroll: true,
            reader_open: true,
        }
    }

    /// What follows from a keystroke that was offered to the line, given
    /// what the terminal reports of it.
    pub fn input(&self, reply: &ReaderReply) -> (res: AppRes)
        ensures
            res == palette_result(reply@),
    {
        if !reply.accepted {
            return AppRes::CmdModeQuit;
        }
        if reply.contents.as_str().unicode_len() <= 1 && reply.cursor_y == 0 && reply.cursor_x
            == 0 {
            AppRes::CmdModeQuit
        } else {
            AppRes::CmdModeCont
        }
    }

    /// Closes the line. It has to be closed before the surfaces are taken
    /// down.
    pub fn destroy_reader(&mut self)
        ensures
            *final(self) == (CmdPalette { reader_open: false, ..*old(self) }),
    {
        self.reader_open = false;
    }
}

} // verus!
