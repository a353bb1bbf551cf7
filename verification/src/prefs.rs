//! The preferences of the interface: the colours of the theme, as the
//! configuration writes them and as the interface uses them.

use crate::text::str_chars;
use vstd::prelude::*;

verus! {

/// The theme as the configuration writes it: each colour a string `#RRGGBB`.
#[derive(Clone, Debug, PartialEq, Eq)]
pub struct ThemeDes {
    pub highlight_fg: String,
    pub highlight_bg: String,
    pub page_bar_fg: String,
    pub page_bar_bg: String,
    pub page_bar_current_bg: String,
    pub post_header_fg: String,
    pub post_header_bg: String,
    pub post_upvoted_fg: String,
    pub post_upvoted_bg: String,
    pub post_heading_fg: String,
    pub post_heading_bg: String,
    pub post_body_fg: String,
    pub post_body_bg: String,
    pub cmd_plt_fg: String,
    pub cmd_plt_bg: String,
}

/// The interface switches as the configuration writes them.
#[derive(Clone, Copy, Debug, PartialEq, Eq, Structural)]
pub struct InterfaceDes {
    pub mouse_events_enable: bool,
}

/// The preferences of the interface as the configuration writes them.
#[derive(Clone, Debug, PartialEq, Eq)]
pub struct TuiPrefsDes {
    pub interface: InterfaceDes,
    pub theme: ThemeDes,
}

/// The configuration: the key bindings, each the name of a command and the
/// text of its binding, and the preferences of the interface.
#[derive(Clone, Debug, PartialEq, Eq)]
pub struct Config {
    pub key_bindings: Vec<(String, String)>,
    pub tui: TuiPrefsDes,
}

/// A colour of 24 bits.
#[derive(Clone, Copy, Debug, PartialEq, Eq, Hash, Structural)]
pub struct Color {
    pub r: u8,
    pub g: u8,
    pub b: u8,
}

/// The colours of the theme.
#[derive(Clone, Copy, Debug, PartialEq, Eq, Structural)]
pub struct Theme {
    pub highlight_fg: Color,
    pub highlight_bg: Color,
    pub page_bar_fg: Color,
    pub page_bar_bg: Color,
    pub page_bar_current_bg: Color,
    pub post_header_fg: Color,
    pub post_header_bg: Color,
    pub post_upvoted_fg: Color,
    pub post_upvoted_bg: Color,
    pub post_heading_fg: Color,
    pub post_heading_bg: Color,
    pub post_body_fg: Color,
    pub post_body_bg: Color,
    pub cmd_plt_fg: Color,
    pub cmd_plt_bg: Color,
}

/// The interface switches.
#[derive(Clone, Copy, Debug, PartialEq, Eq, Structural)]
pub struct Interface {
    pub mouse_events_enable: bool,
}

/// The preferences of the interface, validated.
#[derive(Clone, Copy, Debug, PartialEq, Eq, Structural)]
pub struct TuiPrefs {
    pub interface: Interface,
    pub theme: Theme,
}

/// Why preferences are refused.
#[derive(Clone, Copy, Debug, PartialEq, Eq, Structural)]
pub enum PrefsError {
    /// A colour of the theme is not of the form `#RRGGBB`.
    InvalidColor,
}

/// The value of a hexadecimal digit, of either case.
pub open spec fn hex_value(ch: char) -> Option<u8> {
    if ch == '0' {
        Some(0u8)
    } else if ch == '1' {
        Some(1u8)
    } else if ch == '2' {
        Some(2u8)
    } else if ch == '3' {
        Some(3u8)
    } else if ch == '4' {
        Some(4u8)
    } else if ch == '5' {
        Some(5u8)
    } else if ch == '6' {
        Some(6u8)
    } else if ch == '7' {
        Some(7u8)
    } else if ch == '8' {
        Some(8u8)
    } else if ch == '9' {
        Some(9u8)
    } else if ch == 'a' {
        Some(10u8)
    } else if ch == 'b' {
        Some(11u8)
    } else if ch == 'c' {
        Some(12u8)
    } else if ch == 'd' {
        Some(13u8)
    } else if ch == 'e' {
        Some(14u8)
    } else if ch == 'f' {
        Some(15u8)
    } else if ch == 'A' {
        Some(10u8)
    } else if ch == 'B' {
        Some(11u8)
    } else if ch == 'C' {
        Some(12u8)
    } else if ch == 'D' {
        Some(13u8)
    } else if ch == 'E' {
        Some(14u8)
    } else if ch == 'F' {
        Some(15u8)
    } else {
        None
    }
}

/// The byte that two hexadecimal digits write, the first the higher.
pub open spec fn hex_byte(high: char, low: char) -> Option<u8> {
    match (hex_value(high), hex_value(low)) {
        (Some(h), Some(l)) => Some((16 * h + l) as u8),
        _ => None,
    }
}

/// The colour that a string writes: `#` and six hexadecimal digits, two
/// each for red, green and blue. No other string writes a colour.
pub open spec fn color_of(s: Seq<char>) -> Option<Color> {
    if s.len() == 7 && s[0] == '#' {
        match (hex_byte(s[1], s[2]), hex_byte(s[3], s[4]), hex_byte(s[5], s[6])) {
            (Some(r), Some(g), Some(b)) => Some(Color { r, g, b }),
            _ => None,
        }
    } else {
        None
    }
}

/// Whether every colour of the theme is written as `#RRGGBB`.
pub open spec fn theme_valid(theme: ThemeDes) -> bool {
    &&& color_of(theme.highlight_fg@) is Some
    &&& color_of(theme.highlight_bg@) is Some
    &&& color_of(theme.page_bar_fg@) is Some
    &&& color_of(theme.page_bar_bg@) is Some
    &&& color_of(theme.page_bar_current_bg@) is Some
    &&& color_of(theme.post_header_fg@) is Some
    &&& color_of(theme.post_header_bg@) is Some
    &&& color_of(theme.post_upvoted_fg@) is Some
    &&& color_of(theme.post_upvoted_bg@) is Some
    &&& color_of(theme.post_heading_fg@) is Some
    &&& color_of(theme.post_heading_bg@) is Some
    &&& color_of(theme.post_body_fg@) is Some
    &&& color_of(theme.post_body_bg@) is Some
    &&& color_of(theme.cmd_plt_fg@) is Some
    &&& color_of(theme.cmd_plt_bg@) is Some
}

/// The theme that a valid written theme stands for.
pub open spec fn theme_of(theme: ThemeDes) -> Theme {
    Theme {
        highlight_fg: color_of(theme.highlight_fg@)->0,
        highlight_bg: color_of(theme.highlight_bg@)->0,
        page_bar_fg: color_of(theme.page_bar_fg@)->0,
        page_bar_bg: color_of(theme.page_bar_bg@)->0,
        page_bar_current_bg: color_of(theme.page_bar_current_bg@)->0,
        post_header_fg: color_of(theme.post_header_fg@)->0,
        post_header_bg: color_of(theme.post_header_bg@)->0,
        post_upvoted_fg: color_of(theme.post_upvoted_fg@)->0,
        post_upvoted_bg: color_of(theme.post_upvoted_bg@)->0,
        post_heading_fg: color_of(theme.post_heading_fg@)->0,
        post_heading_bg: color_of(theme.post_heading_bg@)->0,
        post_body_fg: color_of(theme.post_body_fg@)->0,
        post_body_bg: color_of(theme.post_body_bg@)->0,
        cmd_plt_fg: color_of(theme.cmd_plt_fg@)->0,
        cmd_plt_bg: color_of(theme.cmd_plt_bg@)->0,
    }
}

/// The preferences that valid written preferences stand for.
pub open spec fn prefs_of(des: TuiPrefsDes) -> TuiPrefs {
    TuiPrefs {
        interface: Interface { mouse_events_enable: des.interface.mouse_events_enable },
        theme: theme_of(des.theme),
    }
}

fn hex_digit(ch: char) -> (value: Option<u8>)
    ensures
        value == hex_value(ch),
        value is Some ==> value->0 < 16,
{
    if ch == '0' {
        Some(0u8)
    } else if ch == '1' {
        Some(1u8)
    } else if ch == '2' {
        Some(2u8)
    } else if ch == '3' {
        Some(3u8)
    } else if ch == '4' {
        Some(4u8)
    } else if ch == '5' {
        Some(5u8)
    } else if ch == '6' {
        Some(6u8)
    } else if ch == '7' {
        Some(7u8)
    } else if ch == '8' {
        Some(8u8)
    } else if ch == '9' {
        Some(9u8)
    } else if ch == 'a' {
        Some(10u8)
    } else if ch == 'b' {
        Some(11u8)
    } else if ch == 'c' {
        Some(12u8)
    } else if ch == 'd' {
        Some(13u8)
    } else if ch == 'e' {
        Some(14u8)
    } else if ch == 'f' {
        Some(15u8)
    } else if ch == 'A' {
        Some(10u8)
    } else if ch == 'B' {
        Some(11u8)
    } else if ch == 'C' {
        Some(12u8)
    } else if ch == 'D' {
        Some(13u8)
    } else if ch == 'E' {
        Some(14u8)
    } else if ch == 'F' {
        Some(15u8)
    } else {
        None
    }
}

fn hex_pair(high: char, low: char) -> (value: Option<u8>)
    ensures
        value == hex_byte(high, low),
{
    match hex_digit(high) {
        None => None,
        Some(h) => match hex_digit(low) {
            None => None,
            Some(l) => Some(16 * h + l),
        },
    }
}

impl Color {
    /// Reads a colour written as `#RRGGBB`.
    pub fn get_color_from_str(color_str: &str) -> (color: Option<Color>)
        ensures
            color == color_of(color_str@),
    {
        let chars = str_chars(color_str);
        if chars.len() != 7 || chars[0] != '#' {
            return None;
        }
        let r = hex_pair(chars[1], chars[2]);
        let g = hex_pair(chars[3], chars[4]);
        let b = hex_pair(chars[5], chars[6]);
        match (r, g, b) {
            (Some(r), Some(g), Some(b)) => Some(Color { r, g, b }),
            _ => None,
        }
    }

    /// The colour as one number: red in bits 16 to 23, green in bits 8 to
    /// 15, blue in bits 0 to 7.
    pub open spec fn rgb(self) -> int {
        self.r * 65536 + self.g * 256 + self.b
    }

    /// The colour as one number of 24 bits.
    pub fn to_rgb(&self) -> (packed: u32)
        ensures
            packed == self.rgb(),
            packed <= 0xff_ffff,
    {
        let r: u32 = self.r as u32;
        let g: u32 = self.g as u32;
        let b: u32 = self.b as u32;
        r * 65536 + g * 256 + b
    }
}

/// Whether every colour of the written preferences has the form `#RRGGBB`.
pub fn val_tui_prefs_des(tui_prefs_des: &TuiPrefsDes) -> (valid: bool)
    ensures
        valid == theme_valid(tui_prefs_des.theme),
{
    let theme = &tui_prefs_des.theme;
    let mut valid = true;
    if Color::get_color_from_str(theme.highlight_fg.as_str()).is_none() {
        valid = false;
    }
    if Color::get_color_from_str(theme.highlight_bg.as_str()).is_none() {
        valid = false;
    }
    if Color::get_color_from_str(theme.page_bar_fg.as_str()).is_none() {
        valid = false;
    }
    if Color::get_color_from_str(theme.page_bar_bg.as_str()).is_none() {
        valid = false;
    }
    if Color::get_color_from_str(theme.page_bar_current_bg.as_str()).is_none() {
        valid = false;
    }
    if Color::get_color_from_str(theme.post_header_fg.as_str()).is_none() {
        valid = false;
    }
    if Color::get_color_from_str(theme.post_header_bg.as_str()).is_none() {
        valid = false;
    }
    if Color::get_color_from_str(theme.post_upvoted_fg.as_str()).is_none() {
        valid = false;
    }
    if Color::get_color_from_str(theme.post_upvoted_bg.as_str()).is_none() {
        valid = false;
    }
    if Color::get_color_from_str(theme.post_heading_fg.as_str()).is_none() {
        valid = false;
    }
    if Color::get_color_from_str(theme.post_heading_bg.as_str()).is_none() {
        valid = false;
    }
    if Color::get_color_from_str(theme.post_body_fg.as_str()).is_none() {
        valid = false;
    }
    if Color::get_color_from_str(theme.post_body_bg.as_str()).is_none() {
        valid = false;
    }
    if Color::get_color_from_str(theme.cmd_plt_fg.as_str()).is_none() {
        valid = false;
    }
    if Color::get_color_from_str(theme.cmd_plt_bg.as_str()).is_none() {
        valid = false;
    }
    valid
}

impl TuiPrefs {
    /// The preferences that the written preferences stand for, where every
    /// colour of theirs has the form `#RRGGBB`.
    pub fn gen_tui_prefs(tui_prefs_des: &TuiPrefsDes) -> (made: Result<TuiPrefs, PrefsError>)
        ensures
            made is Ok <==> theme_valid(tui_prefs_des.theme),
            made is Ok ==> made->Ok_0 == prefs_of(*tui_prefs_des),
            made is Err ==> made->Err_0 == PrefsError::InvalidColor,
    {
        let theme = &tui_prefs_des.theme;
        let highlight_fg = match Color::get_color_from_str(theme.highlight_fg.as_str()) {
            Some(color) => color,
            None => {
                return Err(PrefsError::InvalidColor);
            },
        };
        let highlight_bg = match Color::get_color_from_str(theme.highlight_bg.as_str()) {
            Some(color) => color,
            None => {
                return Err(PrefsError::InvalidColor);
            },
        };
        let page_bar_fg = match Color::get_color_from_str(theme.page_bar_fg.as_str()) {
            Some(color) => color,
            None => {
                return Err(PrefsError::InvalidColor);
            },
        };
        let page_bar_bg = match Color::get_color_from_str(theme.page_bar_bg.as_str()) {
            Some(color) => color,
            None => {
                return Err(PrefsError::InvalidColor);
            },
        };
        let page_bar_current_bg = match Color::get_color_from_str(theme.page_bar_current_bg.as_str()) {
            Some(color) => color,
            None => {
                return Err(PrefsError::InvalidColor);
            },
        };
        let post_header_fg = match Color::get_color_from_str(theme.post_header_fg.as_str()) {
            Some(color) => color,
            None => {
                return Err(PrefsError::InvalidColor);
            },
        };
        let post_header_bg = match Color::get_color_from_str(theme.post_header_bg.as_str()) {
            Some(color) => color,
            None => {
                return Err(PrefsError::InvalidColor);
            },
        };
        let post_upvoted_fg = match Color::get_color_from_str(theme.post_upvoted_fg.as_str()) {
            Some(color) => color,
            None => {
                return Err(PrefsError::InvalidColor);
            },
        };
        let post_upvoted_bg = match Color::get_color_from_str(theme.post_upvoted_bg.as_str()) {
            Some(color) => color,
            None => {
                return Err(PrefsError::InvalidColor);
            },
        };
        let post_heading_fg = match Color::get_color_from_str(theme.post_heading_fg.as_str()) {
            Some(color) => color,
            None => {
                return Err(PrefsError::InvalidColor);
            },
        };
        let post_heading_bg = match Color::get_color_from_str(theme.post_heading_bg.as_str()) {
            Some(color) => color,
            None => {
                return Err(PrefsError::InvalidColor);
            },
        };
        let post_body_fg = match Color::get_color_from_str(theme.post_body_fg.as_str()) {
            Some(color) => color,
            None => {
                return Err(PrefsError::InvalidColor);
            },
        };
        let post_body_bg = match Color::get_color_from_str(theme.post_body_bg.as_str()) {
            Some(color) => color,
            None => {
                return Err(PrefsError::InvalidColor);
            },
        };
        let cmd_plt_fg = match Color::get_color_from_str(theme.cmd_plt_fg.as_str()) {
            Some(color) => color,
            None => {
                return Err(PrefsError::InvalidColor);
            },
        };
        let cmd_plt_bg = match Color::get_color_from_str(theme.cmd_plt_bg.as_str()) {
            Some(color) => color,
            None => {
                return Err(PrefsError::InvalidColor);
            },
        };
        Ok(
            TuiPrefs {
                interface: Interface {
                    mouse_events_enable: tui_prefs_des.interface.mouse_events_enable,
                },
                theme: Theme {
                    highlight_fg,
                    highlight_bg,
                    page_bar_fg,
                    page_bar_bg,
                    page_bar_current_bg,
                    post_header_fg,
                    post_header_bg,
                    post_upvoted_fg,
                    post_upvoted_bg,
                    post_heading_fg,
                    post_heading_bg,
                    post_body_fg,
                    post_body_bg,
                    cmd_plt_fg,
                    cmd_plt_bg,
                },
            },
        )
    }
}

/// The colour written by `#` and six digits has, in each byte, sixteen times
/// the value of the first digit of the pair plus the value of the second.
pub proof fn lemma_color_bytes(s: Seq<char>)
    requires
        s.len() == 7,
        s[0] == '#',
        forall|i: int| 1 <= i < 7 ==> hex_value(#[trigger] s[i]) is Some,
    ensures
        color_of(s) is Some,
        color_of(s)->0.r == 16 * hex_value(s[1])->0 + hex_value(s[2])->0,
        color_of(s)->0.g == 16 * hex_value(s[3])->0 + hex_value(s[4])->0,
        color_of(s)->0.b == 16 * hex_value(s[5])->0 + hex_value(s[6])->0,
{
    assert(hex_value(s[1]) is Some && hex_value(s[2]) is Some && hex_value(s[3]) is Some);
    assert(hex_value(s[4]) is Some && hex_value(s[5]) is Some && hex_value(s[6]) is Some);
}

/// The text of every colour of the default configuration.
pub open spec fn default_color() -> Seq<char> {
    "#111111"@
}

impl Default for Config {
    /// The configuration in force where none is found: the default key
    /// bindings, mouse events on, and every colour `#111111`.
    fn default() -> (config: Config)
        ensures
            config.key_bindings@.len() == 1,
            config.key_bindings@[0].0@ == "app_quit"@,
            config.key_bindings@[0].1@ == "zz"@,
            config.tui.interface.mouse_events_enable,
            config.tui.theme.highlight_fg@ == default_color(),
            config.tui.theme.highlight_bg@ == default_color(),
            config.tui.theme.page_bar_fg@ == default_color(),
            config.tui.theme.page_bar_bg@ == default_color(),
            config.tui.theme.page_bar_current_bg@ == default_color(),
            config.tui.theme.post_header_fg@ == default_color(),
            config.tui.theme.post_header_bg@ == default_color(),
            config.tui.theme.post_upvoted_fg@ == default_color(),
            config.tui.theme.post_upvoted_bg@ == default_color(),
            config.tui.theme.post_heading_fg@ == default_color(),
            config.tui.theme.post_heading_bg@ == default_color(),
            config.tui.theme.post_body_fg@ == default_color(),
            config.tui.theme.post_body_bg@ == default_color(),
            config.tui.theme.cmd_plt_fg@ == default_color(),
            config.tui.theme.cmd_plt_bg@ == default_color(),
    {
        let mut key_bindings: Vec<(String, String)> = Vec::new();
        key_bindings.push(("app_quit".to_owned(), "zz".to_owned()));
        Config {
            key_bindings,
            tui: TuiPrefsDes {
                interface: InterfaceDes { mouse_events_enable: true },
                theme: ThemeDes {
                    highlight_fg: "#111111".to_owned(),
                    highlight_bg: "#111111".to_owned(),
                    page_bar_fg: "#111111".to_owned(),
                    page_bar_bg: "#111111".to_owned(),
                    page_bar_current_bg: "#111111".to_owned(),
                    post_header_fg: "#111111".to_owned(),
                    post_header_bg: "#111111".to_owned(),
                    post_upvoted_fg: "#111111".to_owned(),
                    post_upvoted_bg: "#111111".to_owned(),
                    post_heading_fg: "#111111".to_owned(),
                    post_heading_bg: "#111111".to_owned(),
                    post_body_fg: "#111111".to_owned(),
                    post_body_bg: "#111111".to_owned(),
                    cmd_plt_fg: "#111111".to_owned(),
                    cmd_plt_bg: "#111111".to_owned(),
                },
            },
        }
    }
}

} // verus!
