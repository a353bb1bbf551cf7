use ravana::app::App;
use ravana::command_palette::ReaderReply;
use ravana::input::EventType;
use ravana::input::InputDetails;
use ravana::input::NamedKey;
use ravana::input::Received;
use ravana::keys::Key;
use ravana::keys::KeyCombination;
use ravana::listener::handle_input;
use ravana::listener::palette_request;
use ravana::listener::PaletteRequest;
use ravana::prefs::Color;
use ravana::prefs::Config;
use ravana::prefs::TuiPrefs;
use ravana::trie::create_key_bindings_trie;
use ravana::trie::KeyBindingsTrie;

// A stand-in for the editable line of the terminal: it does what the
// library asks of the terminal, and reports back.
struct Line {
    text: String,
}

impl Line {
    fn perform(&mut self, request: PaletteRequest, received: &Received) -> ReaderReply {
        let mut accepted = true;
        let mut taken = self.text.clone();
        match request {
            PaletteRequest::Nothing => {}
            PaletteRequest::Open => self.text.push(':'),
            PaletteRequest::Clear => self.text.clear(),
            PaletteRequest::Take => {
                taken = self.text.clone();
                self.text.clear();
            }
            PaletteRequest::Offer => match received {
                Received::Char(ch) => self.text.push(*ch),
                Received::Event(NamedKey::Backspace) => {
                    self.text.pop();
                }
                _ => accepted = false,
            },
        }
        let contents = if request == PaletteRequest::Take {
            taken
        } else {
            self.text.clone()
        };
        ReaderReply {
            accepted,
            contents,
            cursor_y: 0,
            cursor_x: self.text.chars().count() as u32,
        }
    }
}

struct Session {
    app: App,
    buffer: KeyCombination,
    cmd_mode: bool,
    kbt: KeyBindingsTrie,
    line: Line,
    requests: Vec<PaletteRequest>,
}

fn prefs() -> TuiPrefs {
    let mut config = Config::default();
    config.tui.interface.mouse_events_enable = false;
    config.tui.theme.page_bar_current_bg = "#666666".to_string();
    TuiPrefs::gen_tui_prefs(&config.tui).unwrap()
}

fn session(bindings: &[(&str, &str)]) -> Session {
    let kb: Vec<(String, String)> = bindings
        .iter()
        .map(|(a, b)| (a.to_string(), b.to_string()))
        .collect();
    let mut app = App::new(24, 80, prefs()).unwrap();
    app.dummy_render();
    Session {
        app,
        buffer: KeyCombination::new(),
        cmd_mode: false,
        kbt: create_key_bindings_trie(&kb).unwrap(),
        line: Line {
            text: String::new(),
        },
        requests: Vec::new(),
    }
}

fn press() -> InputDetails {
    InputDetails {
        evtype: EventType::Press,
        ctrl: false,
        shift: false,
        alt: false,
    }
}

impl Session {
    fn feed(&mut self, received: Received) -> bool {
        let request = palette_request(self.cmd_mode, &received);
        self.requests.push(request);
        let reply = self.line.perform(request, &received);
        handle_input(
            &mut self.app,
            &mut self.buffer,
            &mut self.cmd_mode,
            &received,
            &press(),
            &self.kbt,
            &reply,
        )
    }

    fn feed_text(&mut self, text: &str) -> bool {
        let mut proceed = true;
        for ch in text.chars() {
            proceed = self.feed(Received::Char(ch));
        }
        proceed
    }
}

// * `:` leads to command mode.
// * The line of the palette holds what was typed, `:` first.
// * The line is empty after the palette was left.
#[test]
fn test_cmd_plt_text_display() {
    let mut s = session(&[]);
    s.feed(Received::Char(':'));
    assert!(s.cmd_mode);
    let eg_cmd_chars: Vec<char> = "example".chars().collect();
    for v in eg_cmd_chars.iter() {
        s.feed(Received::Char(*v));
    }
    s.app.render();

    assert_eq!(s.line.text.chars().next(), Some(':'));
    for (i, v) in eg_cmd_chars.iter().enumerate() {
        assert_eq!(s.line.text.chars().nth(i + 1), Some(*v));
    }
    assert_eq!(s.line.text, ":example");
    assert_eq!(s.requests[0], PaletteRequest::Open);
    assert!(s.requests[1..].iter().all(|r| *r == PaletteRequest::Offer));

    s.feed(Received::Event(NamedKey::Esc));
    assert_eq!(s.requests.last(), Some(&PaletteRequest::Clear));
    assert_eq!(s.line.text, "");
    assert!(!s.cmd_mode);
}

// * `:` leads to command mode.
// * Esc and Enter lead back to normal mode.
#[test]
fn test_cmd_mode_switching() {
    let mut s = session(&[]);

    assert!(s.feed(Received::Char(':')));
    s.app.render();
    assert_eq!(s.cmd_mode, true);

    assert!(s.feed(Received::Event(NamedKey::Esc)));
    assert_eq!(s.cmd_mode, false);

    assert!(s.feed(Received::Char(':')));
    assert!(s.feed(Received::Event(NamedKey::Enter)));
    assert_eq!(s.cmd_mode, false);
}

#[test]
fn test_quit_binding() {
    let mut s = session(&[("app_quit", "zz")]);
    assert!(s.feed(Received::Char('z')));
    assert_eq!(s.buffer, vec![Key::KeyZ]);
    assert!(!s.feed(Received::Char('z')));
    assert!(!s.cmd_mode);
}

#[test]
fn test_prefix_non_match_clears_buffer() {
    let mut s = session(&[("app_quit", "zz")]);
    assert!(s.feed(Received::Char('z')));
    assert_eq!(s.buffer, vec![Key::KeyZ]);
    assert!(s.feed(Received::Char('a')));
    assert_eq!(s.buffer, vec![]);
    assert_eq!(s.app.foc_page(), 1);
    assert!(s.requests.iter().all(|r| *r == PaletteRequest::Nothing));
    assert!(s.feed(Received::Char('z')));
    assert!(!s.feed(Received::Char('z')));
}

#[test]
fn test_execute_next_page() {
    let mut s = session(&[]);
    s.app.set_foc_page(0);
    assert!(s.feed_text(":next_page"));
    assert!(s.cmd_mode);
    assert_eq!(s.app.foc_page(), 0);
    assert!(s.feed(Received::Event(NamedKey::Enter)));
    assert!(!s.cmd_mode);
    assert_eq!(s.app.foc_page(), 1);
    assert_eq!(s.line.text, "");
    let frame = s.app.render();
    assert_eq!(frame.page_bar.stain_col, Some(7));
    assert_eq!(frame.page_bar.stain_cols, 7);
    assert_eq!(
        frame.page_bar.stain.bg,
        Color {
            r: 0x66,
            g: 0x66,
            b: 0x66
        }
    );
    assert!(s.app.page(1).is_visible());
    assert!(!s.app.page(0).is_visible());
}

#[test]
fn test_switch_page_out_of_bounds() {
    let mut s = session(&[]);
    s.app.set_foc_page(0);
    assert!(s.feed_text(":switch_page 7"));
    assert!(s.feed(Received::Event(NamedKey::Enter)));
    assert_eq!(s.app.foc_page(), 0);
    assert!(!s.cmd_mode);
    assert_eq!(s.app.page_count(), 2);
}

#[test]
fn test_quit_from_the_palette() {
    let mut s = session(&[]);
    assert!(s.feed_text(":app_quit"));
    assert!(!s.feed(Received::Event(NamedKey::Enter)));
    assert!(!s.cmd_mode);
}

#[test]
fn test_bad_argument_from_the_palette_is_passed_over() {
    let mut s = session(&[]);
    assert!(s.feed_text(":switch_page x"));
    assert!(s.feed(Received::Event(NamedKey::Enter)));
    assert!(!s.cmd_mode);
    assert_eq!(s.app.foc_page(), 1);
}

#[test]
fn test_colon_clears_the_buffer() {
    let mut s = session(&[]);
    assert!(s.feed(Received::Char('z')));
    assert_eq!(s.buffer, vec![Key::KeyZ]);
    assert!(s.feed(Received::Char(':')));
    assert_eq!(s.buffer, vec![]);
    assert!(s.cmd_mode);
}

#[test]
fn test_backspace_over_the_colon_leaves_command_mode() {
    let mut s = session(&[]);
    s.feed_text(":e");
    assert!(s.feed(Received::Event(NamedKey::Backspace)));
    assert!(s.cmd_mode);
    assert_eq!(s.line.text, ":");
    assert!(s.feed(Received::Event(NamedKey::Backspace)));
    assert!(!s.cmd_mode);
    assert_eq!(s.line.text, "");
}

#[test]
fn test_refused_input_leaves_command_mode() {
    let mut s = session(&[]);
    s.feed_text(":e");
    // The stand-in refuses Left.
    assert!(s.feed(Received::Event(NamedKey::Left)));
    assert!(!s.cmd_mode);
}

#[test]
fn test_keys_that_the_palette_does_not_take_are_passed_over() {
    let mut s = session(&[]);
    s.feed_text(":e");
    assert!(s.feed(Received::Event(NamedKey::Up)));
    assert!(s.feed(Received::Event(NamedKey::F05)));
    assert!(s.feed(Received::NoInput));
    assert!(s.cmd_mode);
    assert_eq!(s.line.text, ":e");
    assert_eq!(
        s.requests[2..].to_vec(),
        vec![PaletteRequest::Nothing; 3]
    );
}

#[test]
fn test_bound_commands_run_in_normal_mode() {
    let mut s = session(&[
        ("scroll_down", "j"),
        ("scroll_up", "k"),
        ("next_page", "gt"),
        ("prev_page", "gT"),
        ("app_quit", "<C-q>"),
    ]);
    assert!(s.feed(Received::Char('j')));
    assert_eq!(s.app.page(1).scrolled(), 2);
    assert_eq!(s.buffer, vec![]);
    assert!(s.feed(Received::Char('k')));
    assert_eq!(s.app.page(1).scrolled(), 0);
    assert!(s.feed(Received::Char('g')));
    assert_eq!(s.buffer, vec![Key::KeyG]);
    assert!(s.feed(Received::Char('t')));
    assert_eq!(s.app.foc_page(), 0);
    assert!(s.feed_text("gT"));
    assert_eq!(s.app.foc_page(), 1);
    assert!(s.feed(Received::Char('z')));
    assert!(s.feed(Received::Char('z')));
    let mut ctrl = press();
    ctrl.ctrl = true;
    let proceed = handle_input(
        &mut s.app,
        &mut s.buffer,
        &mut s.cmd_mode,
        &Received::Char('q'),
        &ctrl,
        &s.kbt,
        &ReaderReply {
            accepted: true,
            contents: String::new(),
            cursor_y: 0,
            cursor_x: 0,
        },
    );
    assert!(!proceed);
    assert_eq!(s.buffer, vec![Key::HoldCtrl, Key::KeyQ]);
}

#[test]
fn test_keystrokes_without_keys_leave_the_buffer() {
    let mut s = session(&[]);
    assert!(s.feed(Received::Char('z')));
    assert!(s.feed(Received::Char('1')));
    assert!(s.feed(Received::NoInput));
    assert!(s.feed(Received::Event(NamedKey::Other)));
    assert_eq!(s.buffer, vec![Key::KeyZ]);
    assert!(!s.feed(Received::Char('z')));
}

#[test]
fn test_palette_requests() {
    let enter = Received::Event(NamedKey::Enter);
    let esc = Received::Event(NamedKey::Esc);
    assert_eq!(palette_request(false, &Received::Char(':')), PaletteRequest::Open);
    assert_eq!(palette_request(false, &Received::Char('a')), PaletteRequest::Nothing);
    assert_eq!(palette_request(false, &enter), PaletteRequest::Nothing);
    assert_eq!(palette_request(false, &esc), PaletteRequest::Nothing);
    assert_eq!(palette_request(true, &enter), PaletteRequest::Take);
    assert_eq!(palette_request(true, &esc), PaletteRequest::Clear);
    assert_eq!(palette_request(true, &Received::Char(':')), PaletteRequest::Offer);
    assert_eq!(
        palette_request(true, &Received::Event(NamedKey::Backspace)),
        PaletteRequest::Offer
    );
    assert_eq!(
        palette_request(true, &Received::Event(NamedKey::Tab)),
        PaletteRequest::Nothing
    );
    assert_eq!(palette_request(true, &Received::NoInput), PaletteRequest::Nothing);
}
