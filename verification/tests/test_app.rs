use ravana::app::App;
use ravana::app::AppError;
use ravana::command_palette::cmd_plt_val_input;
use ravana::command_palette::AppRes;
use ravana::command_palette::CmdPalette;
use ravana::command_palette::ReaderReply;
use ravana::command_to_event::exec_cmd;
use ravana::command_to_event::DispatchError;
use ravana::input::NamedKey;
use ravana::input::Received;
use ravana::page::PageType;
use ravana::prefs::Color;
use ravana::prefs::Config;
use ravana::prefs::TuiPrefs;
use ravana::surface::Channels;

fn prefs() -> TuiPrefs {
    let mut config = Config::default();
    config.tui.interface.mouse_events_enable = false;
    config.tui.theme.page_bar_current_bg = "#666666".to_string();
    config.tui.theme.cmd_plt_fg = "#222222".to_string();
    config.tui.theme.cmd_plt_bg = "#333333".to_string();
    TuiPrefs::gen_tui_prefs(&config.tui).unwrap()
}

fn demo() -> App {
    let mut app = App::new(24, 80, prefs()).unwrap();
    app.dummy_render();
    app
}

fn visible_pages(app: &App) -> Vec<usize> {
    (0..app.page_count())
        .filter(|i| app.page(*i).is_visible())
        .collect()
}

fn reply(accepted: bool, contents: &str, cursor_y: u32, cursor_x: u32) -> ReaderReply {
    ReaderReply {
        accepted,
        contents: contents.to_string(),
        cursor_y,
        cursor_x,
    }
}

#[test]
fn test_new_app() {
    let app = App::new(24, 80, prefs()).unwrap();
    assert_eq!(app.page_count(), 0);
    assert_eq!(app.foc_page(), 0);
    assert!(!app.mouse_events());
    let palette = app.cmd_plt();
    assert_eq!(
        (palette.plane.x, palette.plane.y, palette.plane.dim_x, palette.plane.dim_y),
        (0, 23, 80, 1)
    );
    assert_eq!(
        palette.plane.channels,
        Some(Channels {
            fg: Color {
                r: 0x22,
                g: 0x22,
                b: 0x22
            },
            bg: Color {
                r: 0x33,
                g: 0x33,
                b: 0x33
            }
        })
    );
    assert!(palette.cursor && palette.horscroll && palette.reader_open);
    let bar = app.page_bar().plane();
    assert_eq!((bar.x, bar.y, bar.dim_x, bar.dim_y), (0, 0, 80, 1));
}

#[test]
fn test_new_app_takes_mouse_events_from_the_prefs() {
    let mut p = prefs();
    p.interface.mouse_events_enable = true;
    assert!(App::new(24, 80, p).unwrap().mouse_events());
}

#[test]
fn test_new_app_needs_a_row() {
    assert_eq!(App::new(0, 80, prefs()).err(), Some(AppError::NoRoom));
    assert!(App::new(1, 80, prefs()).is_ok());
    assert!(App::new(1, 0, prefs()).is_ok());
    assert!(App::new(1 << 31, 80, prefs()).is_ok());
    assert_eq!(
        App::new((1 << 31) + 1, 80, prefs()).err(),
        Some(AppError::NoRoom)
    );
}

#[test]
fn test_add_page_puts_the_new_page_in_focus() {
    let mut app = App::new(24, 80, prefs()).unwrap();
    app.add_page(PageType::SubredditListing);
    assert_eq!((app.page_count(), app.foc_page()), (1, 0));
    app.add_page(PageType::SubredditListing);
    assert_eq!((app.page_count(), app.foc_page()), (2, 1));
    assert_eq!(app.page_bar().foc_page(), 1);
    let plane = app.page(1).plane();
    assert_eq!((plane.x, plane.y, plane.dim_x, plane.dim_y), (0, 1, 80, 23));
}

#[test]
fn test_dummy_render() {
    let app = demo();
    assert_eq!(app.page_count(), 2);
    assert_eq!(app.foc_page(), 1);
    assert_eq!(app.page_bar().foc_page(), 1);
    let p = prefs();
    for i in 0..2 {
        let drawings = app.page(i).draw(&p);
        assert_eq!(drawings.len(), 13);
        for (x, drawing) in drawings.iter().enumerate() {
            assert_eq!(drawing.header.upvotes.text, x.to_string());
            assert_eq!(drawing.header.comments.text, "78");
        }
    }
    assert_eq!(app.page(0).draw(&p)[0].heading, "hadfafda");
    assert_eq!(app.page(0).draw(&p)[0].header.subreddit.text, "rust");
    assert_eq!(app.page(1).draw(&p)[12].heading, "ffffff");
    assert_eq!(app.page(1).draw(&p)[12].body, "ooooooooooooooooooo");
}

#[test]
fn test_set_foc_page() {
    let mut app = demo();
    app.set_foc_page(0);
    assert_eq!(app.foc_page(), 0);
    assert_eq!(app.page_bar().foc_page(), 0);
    app.set_foc_page(1);
    assert_eq!(app.foc_page(), 1);
}

#[test]
fn test_set_foc_page_out_of_bounds_changes_nothing() {
    let mut app = demo();
    app.set_foc_page(0);
    app.set_foc_page(2);
    assert_eq!(app.foc_page(), 0);
    app.set_foc_page(7);
    assert_eq!(app.foc_page(), 0);
    app.set_foc_page(usize::MAX);
    assert_eq!(app.foc_page(), 0);
    assert_eq!(app.page_bar().foc_page(), 0);
    let mut empty = App::new(24, 80, prefs()).unwrap();
    empty.set_foc_page(0);
    assert_eq!(empty.foc_page(), 0);
}

#[test]
fn test_switch_pages_cyclically() {
    let mut app = demo();
    app.add_page(PageType::SubredditListing);
    assert_eq!(app.foc_page(), 2);
    app.switch_next_page();
    assert_eq!(app.foc_page(), 0);
    app.switch_next_page();
    assert_eq!(app.foc_page(), 1);
    app.switch_prev_page();
    assert_eq!(app.foc_page(), 0);
    app.switch_prev_page();
    assert_eq!(app.foc_page(), 2);
    assert_eq!(app.page_bar().foc_page(), 2);
}

#[test]
fn test_switch_pages_without_pages() {
    let mut app = App::new(24, 80, prefs()).unwrap();
    app.switch_next_page();
    app.switch_prev_page();
    app.scroll_up();
    app.scroll_down();
    assert_eq!(app.foc_page(), 0);
    let frame = app.render();
    assert_eq!(frame.visible_page, None);
}

// After any sequence of adding pages and changing the focus, a render
// leaves exactly one page on the screen: the one in focus.
#[test]
fn test_render_leaves_one_page_visible() {
    let mut app = App::new(24, 80, prefs()).unwrap();
    app.add_page(PageType::SubredditListing);
    app.add_page(PageType::SubredditListing);
    assert_eq!(visible_pages(&app), vec![0, 1]);
    app.render();
    assert_eq!(visible_pages(&app), vec![1]);
    app.add_page(PageType::SubredditListing);
    app.switch_next_page();
    app.render();
    assert_eq!(visible_pages(&app), vec![0]);
    app.switch_prev_page();
    app.set_foc_page(1);
    app.set_foc_page(9);
    let frame = app.render();
    assert_eq!(visible_pages(&app), vec![1]);
    assert_eq!(frame.visible_page, Some(1));
    assert_eq!(app.page(0).plane().x, 80);
    assert_eq!(app.page(1).plane().x, 0);
    assert_eq!(app.page(2).plane().x, 80);
}

// A second render in a row shows what the first showed and moves nothing.
#[test]
fn test_render_twice() {
    let mut app = demo();
    app.set_foc_page(0);
    app.scroll_down();
    let first = app.render();
    let planes: Vec<_> = (0..2).map(|i| app.page(i).plane()).collect();
    let second = app.render();
    assert_eq!(first, second);
    assert_eq!(planes, (0..2).map(|i| app.page(i).plane()).collect::<Vec<_>>());
    assert_eq!(visible_pages(&app), vec![0]);
}

#[test]
fn test_render_draws_every_page() {
    let mut app = demo();
    let frame = app.render();
    assert_eq!(frame.pages.len(), 2);
    assert_eq!(frame.pages[0], app.page(0).draw(&prefs()));
    assert_eq!(frame.pages[1], app.page(1).draw(&prefs()));
    assert_eq!(frame.pages[0].len(), 13);
    assert_eq!(frame.pages[0][3].header.upvotes.text, "3");
    assert_eq!(frame.pages[1][0].heading, "ffffff");
    app.scroll_down();
    assert_eq!(app.render().pages, frame.pages);
}

#[test]
fn test_render_draws_the_page_bar() {
    let mut app = demo();
    let frame = app.render();
    assert_eq!(frame.page_bar.slots.len(), 2);
    assert_eq!(frame.page_bar.slots[0].text, "0:hell");
    assert_eq!(frame.page_bar.slots[1].text, "1:yoyo");
    assert_eq!(frame.page_bar.stain_col, Some(7));
    assert_eq!(
        frame.page_bar.stain.bg,
        Color {
            r: 0x66,
            g: 0x66,
            b: 0x66
        }
    );
}

#[test]
fn test_app_scrolls_the_page_in_focus() {
    let mut app = demo();
    app.scroll_down();
    assert_eq!(app.page(1).scrolled(), 2);
    assert_eq!(app.page(0).scrolled(), 0);
    app.scroll_up();
    assert_eq!(app.page(1).scrolled(), 0);
    app.scroll_up();
    assert_eq!(app.page(1).scrolled(), 0);
    for _ in 0..30 {
        app.scroll_down();
    }
    assert_eq!(app.page(1).scrolled(), 42);
}

#[test]
fn test_cmd_plt_val_input() {
    assert!(cmd_plt_val_input(&Received::Char('a')));
    assert!(cmd_plt_val_input(&Received::Char(':')));
    assert!(cmd_plt_val_input(&Received::Char('山')));
    assert!(cmd_plt_val_input(&Received::Event(NamedKey::Left)));
    assert!(cmd_plt_val_input(&Received::Event(NamedKey::Right)));
    assert!(cmd_plt_val_input(&Received::Event(NamedKey::Enter)));
    assert!(cmd_plt_val_input(&Received::Event(NamedKey::Backspace)));
    assert!(!cmd_plt_val_input(&Received::Event(NamedKey::Esc)));
    assert!(!cmd_plt_val_input(&Received::Event(NamedKey::Up)));
    assert!(!cmd_plt_val_input(&Received::Event(NamedKey::Tab)));
    assert!(!cmd_plt_val_input(&Received::Event(NamedKey::F01)));
    assert!(!cmd_plt_val_input(&Received::Event(NamedKey::Other)));
    assert!(!cmd_plt_val_input(&Received::NoInput));
}

#[test]
fn test_palette_input() {
    let palette = CmdPalette::new(&prefs(), 0, 23, 80, 1);
    assert_eq!(palette.input(&reply(true, ":e", 0, 2)), AppRes::CmdModeCont);
    assert_eq!(palette.input(&reply(true, ":", 0, 1)), AppRes::CmdModeCont);
    assert_eq!(palette.input(&reply(true, "", 0, 0)), AppRes::CmdModeQuit);
    assert_eq!(palette.input(&reply(true, " ", 0, 0)), AppRes::CmdModeQuit);
    assert_eq!(palette.input(&reply(true, ":e", 0, 0)), AppRes::CmdModeCont);
    assert_eq!(palette.input(&reply(true, "", 1, 0)), AppRes::CmdModeCont);
    assert_eq!(palette.input(&reply(false, ":e", 0, 2)), AppRes::CmdModeQuit);
}

#[test]
fn test_destroy_reader() {
    let mut app = demo();
    assert!(app.cmd_plt().reader_open);
    app.destroy_reader();
    assert!(!app.cmd_plt().reader_open);
    let mut palette = CmdPalette::new(&prefs(), 0, 23, 80, 1);
    palette.destroy_reader();
    assert!(!palette.reader_open);
    assert!(palette.cursor);
}

#[test]
fn test_input_cmd_plt_renders() {
    let mut app = demo();
    assert_eq!(visible_pages(&app), vec![0, 1]);
    assert_eq!(
        app.input_cmd_plt(&reply(true, ":x", 0, 2)),
        AppRes::CmdModeCont
    );
    assert_eq!(visible_pages(&app), vec![1]);
    assert_eq!(
        app.input_cmd_plt(&reply(true, "", 0, 0)),
        AppRes::CmdModeQuit
    );
}

#[test]
fn test_dispatch_app_quit() {
    let mut app = demo();
    assert_eq!(exec_cmd(&mut app, "app_quit"), Ok(Some(AppRes::AppQuit)));
    assert_eq!(exec_cmd(&mut app, "app_quit now"), Ok(Some(AppRes::AppQuit)));
    assert_eq!(app.foc_page(), 1);
}

#[test]
fn test_dispatch_scroll() {
    let mut app = demo();
    assert_eq!(exec_cmd(&mut app, "scroll_down"), Ok(None));
    assert_eq!(app.page(1).scrolled(), 2);
    assert_eq!(visible_pages(&app), vec![1]);
    assert_eq!(exec_cmd(&mut app, "scroll_up"), Ok(None));
    assert_eq!(app.page(1).scrolled(), 0);
    assert_eq!(exec_cmd(&mut app, "scroll_up"), Ok(None));
    assert_eq!(app.page(1).scrolled(), 0);
}

#[test]
fn test_dispatch_pages() {
    let mut app = demo();
    assert_eq!(exec_cmd(&mut app, "next_page"), Ok(None));
    assert_eq!(app.foc_page(), 0);
    assert_eq!(visible_pages(&app), vec![0]);
    assert_eq!(exec_cmd(&mut app, "prev_page"), Ok(None));
    assert_eq!(app.foc_page(), 1);
    assert_eq!(exec_cmd(&mut app, "switch_page 0"), Ok(None));
    assert_eq!(app.foc_page(), 0);
    assert_eq!(exec_cmd(&mut app, "switch_page +1"), Ok(None));
    assert_eq!(app.foc_page(), 1);
    assert_eq!(exec_cmd(&mut app, "switch_page 00 and more"), Ok(None));
    assert_eq!(app.foc_page(), 0);
    assert_eq!(exec_cmd(&mut app, "switch_page 7"), Ok(None));
    assert_eq!(app.foc_page(), 0);
}

#[test]
fn test_dispatch_switch_page_needs_a_number() {
    let mut app = demo();
    for cmd in [
        "switch_page",
        "switch_page ",
        "switch_page  1",
        "switch_page x",
        "switch_page 1x",
        "switch_page -1",
        "switch_page +",
        "switch_page 1.0",
        "switch_page 99999999999999999999999999",
    ] {
        assert_eq!(exec_cmd(&mut app, cmd), Err(DispatchError::BadArgument));
        assert_eq!(app.foc_page(), 1);
    }
}

#[test]
fn test_dispatch_largest_number() {
    let mut app = demo();
    let cmd = format!("switch_page {}", usize::MAX);
    assert_eq!(exec_cmd(&mut app, &cmd), Ok(None));
    assert_eq!(app.foc_page(), 1);
}

#[test]
fn test_dispatch_unknown_verbs_do_nothing() {
    let mut app = demo();
    for cmd in ["", " ", "example", "App_quit", " app_quit", "next_pages", "scroll"] {
        assert_eq!(exec_cmd(&mut app, cmd), Ok(None));
    }
    assert_eq!(app.foc_page(), 1);
    assert_eq!(visible_pages(&app), vec![0, 1]);
}

#[test]
fn test_app_exec_cmd_strips_the_colon() {
    let mut app = demo();
    assert_eq!(app.exec_cmd(":next_page"), Ok(None));
    assert_eq!(app.foc_page(), 0);
    assert_eq!(app.exec_cmd(":app_quit"), Ok(Some(AppRes::AppQuit)));
    assert_eq!(app.exec_cmd("app_quit"), Ok(None));
    assert_eq!(app.exec_cmd(""), Ok(None));
    assert_eq!(app.exec_cmd(":"), Ok(None));
    assert_eq!(
        app.exec_cmd(":switch_page"),
        Err(DispatchError::BadArgument)
    );
    assert_eq!(app.foc_page(), 0);
    assert_eq!(visible_pages(&app), vec![0]);
}
