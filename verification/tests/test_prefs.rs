use ravana::prefs::val_tui_prefs_des;
use ravana::prefs::Color;
use ravana::prefs::Config;
use ravana::prefs::InterfaceDes;
use ravana::prefs::PrefsError;
use ravana::prefs::ThemeDes;
use ravana::prefs::TuiPrefs;
use ravana::prefs::TuiPrefsDes;

fn theme_of_one_colour(colour: &str) -> ThemeDes {
    ThemeDes {
        highlight_fg: colour.to_string(),
        highlight_bg: colour.to_string(),
        page_bar_fg: colour.to_string(),
        page_bar_bg: colour.to_string(),
        page_bar_current_bg: colour.to_string(),
        post_header_fg: colour.to_string(),
        post_header_bg: colour.to_string(),
        post_upvoted_fg: colour.to_string(),
        post_upvoted_bg: colour.to_string(),
        post_heading_fg: colour.to_string(),
        post_heading_bg: colour.to_string(),
        post_body_fg: colour.to_string(),
        post_body_bg: colour.to_string(),
        cmd_plt_fg: colour.to_string(),
        cmd_plt_bg: colour.to_string(),
    }
}

fn prefs_des(theme: ThemeDes) -> TuiPrefsDes {
    TuiPrefsDes {
        interface: InterfaceDes {
            mouse_events_enable: false,
        },
        theme,
    }
}

#[test]
fn test_gen_color_from_str() {
    assert_eq!(
        Some(Color {
            r: 255u8,
            g: 255u8,
            b: 255u8
        }),
        Color::get_color_from_str("#ffffff")
    );

    assert_eq!(
        Some(Color {
            r: 166u8,
            g: 183u8,
            b: 200u8
        }),
        Color::get_color_from_str("#a6b7c8")
    );

    assert_eq!(None, Color::get_color_from_str("#g6b7c6"));
}

#[test]
fn test_color_upper_case_digits() {
    assert_eq!(
        Color::get_color_from_str("#A6B7C8"),
        Some(Color {
            r: 166,
            g: 183,
            b: 200
        })
    );
    assert_eq!(
        Color::get_color_from_str("#000000"),
        Some(Color { r: 0, g: 0, b: 0 })
    );
    assert_eq!(
        Color::get_color_from_str("#0f10Fe"),
        Some(Color {
            r: 15,
            g: 16,
            b: 254
        })
    );
}

#[test]
fn test_color_any_other_form_is_invalid() {
    assert_eq!(Color::get_color_from_str(""), None);
    assert_eq!(Color::get_color_from_str("#"), None);
    assert_eq!(Color::get_color_from_str("ffffff"), None);
    assert_eq!(Color::get_color_from_str("xffffff"), None);
    assert_eq!(Color::get_color_from_str("#fffff"), None);
    assert_eq!(Color::get_color_from_str("#fffffff"), None);
    assert_eq!(Color::get_color_from_str("#ffffff "), None);
    assert_eq!(Color::get_color_from_str("#ff ff0"), None);
    assert_eq!(Color::get_color_from_str("#ffffé"), None);
    assert_eq!(Color::get_color_from_str("#-1-1-1"), None);
}

#[test]
fn test_color_to_rgb() {
    assert_eq!(
        Color {
            r: 0xa6,
            g: 0xb7,
            b: 0xc8
        }
        .to_rgb(),
        0xa6b7c8
    );
    assert_eq!(Color { r: 0, g: 0, b: 0 }.to_rgb(), 0);
    assert_eq!(
        Color {
            r: 255,
            g: 255,
            b: 255
        }
        .to_rgb(),
        0xffffff
    );
}

#[test]
fn test_val_tui_prefs_des() {
    assert!(val_tui_prefs_des(&prefs_des(theme_of_one_colour("#123abc"))));
    assert!(!val_tui_prefs_des(&prefs_des(theme_of_one_colour("123abc"))));
}

// Every colour of the theme is validated, the last as well as the first.
#[test]
fn test_val_tui_prefs_des_checks_each_field() {
    let mut theme = theme_of_one_colour("#123abc");
    theme.cmd_plt_bg = "#12".to_string();
    assert!(!val_tui_prefs_des(&prefs_des(theme)));
    let mut theme = theme_of_one_colour("#123abc");
    theme.highlight_fg = "red".to_string();
    assert!(!val_tui_prefs_des(&prefs_des(theme)));
    let mut theme = theme_of_one_colour("#123abc");
    theme.page_bar_current_bg = "#12345g".to_string();
    assert!(!val_tui_prefs_des(&prefs_des(theme)));
    let mut theme = theme_of_one_colour("#123abc");
    theme.post_body_fg = "".to_string();
    assert!(!val_tui_prefs_des(&prefs_des(theme)));
}

#[test]
fn test_gen_tui_prefs() {
    let mut theme = theme_of_one_colour("#010203");
    theme.post_upvoted_bg = "#ff8000".to_string();
    let mut des = prefs_des(theme);
    des.interface.mouse_events_enable = true;
    let prefs = TuiPrefs::gen_tui_prefs(&des).unwrap();
    assert!(prefs.interface.mouse_events_enable);
    assert_eq!(prefs.theme.highlight_fg, Color { r: 1, g: 2, b: 3 });
    assert_eq!(prefs.theme.cmd_plt_bg, Color { r: 1, g: 2, b: 3 });
    assert_eq!(
        prefs.theme.post_upvoted_bg,
        Color {
            r: 255,
            g: 128,
            b: 0
        }
    );
}

#[test]
fn test_gen_tui_prefs_rejects_what_validation_rejects() {
    let mut theme = theme_of_one_colour("#010203");
    theme.post_heading_fg = "#0102".to_string();
    let des = prefs_des(theme);
    assert!(!val_tui_prefs_des(&des));
    assert_eq!(
        TuiPrefs::gen_tui_prefs(&des),
        Err(PrefsError::InvalidColor)
    );
}

#[test]
fn test_default_config() {
    let config = Config::default();
    assert_eq!(
        config.key_bindings,
        vec![("app_quit".to_string(), "zz".to_string())]
    );
    assert!(config.tui.interface.mouse_events_enable);
    assert_eq!(config.tui.theme, theme_of_one_colour("#111111"));
    assert!(val_tui_prefs_des(&config.tui));
    let prefs = TuiPrefs::gen_tui_prefs(&config.tui).unwrap();
    assert_eq!(
        prefs.theme.page_bar_fg,
        Color {
            r: 17,
            g: 17,
            b: 17
        }
    );
}
