use ravana::bindings::ParseError;
use ravana::commands::command_from_name;
use ravana::commands::command_name_str;
use ravana::commands::default_binding_str;
use ravana::commands::nth_command;
use ravana::commands::Command;
use ravana::commands::COMMAND_COUNT;
use ravana::prefs::Config;
use ravana::keys::Key;
use ravana::trie::create_key_bindings_trie;
use ravana::trie::BindingError;
use ravana::trie::KeyBindingsTrie;
use ravana::trie::Lookup;

fn entries(pairs: &[(&str, &str)]) -> Vec<(String, String)> {
    pairs
        .iter()
        .map(|(a, b)| (a.to_string(), b.to_string()))
        .collect()
}

#[test]
fn test_empty_trie_matches_nothing() {
    let trie = KeyBindingsTrie::new();
    assert_eq!(trie.lookup(&vec![]), Lookup::NoMatch);
    assert_eq!(trie.lookup(&vec![Key::KeyZ]), Lookup::NoMatch);
}

#[test]
fn test_default_bindings() {
    let trie = create_key_bindings_trie(&vec![]).unwrap();
    assert_eq!(trie.lookup(&vec![Key::KeyZ]), Lookup::Interior);
    assert_eq!(
        trie.lookup(&vec![Key::KeyZ, Key::KeyZ]),
        Lookup::Command("app_quit".to_string())
    );
    assert_eq!(trie.lookup(&vec![Key::KeyZ, Key::KeyA]), Lookup::NoMatch);
    assert_eq!(trie.lookup(&vec![Key::KeyA]), Lookup::NoMatch);
    assert_eq!(
        trie.lookup(&vec![Key::KeyZ, Key::KeyZ, Key::KeyZ]),
        Lookup::NoMatch
    );
    assert_eq!(trie.lookup(&vec![]), Lookup::Interior);
}

#[test]
fn test_user_binding_replaces_default() {
    let trie = create_key_bindings_trie(&entries(&[("app_quit", "<C-q>")])).unwrap();
    assert_eq!(trie.lookup(&vec![Key::KeyZ]), Lookup::NoMatch);
    assert_eq!(trie.lookup(&vec![Key::HoldCtrl]), Lookup::Interior);
    assert_eq!(
        trie.lookup(&vec![Key::HoldCtrl, Key::KeyQ]),
        Lookup::Command("app_quit".to_string())
    );
}

#[test]
fn test_stored_binding_and_its_prefixes() {
    let trie = create_key_bindings_trie(&entries(&[
        ("scroll_down", "<C-a>g"),
        ("next_page", "gt"),
        ("prev_page", "gT"),
    ]))
    .unwrap();
    assert_eq!(
        trie.lookup(&vec![Key::HoldCtrl, Key::KeyA, Key::KeyG]),
        Lookup::Command("scroll_down".to_string())
    );
    assert_eq!(trie.lookup(&vec![Key::HoldCtrl, Key::KeyA]), Lookup::Interior);
    assert_eq!(trie.lookup(&vec![Key::HoldCtrl]), Lookup::Interior);
    assert_eq!(trie.lookup(&vec![Key::KeyG]), Lookup::Interior);
    assert_eq!(
        trie.lookup(&vec![Key::KeyG, Key::KeyT]),
        Lookup::Command("next_page".to_string())
    );
    assert_eq!(trie.lookup(&vec![Key::KeyG, Key::HoldShift]), Lookup::Interior);
    assert_eq!(
        trie.lookup(&vec![Key::KeyG, Key::HoldShift, Key::KeyT]),
        Lookup::Command("prev_page".to_string())
    );
    assert_eq!(
        trie.lookup(&vec![Key::KeyZ, Key::KeyZ]),
        Lookup::Command("app_quit".to_string())
    );
    assert_eq!(trie.lookup(&vec![Key::KeyG, Key::KeyG]), Lookup::NoMatch);
}

#[test]
fn test_build_rejects_prefix_conflict() {
    assert_eq!(
        create_key_bindings_trie(&entries(&[("scroll_up", "z")])).err(),
        Some(BindingError::PrefixConflict)
    );
    assert_eq!(
        create_key_bindings_trie(&entries(&[("scroll_up", "zzk")])).err(),
        Some(BindingError::PrefixConflict)
    );
    assert_eq!(
        create_key_bindings_trie(&entries(&[
            ("app_quit", "q"),
            ("next_page", "gt"),
            ("prev_page", "g"),
        ]))
        .err(),
        Some(BindingError::PrefixConflict)
    );
}

#[test]
fn test_build_rejects_empty_binding_beside_others() {
    assert_eq!(
        create_key_bindings_trie(&entries(&[("scroll_up", "")])).err(),
        Some(BindingError::PrefixConflict)
    );
}

#[test]
fn test_build_rejects_unparsable_binding() {
    assert_eq!(
        create_key_bindings_trie(&entries(&[("app_quit", "<C-a")])).err(),
        Some(BindingError::Parse(ParseError::Syntax))
    );
    assert_eq!(
        create_key_bindings_trie(&entries(&[("scroll_up", "<Nope>")])).err(),
        Some(BindingError::Parse(ParseError::UnknownKey))
    );
}

#[test]
fn test_build_rejects_unknown_action() {
    assert_eq!(
        create_key_bindings_trie(&entries(&[("fly_away", "f")])).err(),
        Some(BindingError::UnknownAction)
    );
    assert_eq!(
        create_key_bindings_trie(&entries(&[("fly_away", "<")])).err(),
        Some(BindingError::UnknownAction)
    );
}

#[test]
fn test_first_entry_for_a_command_counts() {
    let trie = create_key_bindings_trie(&entries(&[("app_quit", "q"), ("app_quit", "x")])).unwrap();
    assert_eq!(
        trie.lookup(&vec![Key::KeyQ]),
        Lookup::Command("app_quit".to_string())
    );
    assert_eq!(trie.lookup(&vec![Key::KeyX]), Lookup::NoMatch);
}

#[test]
fn test_same_binding_for_two_commands_last_wins() {
    let trie =
        create_key_bindings_trie(&entries(&[("scroll_up", "k"), ("scroll_down", "k")])).unwrap();
    assert_eq!(
        trie.lookup(&vec![Key::KeyK]),
        Lookup::Command("scroll_down".to_string())
    );
}

// The key bindings of the default configuration are the default bindings
// of the commands, and the other way round.
#[test]
fn test_default_key_bindings() {
    let key_bindings_res = Config::default().key_bindings;
    let commands: Vec<Command> = (0..COMMAND_COUNT)
        .map(nth_command)
        .collect();

    for (res_key, res_val) in key_bindings_res.iter() {
        let command = command_from_name(res_key);
        match command.and_then(default_binding_str) {
            Some(exp_val) => assert_eq!(exp_val, res_val),
            None => panic!(
                "Cannot find key-value in default key-binding map for {}",
                res_key
            ),
        }
    }

    for command in commands {
        if let Some(exp_val) = default_binding_str(command) {
            let exp_key = command_name_str(command);
            match key_bindings_res.iter().find(|(k, _)| k == exp_key) {
                Some((_, res_val)) => assert_eq!(exp_val, res_val),
                None => panic!("Cannot find key-value in default Config.toml for {}", exp_key),
            }
        }
    }

    let from_config = create_key_bindings_trie(&key_bindings_res).unwrap();
    assert_eq!(
        from_config.lookup(&vec![Key::KeyZ, Key::KeyZ]),
        Lookup::Command("app_quit".to_string())
    );
}

#[test]
fn test_commands() {
    let names = [
        "app_quit",
        "scroll_up",
        "scroll_down",
        "switch_page",
        "next_page",
        "prev_page",
    ];
    for (n, name) in names.iter().enumerate() {
        let command = nth_command(n);
        assert_eq!(command_name_str(command), *name);
        assert_eq!(command_from_name(name), Some(command));
    }
    assert_eq!(nth_command(0), Command::AppQuit);
    assert_eq!(nth_command(5), Command::PrevPage);
    assert_eq!(command_from_name("quit"), None);
    assert_eq!(command_from_name(""), None);
    assert_eq!(command_from_name("app_quit "), None);
}
