use ravana::bindings::format_key_combination;
use ravana::bindings::parse_to_key_combination;
use ravana::bindings::ParseError;
use ravana::keys::key_to_code;
use ravana::keys::Key;
use ravana::keys::KeyCombination;
use std::collections::HashMap;

fn all_keys() -> Vec<Key> {
    vec![
        Key::KeyA, Key::KeyB, Key::KeyC, Key::KeyD, Key::KeyE, Key::KeyF, Key::KeyG,
        Key::KeyH, Key::KeyI, Key::KeyJ, Key::KeyK, Key::KeyL, Key::KeyM, Key::KeyN,
        Key::KeyO, Key::KeyP, Key::KeyQ, Key::KeyR, Key::KeyS, Key::KeyT, Key::KeyU,
        Key::KeyV, Key::KeyW, Key::KeyX, Key::KeyY, Key::KeyZ, Key::KeyEnter,
        Key::KeyEsc, Key::KeySpace, Key::KeyBackspace, Key::KeyTab, Key::KeyUp,
        Key::KeyDown, Key::KeyLeft, Key::KeyRight, Key::KeyF1, Key::KeyF2, Key::KeyF3,
        Key::KeyF4, Key::KeyF5, Key::KeyF6, Key::KeyF7, Key::KeyF8, Key::KeyF9,
        Key::KeyF10, Key::KeyF11, Key::KeyF12, Key::KeyInsert, Key::KeyDel,
        Key::KeyHome, Key::KeyEnd, Key::KeyPageUp, Key::KeyPageDown, Key::HoldCtrl,
        Key::HoldShift, Key::HoldAlt,
    ]
}

// Every key has a code, and no two keys share one.
#[test]
fn test_key_to_code() {
    let mut key_codes: HashMap<u8, Key> = HashMap::new();
    for key in all_keys() {
        let code = key_to_code(&key);
        if let Some(matching_key) = key_codes.get(&code) {
            panic!(
                "Matching code {} exists for another key: {:?} & {:?}",
                code, key, matching_key
            );
        }
        key_codes.insert(code, key);
    }
    assert_eq!(key_codes.len(), 56);
}

#[test]
fn test_key_codes_exact() {
    assert_eq!(key_to_code(&Key::KeyA), 0x01);
    assert_eq!(key_to_code(&Key::KeyZ), 0x1a);
    assert_eq!(key_to_code(&Key::KeyEnter), 0x1b);
    assert_eq!(key_to_code(&Key::KeyPageDown), 0x35);
    assert_eq!(key_to_code(&Key::HoldCtrl), 0x36);
    assert_eq!(key_to_code(&Key::HoldShift), 0x37);
    assert_eq!(key_to_code(&Key::HoldAlt), 0x38);
}

// Binding strings parse to the key combinations they stand for.
#[test]
fn test_parse_to_key_combination() {
    let key_comb1: KeyCombination = vec![Key::HoldCtrl, Key::KeyB];
    assert_eq!(key_comb1, parse_to_key_combination("<C-b>").unwrap());

    let key_comb2: KeyCombination = vec![Key::KeyEsc];
    assert_eq!(key_comb2, parse_to_key_combination("<Esc>").unwrap());

    let key_comb3: KeyCombination = vec![Key::HoldCtrl, Key::KeyTab];
    assert_eq!(key_comb3, parse_to_key_combination("<C-Tab>").unwrap());

    let key_comb4: KeyCombination = vec![Key::HoldCtrl, Key::KeyA, Key::KeyG];
    assert_eq!(key_comb4, parse_to_key_combination("<C-a>g").unwrap());

    let key_comb5: KeyCombination = vec![Key::KeyG, Key::KeyG];
    assert_eq!(key_comb5, parse_to_key_combination("gg").unwrap());

    let key_comb6: KeyCombination = vec![Key::KeySpace, Key::KeyX];
    assert_eq!(key_comb6, parse_to_key_combination("<Space>x").unwrap());

    let key_comb7: KeyCombination = vec![Key::KeyG, Key::KeyEsc];
    assert_eq!(key_comb7, parse_to_key_combination("g<Esc>").unwrap());
}

#[test]
fn test_parse_empty_binding() {
    assert_eq!(parse_to_key_combination(""), Ok(vec![]));
}

#[test]
fn test_parse_upper_case_letter_implies_shift() {
    assert_eq!(
        parse_to_key_combination("gG"),
        Ok(vec![Key::KeyG, Key::HoldShift, Key::KeyG])
    );
}

#[test]
fn test_parse_letter_k() {
    assert_eq!(parse_to_key_combination("k"), Ok(vec![Key::KeyK]));
    assert_eq!(
        parse_to_key_combination("<C-k>"),
        Ok(vec![Key::HoldCtrl, Key::KeyK])
    );
}

#[test]
fn test_parse_aliases() {
    assert_eq!(parse_to_key_combination("<CR>"), Ok(vec![Key::KeyEnter]));
    assert_eq!(parse_to_key_combination("<Enter>"), Ok(vec![Key::KeyEnter]));
    assert_eq!(parse_to_key_combination("<Return>"), Ok(vec![Key::KeyEnter]));
    assert_eq!(
        parse_to_key_combination("<M-x>"),
        Ok(vec![Key::HoldAlt, Key::KeyX])
    );
    assert_eq!(
        parse_to_key_combination("<A-x>"),
        Ok(vec![Key::HoldAlt, Key::KeyX])
    );
    assert_eq!(
        parse_to_key_combination("<C-S-A-F12>"),
        Ok(vec![Key::HoldCtrl, Key::HoldShift, Key::HoldAlt, Key::KeyF12])
    );
    assert_eq!(
        parse_to_key_combination("<BS><PageUp><PageDown><Insert><Del><Home><End>"),
        Ok(vec![
            Key::KeyBackspace,
            Key::KeyPageUp,
            Key::KeyPageDown,
            Key::KeyInsert,
            Key::KeyDel,
            Key::KeyHome,
            Key::KeyEnd
        ])
    );
}

#[test]
fn test_parse_syntax_errors() {
    assert_eq!(parse_to_key_combination("<<C>>"), Err(ParseError::Syntax));
    assert_eq!(parse_to_key_combination("<C-a"), Err(ParseError::Syntax));
    assert_eq!(parse_to_key_combination("a-b"), Err(ParseError::Syntax));
    assert_eq!(parse_to_key_combination("a>"), Err(ParseError::Syntax));
    assert_eq!(parse_to_key_combination("<"), Err(ParseError::Syntax));
    assert_eq!(parse_to_key_combination("<C<"), Err(ParseError::Syntax));
}

#[test]
fn test_parse_unknown_keys() {
    assert_eq!(parse_to_key_combination("<Foo>"), Err(ParseError::UnknownKey));
    assert_eq!(parse_to_key_combination("<>"), Err(ParseError::UnknownKey));
    assert_eq!(parse_to_key_combination("<C->"), Err(ParseError::UnknownKey));
    assert_eq!(parse_to_key_combination("<C-B>"), Err(ParseError::UnknownKey));
    assert_eq!(parse_to_key_combination("1"), Err(ParseError::UnknownKey));
    assert_eq!(parse_to_key_combination("g g"), Err(ParseError::UnknownKey));
    assert_eq!(parse_to_key_combination("<esc>"), Err(ParseError::UnknownKey));
    assert_eq!(parse_to_key_combination("é"), Err(ParseError::UnknownKey));
}

#[test]
fn test_parse_first_error_wins() {
    assert_eq!(parse_to_key_combination("1<"), Err(ParseError::UnknownKey));
    assert_eq!(parse_to_key_combination("-1"), Err(ParseError::Syntax));
}

#[test]
fn test_format_key_combination() {
    assert_eq!(
        format_key_combination(&vec![Key::HoldCtrl, Key::KeyA, Key::KeyG]),
        "<C>ag"
    );
    assert_eq!(format_key_combination(&vec![]), "");
    assert_eq!(
        format_key_combination(&vec![Key::KeySpace, Key::KeyX, Key::KeyBackspace]),
        "<Space>x<BS>"
    );
    assert_eq!(
        format_key_combination(&vec![Key::HoldShift, Key::HoldAlt, Key::KeyEnter]),
        "<S><A><Enter>"
    );
}

// Printing any key and parsing the text gives the key back.
#[test]
fn test_print_then_parse_every_key() {
    for key in all_keys() {
        let text = format_key_combination(&vec![key]);
        assert_eq!(parse_to_key_combination(&text), Ok(vec![key]));
    }
    let all = all_keys();
    let text = format_key_combination(&all);
    assert_eq!(parse_to_key_combination(&text), Ok(all));
}

// Printing what a binding parses to gives a binding of the same meaning.
#[test]
fn test_canonical_form() {
    for s in ["<C-a>g", "gg", "<Space>x", "g<Esc>", "<CR>", "<M-Tab>", "G"] {
        let keys = parse_to_key_combination(s).unwrap();
        let canonical = format_key_combination(&keys);
        assert_eq!(parse_to_key_combination(&canonical), Ok(keys));
    }
    let keys = parse_to_key_combination("<C-a>g").unwrap();
    assert_eq!(format_key_combination(&keys), "<C>ag");
    let keys = parse_to_key_combination("<Return>G").unwrap();
    assert_eq!(format_key_combination(&keys), "<Enter><S>g");
}
