use squeekboard::keyboard::{generate_keycodes, Key, KeyCode, KeyState, KeyStateId, PressType};
use squeekboard::layout::ButtonPosition;
use squeekboard::keymap::{generate_keymap, generate_keymaps, KeymapTable};

fn code_of(map: &[(String, KeyCode)], name: &str) -> Option<KeyCode> {
    map.iter().find(|(n, _)| n == name).map(|(_, kc)| *kc)
}

fn names(list: &[&str]) -> Vec<String> {
    list.iter().map(|s| s.to_string()).collect()
}

#[test]
fn test_symbolmap_overflow() {
    // Use Unicode encoding for being able to use in xkb keymaps.
    let keynames: Vec<String> = (0..258).map(|num| format!("U{:04X}", 0x1000 + num)).collect();
    let keycodes = generate_keycodes(keynames);

    assert_eq!(keycodes.into_iter().filter(|(_name, keycode)| keycode.code > 255).count(), 0);
}

#[test]
fn overflow_names_spill_into_further_bins() {
    let keynames: Vec<String> = (0..258).map(|num| format!("U{:04X}", 0x1000 + num)).collect();
    let keycodes = generate_keycodes(keynames);
    // 258 names and the placeholder.
    assert_eq!(keycodes.len(), 259);
    // 47 codes per bin: the last name is the 258th, in bin 2 + 257 / 47 = 7.
    assert_eq!(code_of(&keycodes, "U1101"), Some(KeyCode { code: 34, keymap_idx: 7 }));
    for (_, kc) in &keycodes {
        assert!(kc.code >= 9 && kc.code <= 255);
    }
}

#[test]
fn well_known_names_get_fixed_codes() {
    let keycodes = generate_keycodes(names(&["x1", "A", "a", "x2", "Return", "U0020"]));
    assert_eq!(code_of(&keycodes, "a"), Some(KeyCode { code: 38, keymap_idx: 0 }));
    assert_eq!(code_of(&keycodes, "A"), Some(KeyCode { code: 38, keymap_idx: 1 }));
    assert_eq!(code_of(&keycodes, "Return"), Some(KeyCode { code: 36, keymap_idx: 0 }));
    assert_eq!(code_of(&keycodes, "U0020"), Some(KeyCode { code: 65, keymap_idx: 0 }));
    // Sorted: "A", "Return", "U0020", "a", "x1", "x2"; the generic pass
    // counts every name, placed or not.
    assert_eq!(code_of(&keycodes, "x1"), Some(KeyCode { code: 14, keymap_idx: 2 }));
    assert_eq!(code_of(&keycodes, "x2"), Some(KeyCode { code: 15, keymap_idx: 2 }));
    assert_eq!(code_of(&keycodes, "Unknown"), None);
    assert_eq!(keycodes.len(), 6);
}

#[test]
fn missing_return_adds_placeholder() {
    let keycodes = generate_keycodes(names(&["BackSpace", "emoji"]));
    assert_eq!(code_of(&keycodes, "Unknown"), Some(KeyCode { code: 248, keymap_idx: 0 }));
    assert_eq!(code_of(&keycodes, "BackSpace"), Some(KeyCode { code: 22, keymap_idx: 0 }));
    assert_eq!(code_of(&keycodes, "emoji"), Some(KeyCode { code: 11, keymap_idx: 2 }));
    assert_eq!(keycodes.len(), 3);
}

#[test]
fn empty_names_give_only_placeholder() {
    let keycodes = generate_keycodes(Vec::new());
    assert_eq!(keycodes, vec![("Unknown".to_string(), KeyCode { code: 248, keymap_idx: 0 })]);
}

#[test]
fn order_of_names_does_not_matter() {
    let a = generate_keycodes(names(&["q1", "q2", "q3", "Return"]));
    let b = generate_keycodes(names(&["q3", "Return", "q1", "q2"]));
    for (name, kc) in &a {
        assert_eq!(code_of(&b, name), Some(*kc));
    }
    assert_eq!(a.len(), b.len());
}

#[test]
fn repeated_name_keeps_last_position() {
    let keycodes = generate_keycodes(names(&["k", "k", "Return"]));
    // Sorted: "Return", "k", "k"; "k" is placed anyway.
    assert_eq!(code_of(&keycodes, "k"), Some(KeyCode { code: 45, keymap_idx: 0 }));
    let keycodes = generate_keycodes(names(&["zz", "zz", "Return"]));
    assert_eq!(code_of(&keycodes, "zz"), Some(KeyCode { code: 12, keymap_idx: 2 }));
    assert_eq!(keycodes.len(), 2);
}

#[test]
fn test_keymap_single_resolve() {
    let mut key_map = KeymapTable::new();
    key_map.set(9, "a".into());
    key_map.set(10, "c".into());
    let text = generate_keymap(&key_map).unwrap();
    assert!(text.starts_with(
        "xkb_keymap {\n\n    xkb_keycodes \"squeekboard\" {\n        minimum = 8;\n        maximum = 255;\n\n        <I9> = 9;\n        <I10> = 10;\n        indicator 1 = \"Caps Lock\";"
    ));
    assert!(text.contains("xkb_symbols \"squeekboard\" {\n\n\nkey <I9> { [ a ] };\nkey <I10> { [ c ] };\n    };\n\n    xkb_types"));
    assert!(text.contains("type \"SHIFT+ALT\""));
    assert!(text.contains("interpret Any+AnyOf(all)"));
    assert!(text.ends_with("    };\n};\n"));
}

#[test]
fn keymap_three_digit_code() {
    let mut key_map = KeymapTable::new();
    key_map.set(255, "z".into());
    let text = generate_keymap(&key_map).unwrap();
    assert!(text.contains("\n        <I255> = 255;"));
    assert!(text.contains("\nkey <I255> { [ z ] };"));
    assert!(!text.contains("<I9>"));
}

#[test]
fn test_keymap_second_resolve() {
    let keymaps = generate_keymaps(vec![("a".into(), KeyCode { keymap_idx: 1, code: 9 })]).unwrap();
    assert_eq!(keymaps.len(), 2);
    assert!(keymaps[1].contains("key <I9> { [ a ] };"));
    assert!(keymaps[1].contains("<I9> = 9;"));
    assert!(!keymaps[0].contains("<I"));
}

#[test]
fn keymaps_of_generated_keycodes_resolve_names() {
    let keycodes = generate_keycodes(names(&["a", "A", "smile", "Return"]));
    let keymaps = generate_keymaps(keycodes.clone()).unwrap();
    assert_eq!(keymaps.len(), 3);
    for (name, kc) in &keycodes {
        let line = format!("\nkey <I{}> {{ [ {} ] }};", kc.code, name);
        assert!(keymaps[kc.keymap_idx].contains(&line));
        let binding = format!("\n        <I{}> = {};", kc.code, kc.code);
        assert!(keymaps[kc.keymap_idx].contains(&binding));
    }
}

#[test]
fn later_entry_takes_shared_slot() {
    let keymaps = generate_keymaps(vec![
        ("first".into(), KeyCode { keymap_idx: 0, code: 20 }),
        ("second".into(), KeyCode { keymap_idx: 0, code: 20 }),
    ])
    .unwrap();
    assert_eq!(keymaps.len(), 1);
    assert!(keymaps[0].contains("key <I20> { [ second ] };"));
    assert!(!keymaps[0].contains("first"));
}

#[test]
fn no_entries_no_keymaps() {
    assert_eq!(generate_keymaps(Vec::new()).unwrap().len(), 0);
}

#[test]
fn key_state_press_and_release() {
    let k = KeyState { pressed: PressType::Released };
    let k = k.into_pressed();
    assert_eq!(k.pressed, PressType::Pressed);
    let k = k.into_released();
    assert_eq!(k.pressed, PressType::Released);
}

#[test]
fn key_state_id_from_position() {
    let pos = ButtonPosition { view: 1, row: 2, position_in_row: 3 };
    let id = KeyStateId::from(&pos);
    assert_eq!(id, KeyStateId(pos));
    assert_ne!(id, KeyStateId(ButtonPosition { view: 1, row: 2, position_in_row: 4 }));
    let key = Key { keycodes: vec![KeyCode { code: 38, keymap_idx: 0 }] };
    assert_eq!(key.clone().keycodes, key.keycodes);
}
