use tjvox::input::{parse_layout_config, InputEvent, KeyCombo, VirtualKeyboard};

fn key(code: u16, value: i32) -> InputEvent {
    InputEvent { tv_sec: 0, tv_usec: 0, type_: 1, code, value }
}

fn syn() -> InputEvent {
    InputEvent { tv_sec: 0, tv_usec: 0, type_: 0, code: 0, value: 0 }
}

#[test]
fn layout_entries_build_the_map_with_offset() {
    // keymap code 38 is input-event code 30; level 0 is plain, level 1 shifted
    let entries = vec![(38u32, 0u8, 'a'), (38u32, 1u8, 'A')];
    let vk = VirtualKeyboard::from_layout_entries(&entries);
    assert_eq!(vk.lookup('a'), Some(KeyCombo { keycode: 30, shift: false, altgr: false }));
    assert_eq!(vk.lookup('A'), Some(KeyCombo { keycode: 30, shift: true, altgr: false }));
    assert_eq!(vk.lookup('b'), None);
}

#[test]
fn the_lowest_level_entry_wins() {
    let entries = vec![(38u32, 0u8, 'a'), (39u32, 1u8, 'a')];
    let vk = VirtualKeyboard::from_layout_entries(&entries);
    assert_eq!(vk.lookup('a'), Some(KeyCombo { keycode: 30, shift: false, altgr: false }));
}

#[test]
fn entries_below_the_offset_and_above_level_three_are_dropped() {
    let entries = vec![(5u32, 0u8, 'x'), (40u32, 4u8, 'y')];
    let vk = VirtualKeyboard::from_layout_entries(&entries);
    assert_eq!(vk.lookup('x'), None);
    assert_eq!(vk.lookup('y'), None);
}

#[test]
fn enter_and_tab_always_type() {
    let vk = VirtualKeyboard::from_layout_entries(&vec![]);
    assert_eq!(vk.lookup('\n'), Some(KeyCombo { keycode: 28, shift: false, altgr: false }));
    assert_eq!(vk.lookup('\t'), Some(KeyCombo { keycode: 15, shift: false, altgr: false }));
}

#[test]
fn plain_character_event_sequence() {
    let entries = vec![(38u32, 0u8, 'a')];
    let vk = VirtualKeyboard::from_layout_entries(&entries);
    assert_eq!(
        vk.events_for_text("a"),
        vec![key(30, 1), syn(), key(30, 0), syn()],
    );
}

#[test]
fn shifted_character_wraps_the_key_in_shift() {
    let entries = vec![(38u32, 1u8, 'A')];
    let vk = VirtualKeyboard::from_layout_entries(&entries);
    assert_eq!(
        vk.events_for_text("A"),
        vec![key(42, 1), key(30, 1), syn(), key(30, 0), key(42, 0), syn()],
    );
}

#[test]
fn altgr_character_uses_the_level_three_key() {
    let entries = vec![(38u32, 2u8, '@')];
    let vk = VirtualKeyboard::from_layout_entries(&entries);
    assert_eq!(
        vk.events_for_text("@"),
        vec![key(100, 1), key(30, 1), syn(), key(30, 0), key(100, 0), syn()],
    );
}

#[test]
fn layout_config_names_layout_and_variant() {
    let content = "[Layout]\nLayoutList=no,us\nVariantList=winkeys,\nUse=true\n";
    let choice = parse_layout_config(content).unwrap();
    assert_eq!(choice.layout, "no");
    assert_eq!(choice.variant, "winkeys");
}

#[test]
fn layout_config_later_lines_win_and_whitespace_is_trimmed() {
    let content = "LayoutList=us\n  LayoutList=de  \n";
    let choice = parse_layout_config(content).unwrap();
    assert_eq!(choice.layout, "de");
    assert_eq!(choice.variant, "");
}

#[test]
fn layout_config_without_a_layout_gives_nothing() {
    assert!(parse_layout_config("").is_none());
    assert!(parse_layout_config("[Layout]\nUse=true\n").is_none());
    assert!(parse_layout_config("LayoutList=\n").is_none());
}

#[test]
fn unmapped_characters_are_skipped() {
    let entries = vec![(38u32, 0u8, 'a')];
    let vk = VirtualKeyboard::from_layout_entries(&entries);
    assert_eq!(
        vk.events_for_text("xay"),
        vec![key(30, 1), syn(), key(30, 0), syn()],
    );
}
