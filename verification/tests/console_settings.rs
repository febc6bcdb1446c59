//! Console mode words and user settings.

use hekk::console::{
    ConsoleModeFlags, ENABLE_LINE_INPUT, ENABLE_PROCESSED_INPUT, ENABLE_QUICK_EDIT_MODE,
    ENABLE_VIRTUAL_TERMINAL_PROCESSING,
};
use hekk::{set_quick_edit_mode, set_virtual_terminal_processing, UserSettings};

#[test]
fn mode_from_bits_accepts_recognized_bits() {
    let mode = ConsoleModeFlags::from_bits(ENABLE_PROCESSED_INPUT | ENABLE_LINE_INPUT)
        .expect("recognized bits");
    assert_eq!(mode.bits(), 0x3);
    assert!(mode.contains(ENABLE_LINE_INPUT));
    assert!(!mode.contains(ENABLE_QUICK_EDIT_MODE));
}

#[test]
fn mode_from_bits_rejects_unrecognized_bits() {
    assert!(ConsoleModeFlags::from_bits(0x400).is_none());
    assert!(ConsoleModeFlags::from_bits(0x400 | ENABLE_LINE_INPUT).is_none());
}

#[test]
fn insert_and_remove_change_exactly_one_flag() {
    let mode = ConsoleModeFlags::from_bits(ENABLE_PROCESSED_INPUT).expect("recognized");
    let with = mode.insert(ENABLE_QUICK_EDIT_MODE);
    assert_eq!(with.bits(), ENABLE_PROCESSED_INPUT | ENABLE_QUICK_EDIT_MODE);
    let without = with.remove(ENABLE_QUICK_EDIT_MODE);
    assert_eq!(without.bits(), ENABLE_PROCESSED_INPUT);
}

#[test]
fn quick_edit_mode_toggles_its_bit() {
    let mode = ConsoleModeFlags::from_bits(ENABLE_PROCESSED_INPUT | ENABLE_QUICK_EDIT_MODE)
        .expect("recognized");
    let off = set_quick_edit_mode(mode, false);
    assert_eq!(off.bits(), ENABLE_PROCESSED_INPUT);
    let on = set_quick_edit_mode(off, true);
    assert_eq!(on.bits(), ENABLE_PROCESSED_INPUT | ENABLE_QUICK_EDIT_MODE);
}

#[test]
fn virtual_terminal_processing_toggles_its_bit() {
    let mode = ConsoleModeFlags::from_bits(0x3).expect("recognized");
    let on = set_virtual_terminal_processing(mode, true);
    assert_eq!(on.bits(), 0x3 | ENABLE_VIRTUAL_TERMINAL_PROCESSING);
    let off = set_virtual_terminal_processing(on, false);
    assert_eq!(off.bits(), 0x3);
}

#[test]
fn default_settings_show_console_without_debug() {
    let s = UserSettings::new();
    assert!(!s.debug);
    assert!(s.console);
}

#[test]
fn settings_path_joins_the_data_directory() {
    let path = UserSettings::settings_path("C:\\Users\\dev\\AppData\\Local\\Hekk");
    assert_eq!(path, "C:\\Users\\dev\\AppData\\Local\\Hekk\\settings.toml");
}

#[test]
fn settings_file_text_has_one_line_per_switch() {
    let s = UserSettings { debug: true, console: false };
    assert_eq!(s.to_file_string(), "debug = true\nconsole = false\n");
}

#[test]
fn settings_file_text_parses_as_toml() {
    let s = UserSettings::new();
    let table: toml::Table = s.to_file_string().parse().expect("valid toml");
    assert_eq!(table["debug"].as_bool(), Some(false));
    assert_eq!(table["console"].as_bool(), Some(true));
}
