use tjvox::config::OutputConfig;
use tjvox::output::{
    detect_terminal_focused, extract_dbus_string, is_terminal_class, terminal_patterns,
    wtype_paste_args, ydotool_paste_args, OutputManager, OutputMethod,
};

fn output_config(method: &str) -> OutputConfig {
    OutputConfig {
        delay_ms: 100,
        paste_delay_ms: 50,
        append_trailing_space: true,
        method: method.to_string(),
    }
}

#[test]
fn test_extract_dbus_string_basic() {
    let output = "({'resourceClass': <'com.mitchellh.ghostty'>, 'caption': <'Terminal'>},)";
    let result = extract_dbus_string(output, "resourceClass");
    assert_eq!(result, Some("com.mitchellh.ghostty".to_string()));
}

#[test]
fn test_extract_dbus_string_caption() {
    let output = "({'resourceClass': <'firefox'>, 'caption': <'Mozilla Firefox'>},)";
    let result = extract_dbus_string(output, "caption");
    assert_eq!(result, Some("Mozilla Firefox".to_string()));
}

#[test]
fn test_extract_dbus_string_missing_key() {
    let output = "({'resourceClass': <'firefox'>},)";
    let result = extract_dbus_string(output, "nonexistent");
    assert_eq!(result, None);
}

#[test]
fn test_extract_dbus_string_empty_value() {
    let output = "({'resourceClass': <''>},)";
    let result = extract_dbus_string(output, "resourceClass");
    assert_eq!(result, Some(String::new()));
}

#[test]
fn test_extract_dbus_string_empty_input() {
    let result = extract_dbus_string("", "resourceClass");
    assert_eq!(result, None);
}

#[test]
fn test_is_terminal_class_ghostty() {
    assert!(is_terminal_class("com.mitchellh.ghostty"));
}

#[test]
fn test_is_terminal_class_konsole() {
    assert!(is_terminal_class("org.kde.konsole"));
}

#[test]
fn test_is_terminal_class_alacritty() {
    assert!(is_terminal_class("Alacritty"));
}

#[test]
fn test_is_terminal_class_firefox() {
    assert!(!is_terminal_class("firefox"));
}

#[test]
fn test_is_terminal_class_empty() {
    assert!(!is_terminal_class(""));
}

#[test]
fn test_is_terminal_class_kitty() {
    assert!(is_terminal_class("kitty"));
}

#[test]
fn test_is_terminal_class_wezterm() {
    assert!(is_terminal_class("org.wezfurlong.wezterm"));
}

#[test]
fn test_terminal_patterns_count() {
    // Ensure we have a reasonable number of patterns
    assert!(terminal_patterns().len() >= 20);
}

#[test]
fn test_output_manager_new() {
    let config = output_config("auto");
    let manager = OutputManager::new(&config);
    assert!(manager.is_ok());
}

#[test]
fn uppercase_class_is_still_a_terminal() {
    // the class is lowered before matching, so case must not matter
    assert!(is_terminal_class("KONSOLE"));
    assert!(is_terminal_class("Org.WezFurlong.WezTerm"));
}

#[test]
fn choose_method_maps_names_and_falls_back() {
    assert_eq!(OutputManager::new(&output_config("paste")).unwrap().choose_method(), OutputMethod::Paste);
    assert_eq!(OutputManager::new(&output_config("type")).unwrap().choose_method(), OutputMethod::Type);
    assert_eq!(
        OutputManager::new(&output_config("clipboard")).unwrap().choose_method(),
        OutputMethod::Clipboard,
    );
    assert_eq!(OutputManager::new(&output_config("auto")).unwrap().choose_method(), OutputMethod::Auto);
    assert_eq!(OutputManager::new(&output_config("weird")).unwrap().choose_method(), OutputMethod::Auto);
}

#[test]
fn ydotool_args_hold_the_paste_chords() {
    assert_eq!(
        ydotool_paste_args(true),
        vec!["key", "29:1", "42:1", "47:1", "47:0", "42:0", "29:0"],
    );
    assert_eq!(ydotool_paste_args(false), vec!["key", "29:1", "47:1", "47:0", "29:0"]);
    assert_eq!(wtype_paste_args(), vec!["-M", "ctrl", "-k", "v", "-m", "ctrl"]);
}

#[test]
fn detect_terminal_reads_the_window_query() {
    assert!(!detect_terminal_focused(None));
    let terminal = "({'resourceClass': <'com.mitchellh.ghostty'>},)";
    assert!(detect_terminal_focused(Some(terminal)));
    let browser = "({'resourceClass': <'firefox'>},)";
    assert!(!detect_terminal_focused(Some(browser)));
    let empty = "({'resourceClass': <''>},)";
    assert!(!detect_terminal_focused(Some(empty)));
}
