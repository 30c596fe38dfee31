use tjvox::replacements::ReplacementEngine;

fn engine_of(rules: &[(&str, &str)]) -> ReplacementEngine {
    ReplacementEngine::from_rules(
        rules.iter().map(|(k, v)| (k.to_string(), v.to_string())).collect(),
    )
}

#[test]
fn test_replacement_engine_apply() {
    let engine = engine_of(&[("period", "."), ("comma", ",")]);
    let result = engine.apply("Hello period world comma");
    assert_eq!(result, "Hello . world ,");
}

#[test]
fn test_replacement_engine_case_insensitive() {
    let engine = engine_of(&[("period", ".")]);
    let result = engine.apply("Hello PERIOD world Period");
    assert_eq!(result, "Hello . world .");
}

#[test]
fn test_replacement_engine_whole_word_only() {
    let engine = engine_of(&[("period", ".")]);
    // "periods" should not be replaced because of word boundary
    // Only "period" should be replaced
    let result = engine.apply("There are many periods but not period");
    assert_eq!(result, "There are many periods but not .");
}

#[test]
fn test_replacement_engine_special_chars() {
    let engine = engine_of(&[("new line", "\n"), ("new paragraph", "\n\n")]);
    let result = engine.apply("Line one new line Line two new paragraph Line three");
    assert_eq!(result, "Line one \n Line two \n\n Line three");
}

#[test]
fn test_replacement_engine_empty() {
    let engine = engine_of(&[]);
    let text = "Hello world";
    let result = engine.apply(text);
    assert_eq!(result, text);
}

#[test]
fn test_replacement_engine_load_and_apply() {
    let content = r#"[replacements]
"test" = "replaced"
"hello" = "hi"
"#;
    let engine = ReplacementEngine::load(content).unwrap();
    let result = engine.apply("test hello world");
    assert_eq!(result, "replaced hi world");
}

#[test]
fn test_replacement_engine_creates_default() {
    // The default rules file content must itself load, and the rules it
    // carries must work.
    let content = ReplacementEngine::default_content();
    let engine = ReplacementEngine::load(&content).unwrap();
    let result = engine.apply("Hello period world comma");
    assert_eq!(result, "Hello . world ,");
}

#[test]
fn load_rejects_text_that_is_not_toml() {
    assert!(ReplacementEngine::load("this is { not toml").is_err());
}

#[test]
fn load_without_the_table_gives_no_rules() {
    let engine = ReplacementEngine::load("[other]\nx = \"y\"\n").unwrap();
    assert!(engine.rules.is_empty());
    assert_eq!(engine.apply("unchanged"), "unchanged");
}

#[test]
fn keys_with_regex_metacharacters_are_taken_literally() {
    let engine = engine_of(&[("a+b", "sum")]);
    assert_eq!(engine.apply("compute a+b now"), "compute sum now");
    assert_eq!(engine.apply("compute aab now"), "compute aab now");
}
