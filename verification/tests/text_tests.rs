use tjvox::layer_shell::{
    anchors_for_position, EDGE_BOTTOM, EDGE_LEFT, EDGE_RIGHT, EDGE_TOP, LAYER_OVERLAY,
};
use tjvox::llm::LlmProcessor;
use tjvox::config::LlmConfig;
use tjvox::strutil::{char_prefix, collapse_spaces, chars_of, trim_chars, u64_to_string};

#[test]
fn test_layer_constants() {
    assert_eq!(LAYER_OVERLAY, 3);
    assert_eq!(EDGE_LEFT, 0);
    assert_eq!(EDGE_RIGHT, 1);
    assert_eq!(EDGE_TOP, 2);
    assert_eq!(EDGE_BOTTOM, 3);
}

#[test]
fn anchor_sequences_reset_then_set() {
    let a = anchors_for_position("bottom-center");
    assert_eq!(a, vec![(0, 0), (1, 0), (2, 0), (3, 0), (3, 1), (0, 1), (1, 1)]);
    let a = anchors_for_position("top-right");
    assert_eq!(a, vec![(0, 0), (1, 0), (2, 0), (3, 0), (2, 1), (1, 1)]);
    let a = anchors_for_position("center");
    assert_eq!(a, vec![(0, 0), (1, 0), (2, 0), (3, 0)]);
    let a = anchors_for_position("nonsense");
    assert_eq!(a, vec![(0, 0), (1, 0), (2, 0), (3, 0)]);
}

#[test]
fn decimal_rendering_is_exact() {
    assert_eq!(u64_to_string(0), "0");
    assert_eq!(u64_to_string(7), "7");
    assert_eq!(u64_to_string(1024), "1024");
    assert_eq!(u64_to_string(u64::MAX), "18446744073709551615");
}

#[test]
fn collapsing_and_trimming_behave_like_the_pipeline() {
    let v = chars_of("a   b  c");
    let collapsed: String = collapse_spaces(&v).into_iter().collect();
    assert_eq!(collapsed, "a b c");
    let v = chars_of("  padded\t\n");
    let trimmed: String = trim_chars(&v).into_iter().collect();
    assert_eq!(trimmed, "padded");
}

#[test]
fn prefixes_count_characters_not_bytes() {
    assert_eq!(char_prefix("hello", 50), "hello");
    assert_eq!(char_prefix("hello", 2), "he");
    assert_eq!(char_prefix("héllo", 2), "hé");
}

#[test]
fn test_llm_processor_new() {
    let config = LlmConfig {
        enabled: true,
        endpoint: "http://localhost:11434/v1/chat/completions".to_string(),
        api_key: String::new(),
        model: "llama3".to_string(),
        prompt: "Fix grammar.".to_string(),
        timeout_ms: 5000,
    };
    let processor = LlmProcessor::new(&config);
    assert!(processor.is_ok());
}

#[test]
fn test_llm_processor_with_api_key() {
    let config = LlmConfig {
        enabled: true,
        endpoint: "https://api.openai.com/v1/chat/completions".to_string(),
        api_key: "sk-test-key".to_string(),
        model: "gpt-4".to_string(),
        prompt: "Fix grammar.".to_string(),
        timeout_ms: 10000,
    };
    let processor = LlmProcessor::new(&config);
    assert!(processor.is_ok());
}

#[test]
fn chat_messages_hold_prompt_then_text() {
    let config = LlmConfig::default();
    let p = LlmProcessor::new(&config).unwrap();
    let msgs = p.chat_messages("hello world");
    assert_eq!(msgs.len(), 2);
    assert_eq!(msgs[0].0, "system");
    assert_eq!(msgs[0].1, "Fix grammar and punctuation. Output only the corrected text.");
    assert_eq!(msgs[1].0, "user");
    assert_eq!(msgs[1].1, "hello world");
}
