use tjvox::config::TranscriptionConfig;
use tjvox::error::TjvoxError;
use tjvox::transcribe::{
    is_known_model, model_file_name, thread_count, validate_model_name,
    validate_transcription_config,
};

#[test]
fn model_names_with_separators_are_rejected() {
    assert!(validate_model_name("base").is_ok());
    assert!(validate_model_name("large-v3-turbo").is_ok());
    match validate_model_name("") {
        Err(TjvoxError::Config(m)) => assert_eq!(m, "Model name cannot be empty"),
        other => panic!("expected a configuration error, got {:?}", other),
    }
    assert!(validate_model_name("../etc/passwd").is_err());
    assert!(validate_model_name("a/b").is_err());
    assert!(validate_model_name("a\\b").is_err());
    assert!(validate_model_name("bad\0name").is_err());
}

#[test]
fn known_models_are_the_downloadable_ones() {
    assert!(is_known_model("tiny"));
    assert!(is_known_model("base"));
    assert!(is_known_model("small"));
    assert!(is_known_model("medium"));
    assert!(is_known_model("large-v3-turbo"));
    assert!(!is_known_model("huge"));
    assert!(!is_known_model(""));
}

#[test]
fn model_files_follow_the_naming_scheme() {
    assert_eq!(model_file_name("base"), "ggml-base.bin");
    assert_eq!(model_file_name("large-v3-turbo"), "ggml-large-v3-turbo.bin");
}

#[test]
fn transcription_config_validation_checks_dir_and_name() {
    let good = TranscriptionConfig {
        model: "base".to_string(),
        models_dir: "/data/models".to_string(),
        language: Some("en".to_string()),
        threads: None,
        remove_filler_words: false,
    };
    assert!(validate_transcription_config(&good).is_ok());
    let mut bad = good.clone();
    bad.models_dir = "/data/../etc".to_string();
    assert!(validate_transcription_config(&bad).is_err());
    let mut bad = good.clone();
    bad.model = "a/b".to_string();
    assert!(validate_transcription_config(&bad).is_err());
}

#[test]
fn thread_count_is_clamped_between_one_and_eight() {
    assert_eq!(thread_count(Some(3), 16), 3);
    assert_eq!(thread_count(None, 1), 1);
    assert_eq!(thread_count(None, 2), 1);
    assert_eq!(thread_count(None, 4), 2);
    assert_eq!(thread_count(None, 10), 8);
    assert_eq!(thread_count(None, 64), 8);
}
