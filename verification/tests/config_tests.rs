use tjvox::config::{Config, LlmConfig, WhisperMode};
use tjvox::error::TjvoxError;

#[test]
fn test_config_default_values() {
    let config = Config::default();
    assert_eq!(config.audio.sample_rate, 16000);
    assert_eq!(config.audio.channels, 1);
    assert_eq!(config.transcription.model, "base");
    assert!(config.overlay.enabled);
    assert_eq!(config.overlay.width, 280);
}

#[test]
fn test_config_validation_invalid_sample_rate() {
    let mut config = Config::default();
    config.audio.sample_rate = 0;
    assert!(config.validate().is_err());
}

#[test]
fn test_config_validation_invalid_overlay_size() {
    let mut config = Config::default();
    config.overlay.width = 10; // Too small
    assert!(config.validate().is_err());

    config.overlay.width = 500;
    config.overlay.height = 500; // Too big
    assert!(config.validate().is_err());
}

#[test]
fn test_config_validation_invalid_opacity() {
    let mut config = Config::default();
    config.overlay.opacity_permille = 1500;
    assert!(config.validate().is_err());

    config.overlay.opacity_permille = -500;
    assert!(config.validate().is_err());
}

#[test]
fn test_config_validation_path_traversal() {
    let mut config = Config::default();
    config.audio.temp_dir = "/tmp/../etc".to_string();
    assert!(config.validate().is_err());
}

#[test]
fn test_config_validation_valid_values() {
    let config = Config::default();
    assert!(config.validate().is_ok());
}

#[test]
fn test_llm_config_defaults() {
    let config = LlmConfig::default();
    assert!(!config.enabled);
    assert_eq!(config.endpoint, "http://localhost:11434/v1/chat/completions");
    assert_eq!(config.model, "llama3");
    assert_eq!(config.timeout_ms, 5000);
    assert!(config.api_key.is_empty());
}

#[test]
fn test_llm_validation_disabled_skips_checks() {
    let mut config = Config::default();
    config.llm.enabled = false;
    config.llm.endpoint = String::new(); // Would fail if enabled
    assert!(config.validate().is_ok());
}

#[test]
fn test_llm_validation_empty_endpoint() {
    let mut config = Config::default();
    config.llm.enabled = true;
    config.llm.endpoint = String::new();
    assert!(config.validate().is_err());
}

#[test]
fn test_llm_validation_empty_model() {
    let mut config = Config::default();
    config.llm.enabled = true;
    config.llm.model = String::new();
    assert!(config.validate().is_err());
}

#[test]
fn test_llm_validation_timeout_too_low() {
    let mut config = Config::default();
    config.llm.enabled = true;
    config.llm.timeout_ms = 500;
    assert!(config.validate().is_err());
}

#[test]
fn test_llm_validation_timeout_too_high() {
    let mut config = Config::default();
    config.llm.enabled = true;
    config.llm.timeout_ms = 60000;
    assert!(config.validate().is_err());
}

#[test]
fn test_llm_validation_valid_enabled() {
    let mut config = Config::default();
    config.llm.enabled = true;
    assert!(config.validate().is_ok());
}

#[test]
fn test_validation_error_message_is_exact() {
    let mut config = Config::default();
    config.audio.sample_rate = 0;
    match config.validate() {
        Err(TjvoxError::Config(m)) => {
            assert_eq!(m, "sample_rate must be greater than 0");
        }
        other => panic!("expected a configuration error, got {:?}", other),
    }
}

#[test]
fn test_validation_reports_first_broken_rule() {
    let mut config = Config::default();
    config.audio.channels = 0;
    config.history.max_entries = 0;
    match config.validate() {
        Err(TjvoxError::Config(m)) => {
            assert_eq!(m, "channels must be greater than 0");
        }
        other => panic!("expected a configuration error, got {:?}", other),
    }
}

#[test]
fn test_history_max_entries_bounds() {
    let mut config = Config::default();
    config.history.max_entries = 0;
    assert!(config.validate().is_err());
    config.history.max_entries = 100001;
    assert!(config.validate().is_err());
    config.history.max_entries = 100000;
    assert!(config.validate().is_ok());
}

#[test]
fn test_whisper_mode_names() {
    assert_eq!(WhisperMode::Hot.name(), "hot");
    assert_eq!(WhisperMode::Cold.name(), "cold");
    assert_eq!(WhisperMode::default(), WhisperMode::Cold);
}

#[test]
fn test_config_path_validation() {
    assert!(Config::validate_config_path("/home/user/.config/tjvox/config.toml").is_ok());
    assert!(Config::validate_config_path("/home/user/../../etc/passwd").is_err());
}
