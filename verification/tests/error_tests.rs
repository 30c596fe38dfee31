use tjvox::error::TjvoxError;

#[test]
fn test_error_display_config() {
    let err = TjvoxError::Config("bad value".to_string());
    assert_eq!(err.message(), "Configuration error: bad value");
}

#[test]
fn test_error_display_transcription() {
    let err = TjvoxError::Transcription("failed".to_string());
    assert_eq!(err.message(), "Transcription error: failed");
}

#[test]
fn test_error_display_output() {
    let err = TjvoxError::Output("paste failed".to_string());
    assert_eq!(err.message(), "Output injection error: paste failed");
}

#[test]
fn test_error_display_ui() {
    let err = TjvoxError::Ui("notification error".to_string());
    assert_eq!(err.message(), "UI error: notification error");
}

#[test]
fn test_error_display_model_download() {
    let err = TjvoxError::ModelDownload("HTTP 404".to_string());
    assert_eq!(err.message(), "Model download error: HTTP 404");
}

#[test]
fn test_error_display_model_load() {
    let err = TjvoxError::ModelLoad("corrupt file".to_string());
    assert_eq!(err.message(), "Model load error: corrupt file");
}

#[test]
fn test_error_display_llm() {
    let err = TjvoxError::Llm("timeout".to_string());
    assert_eq!(err.message(), "LLM processing error: timeout");
}

#[test]
fn test_error_from_io() {
    let io_err = std::io::Error::new(std::io::ErrorKind::NotFound, "file not found");
    let err: TjvoxError = io_err.into();
    assert!(err.message().contains("file not found"));
}

#[test]
fn test_error_display_capture() {
    let err = TjvoxError::Capture("device gone".to_string());
    assert_eq!(err.message(), "Capture error: device gone");
}

#[test]
fn test_error_display_protocol() {
    let err = TjvoxError::Protocol("Unknown command: bogus".to_string());
    assert_eq!(err.message(), "Protocol error: Unknown command: bogus");
}
