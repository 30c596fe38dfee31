//! The library's error type. Each variant carries its description; `message`
//! renders the same text the daemon reports to the user, with an exact
//! contract over the characters produced.

use vstd::prelude::*;
use vstd::string::StringExecFns;

verus! {

#[verifier::external_type_specification]
#[verifier::external_body]
pub struct ExIoError(std::io::Error);

#[derive(Debug)]
pub enum TjvoxError {
    Config(String),
    Transcription(String),
    Output(String),
    Ui(String),
    Io(String),
    ModelDownload(String),
    ModelLoad(String),
    Llm(String),
    Capture(String),
    Protocol(String),
}

impl TjvoxError {
    /// The full text of this error, prefix and detail.
    pub open spec fn message_spec(&self) -> Seq<char> {
        match self {
            TjvoxError::Config(s) => "Configuration error: "@ + s@,
            TjvoxError::Transcription(s) => "Transcription error: "@ + s@,
            TjvoxError::Output(s) => "Output injection error: "@ + s@,
            TjvoxError::Ui(s) => "UI error: "@ + s@,
            TjvoxError::Io(s) => "IO error: "@ + s@,
            TjvoxError::ModelDownload(s) => "Model download error: "@ + s@,
            TjvoxError::ModelLoad(s) => "Model load error: "@ + s@,
            TjvoxError::Llm(s) => "LLM processing error: "@ + s@,
            TjvoxError::Capture(s) => "Capture error: "@ + s@,
            TjvoxError::Protocol(s) => "Protocol error: "@ + s@,
        }
    }

    /// Renders the error as the text `message_spec` describes.
    pub fn message(&self) -> (r: String)
        ensures
            r@ == self.message_spec(),
    {
        match self {
            TjvoxError::Config(s) => String::from_str("Configuration error: ").concat(s.as_str()),
            TjvoxError::Transcription(s) => String::from_str("Transcription error: ").concat(
                s.as_str(),
            ),
            TjvoxError::Output(s) => String::from_str("Output injection error: ").concat(
                s.as_str(),
            ),
            TjvoxError::Ui(s) => String::from_str("UI error: ").concat(s.as_str()),
            TjvoxError::Io(s) => String::from_str("IO error: ").concat(s.as_str()),
            TjvoxError::ModelDownload(s) => String::from_str("Model download error: ").concat(
                s.as_str(),
            ),
            TjvoxError::ModelLoad(s) => String::from_str("Model load error: ").concat(s.as_str()),
            TjvoxError::Llm(s) => String::from_str("LLM processing error: ").concat(s.as_str()),
            TjvoxError::Capture(s) => String::from_str("Capture error: ").concat(s.as_str()),
            TjvoxError::Protocol(s) => String::from_str("Protocol error: ").concat(s.as_str()),
        }
    }
}

/// Relies on `std::io::Error`'s `Display` impl: the human-readable
/// description of the error; nothing further is promised of its text.
#[verifier::external_body]
fn io_error_text(e: &std::io::Error) -> String {
    format!("{}", e)
}

impl From<std::io::Error> for TjvoxError {
    fn from(e: std::io::Error) -> (r: Self) {
        TjvoxError::Io(io_error_text(&e))
    }
}

impl vstd::std_specs::convert::FromSpecImpl<std::io::Error> for TjvoxError {
    open spec fn obeys_from_spec() -> bool {
        false
    }

    open spec fn from_spec(e: std::io::Error) -> Self {
        choose|t: TjvoxError| #[trigger] (t is Io)
    }
}

} // verus!
