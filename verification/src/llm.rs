//! The grammar-correction request: what the daemon asks the chat-completion
//! service, as role and content pairs. Serializing the request and carrying
//! it over the network is the surrounding program's job; a failed request
//! is non-fatal and the daemon core falls back to the uncorrected text.

use vstd::prelude::*;
use vstd::string::StringExecFns;

use crate::config::LlmConfig;
use crate::error::TjvoxError;

verus! {

/// The connection settings of the correction service, as verified code
/// carries them; the HTTP client built from them lives outside.
pub struct LlmProcessor {
    pub endpoint: String,
    pub model: String,
    pub prompt: String,
}

impl LlmProcessor {
    pub fn new(config: &LlmConfig) -> (r: Result<LlmProcessor, TjvoxError>)
        ensures
            r matches Ok(p) && p.endpoint@ == config.endpoint@ && p.model@ == config.model@
                && p.prompt@ == config.prompt@,
    {
        Ok(LlmProcessor {
            endpoint: config.endpoint.clone(),
            model: config.model.clone(),
            prompt: config.prompt.clone(),
        })
    }

    /// The chat messages of one correction request: the configured system
    /// prompt, then the transcript as the user turn.
    pub fn chat_messages(&self, text: &str) -> (r: Vec<(String, String)>)
        ensures
            r.deep_view() =~= seq![("system"@, self.prompt@), ("user"@, text@)],
    {
        let mut r: Vec<(String, String)> = Vec::new();
        r.push((String::from_str("system"), self.prompt.clone()));
        r.push((String::from_str("user"), text.to_owned()));
        proof {
            assert(r.deep_view() =~= seq![("system"@, self.prompt@), ("user"@, text@)]);
        }
        r
    }
}

} // verus!
