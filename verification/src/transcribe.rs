//! Decisions of the transcription service: which model names are safe,
//! where a model file lives, and how many threads a run gets. Loading the
//! model and running the speech engine are the surrounding program's job.

use vstd::prelude::*;
use vstd::string::StringExecFns;

use crate::config::TranscriptionConfig;
use crate::error::TjvoxError;
use crate::strutil::{chars_of, contains_sub, contains_seq};

verus! {

/// The first reason a model name is unsafe, if any: empty, a path
/// separator or traversal, or a null byte.
pub open spec fn model_name_error(n: Seq<char>) -> Option<Seq<char>> {
    if n.len() == 0 {
        Some("Model name cannot be empty"@)
    } else if contains_seq(n, ".."@) || n.contains('/') || n.contains('\\') {
        Some("Invalid model name: contains path separators"@)
    } else if n.contains('\u{0}') {
        Some("Invalid model name: contains null bytes"@)
    } else {
        None
    }
}

/// Rejects model names that could escape the models directory: empty
/// names, separators, traversal and null bytes are configuration errors.
pub fn validate_model_name(name: &str) -> (r: Result<(), TjvoxError>)
    ensures
        r is Ok <==> model_name_error(name@) is None,
        r matches Err(e) ==> e matches TjvoxError::Config(m) && m@ == model_name_error(
            name@,
        ).unwrap(),
{
    let v = chars_of(name);
    if v.len() == 0 {
        return Err(TjvoxError::Config(String::from_str("Model name cannot be empty")));
    }
    let dotdot = chars_of("..");
    let mut has_sep = contains_sub(&v, &dotdot);
    let mut has_nul = false;
    let n = v.len();
    for i in 0..n
        invariant
            n == v@.len(),
            has_sep == (contains_seq(v@, ".."@) || exists|j: int|
                0 <= j < i && (v@[j] == '/' || v@[j] == '\\')),
            has_nul == exists|j: int| 0 <= j < i && v@[j] == '\u{0}',
    {
        if v[i] == '/' || v[i] == '\\' {
            has_sep = true;
        }
        if v[i] == '\u{0}' {
            has_nul = true;
        }
    }
    proof {
        assert(has_sep == (contains_seq(v@, ".."@) || v@.contains('/') || v@.contains('\\')));
        assert(has_nul == v@.contains('\u{0}'));
    }
    if has_sep {
        return Err(TjvoxError::Config(String::from_str(
            "Invalid model name: contains path separators",
        )));
    }
    if has_nul {
        return Err(TjvoxError::Config(String::from_str("Invalid model name: contains null bytes")));
    }
    Ok(())
}

/// The models that can be fetched from the model repository; other names
/// are allowed but worth a warning.
pub open spec fn known_models() -> Seq<Seq<char>> {
    seq!["tiny"@, "base"@, "small"@, "medium"@, "large-v3-turbo"@]
}

/// Whether the name is one of the models the downloader knows.
pub fn is_known_model(name: &str) -> (r: bool)
    ensures
        r == known_models().contains(name@),
{
    let v = chars_of(name);
    if crate::strutil::chars_are(&v, "tiny") {
        proof {
            assert(known_models()[0] == name@);
        }
        true
    } else if crate::strutil::chars_are(&v, "base") {
        proof {
            assert(known_models()[1] == name@);
        }
        true
    } else if crate::strutil::chars_are(&v, "small") {
        proof {
            assert(known_models()[2] == name@);
        }
        true
    } else if crate::strutil::chars_are(&v, "medium") {
        proof {
            assert(known_models()[3] == name@);
        }
        true
    } else if crate::strutil::chars_are(&v, "large-v3-turbo") {
        proof {
            assert(known_models()[4] == name@);
        }
        true
    } else {
        proof {
            if known_models().contains(name@) {
                let i = choose|i: int| 0 <= i < 5 && known_models()[i] == name@;
                assert(false);
            }
        }
        false
    }
}

/// The file name a model is stored under.
pub fn model_file_name(model: &str) -> (r: String)
    ensures
        r@ == "ggml-"@ + model@ + ".bin"@,
{
    String::from_str("ggml-").concat(model).concat(".bin")
}

/// Checks a transcription configuration the way the service demands it:
/// a safe model name and a models directory without traversal.
pub fn validate_transcription_config(config: &TranscriptionConfig) -> (r: Result<(), TjvoxError>)
    ensures
        r is Ok <==> (model_name_error(config.model@) is None && !contains_seq(
            config.models_dir@,
            ".."@,
        )),
        r matches Err(e) ==> e is Config,
{
    validate_model_name(config.model.as_str())?;
    let dir = chars_of(config.models_dir.as_str());
    let dotdot = chars_of("..");
    if contains_sub(&dir, &dotdot) {
        return Err(TjvoxError::Config(String::from_str(
            "models_dir cannot contain path traversal sequences",
        )));
    }
    Ok(())
}

/// How many threads a transcription run uses: the configured count, or
/// else all but two of the machine's, clamped between 1 and 8.
pub fn thread_count(configured: Option<u32>, cpus: u32) -> (r: u32)
    ensures
        configured matches Some(t) ==> r == t,
        configured is None ==> r == (if cpus <= 2 {
            1u32
        } else if cpus - 2 > 8 {
            8u32
        } else {
            (cpus - 2) as u32
        }),
{
    match configured {
        Some(t) => t,
        None => {
            let reduced = if cpus <= 2 {
                0
            } else {
                cpus - 2
            };
            let capped = if reduced > 8 {
                8
            } else {
                reduced
            };
            if capped < 1 {
                1
            } else {
                capped
            }
        },
    }
}

} // verus!
