//! Core of a voice-dictation daemon: the daemon control-loop state machine,
//! the windowed amplitude estimator, the audio-capture session model, the
//! control-socket protocol, and the text post-processing pipeline, all with
//! verified contracts. Hardware, network and file plumbing lives outside the
//! library and drives these components through plain values.

pub mod amplitude;
pub mod capture;
pub mod config;
pub mod daemon;
pub mod error;
pub mod history;
pub mod input;
pub mod layer_shell;
pub mod llm;
pub mod messages;
pub mod output;
pub mod ptt;
pub mod replacements;
pub mod socket;
pub mod strutil;
pub mod transcribe;
pub mod ui;

use vstd::prelude::*;

verus! {

/// Integer square root: the largest `r` with `r * r <= n`.
pub fn isqrt_u64(n: u64) -> (r: u64)
    ensures
        r * r <= n,
        (r + 1) * (r + 1) > n,
{
    let mut lo: u64 = 0;
    let mut hi: u64 = if n < 4294967295 {
        n + 1
    } else {
        4294967296
    };
    proof {
        assert(hi * hi > n) by (nonlinear_arith)
            requires
                hi > n || (hi == 4294967296u64 && n <= 0xffff_ffff_ffff_ffffu64),
                hi >= 1,
        ;
    }
    while lo + 1 < hi
        invariant
            lo < hi,
            lo * lo <= n,
            hi * hi > n,
            hi <= 4294967296,
        decreases hi - lo,
    {
        let mid: u64 = lo + (hi - lo) / 2;
        proof {
            assert(mid < hi);
            assert(mid * mid < hi * hi <= 4294967296u64 * 4294967296u64) by (nonlinear_arith)
                requires
                    mid < hi,
                    hi <= 4294967296u64,
            ;
        }
        if mid * mid <= n {
            lo = mid;
        } else {
            hi = mid;
        }
    }
    lo
}

} // verus!
