//! Overlay placement on the layer-shell protocol: the layer and edge
//! constants of the shell library, and the exact anchor sequence each
//! configured position stands for. Loading the shell library and applying
//! the anchors to a window is the surrounding program's job.

use vstd::prelude::*;

use crate::strutil::{chars_of, chars_are};

verus! {

/// The overlay layer of the shell protocol.
pub const LAYER_OVERLAY: u32 = 3;

pub const EDGE_LEFT: u32 = 0;

pub const EDGE_RIGHT: u32 = 1;

pub const EDGE_TOP: u32 = 2;

pub const EDGE_BOTTOM: u32 = 3;

/// The anchor calls a position stands for: every edge reset first, then the
/// edges of the position set. An unknown position, like `center`, keeps no
/// anchors.
pub open spec fn anchors_spec(p: Seq<char>) -> Seq<(u32, i32)> {
    let reset = seq![(0u32, 0i32), (1u32, 0i32), (2u32, 0i32), (3u32, 0i32)];
    reset + (if p == "bottom-center"@ {
        seq![(3u32, 1i32), (0u32, 1i32), (1u32, 1i32)]
    } else if p == "top-center"@ {
        seq![(2u32, 1i32), (0u32, 1i32), (1u32, 1i32)]
    } else if p == "bottom-left"@ {
        seq![(3u32, 1i32), (0u32, 1i32)]
    } else if p == "bottom-right"@ {
        seq![(3u32, 1i32), (1u32, 1i32)]
    } else if p == "top-left"@ {
        seq![(2u32, 1i32), (0u32, 1i32)]
    } else if p == "top-right"@ {
        seq![(2u32, 1i32), (1u32, 1i32)]
    } else {
        Seq::empty()
    })
}

/// The edge/value pairs to anchor an overlay at the configured position, in
/// call order.
pub fn anchors_for_position(position: &str) -> (r: Vec<(u32, i32)>)
    ensures
        r@ == anchors_spec(position@),
{
    let mut r: Vec<(u32, i32)> = Vec::new();
    r.push((EDGE_LEFT, 0));
    r.push((EDGE_RIGHT, 0));
    r.push((EDGE_TOP, 0));
    r.push((EDGE_BOTTOM, 0));
    let p = chars_of(position);
    if chars_are(&p, "bottom-center") {
        r.push((EDGE_BOTTOM, 1));
        r.push((EDGE_LEFT, 1));
        r.push((EDGE_RIGHT, 1));
    } else if chars_are(&p, "top-center") {
        r.push((EDGE_TOP, 1));
        r.push((EDGE_LEFT, 1));
        r.push((EDGE_RIGHT, 1));
    } else if chars_are(&p, "bottom-left") {
        r.push((EDGE_BOTTOM, 1));
        r.push((EDGE_LEFT, 1));
    } else if chars_are(&p, "bottom-right") {
        r.push((EDGE_BOTTOM, 1));
        r.push((EDGE_RIGHT, 1));
    } else if chars_are(&p, "top-left") {
        r.push((EDGE_TOP, 1));
        r.push((EDGE_LEFT, 1));
    } else if chars_are(&p, "top-right") {
        r.push((EDGE_TOP, 1));
        r.push((EDGE_RIGHT, 1));
    }
    proof {
        assert(r@ =~= anchors_spec(position@));
    }
    r
}

} // verus!
