//! The push-to-talk key monitor's decision logic: mapping a configured key
//! name to its input-event key code, and classifying raw key events into
//! push-to-talk transitions. Watching the input devices themselves is the
//! surrounding program's job.

use vstd::prelude::*;
use vstd::string::StringExecFns;

use crate::error::TjvoxError;
use crate::strutil::{chars_of, chars_are, eq_chars};

verus! {

#[derive(Debug, Clone, Copy, PartialEq, Eq, Structural)]
pub enum PttEvent {
    KeyDown,
    KeyUp,
}

/// A key-down press begins push-to-talk; releasing ends it; autorepeat is
/// ignored.
pub fn classify_key_value(value: i32) -> (r: Option<PttEvent>)
    ensures
        value == 1 ==> r == Some(PttEvent::KeyDown),
        value == 0 ==> r == Some(PttEvent::KeyUp),
        value != 0 && value != 1 ==> r is None,
{
    if value == 1 {
        Some(PttEvent::KeyDown)
    } else if value == 0 {
        Some(PttEvent::KeyUp)
    } else {
        None
    }
}

/// The uppercased form of `s`; a function of the characters alone.
pub uninterp spec fn upper_of(s: Seq<char>) -> Seq<char>;

/// Relies on str::to_uppercase: the uppercased text, depending on the
/// characters alone; an empty string stays empty.
#[verifier::external_body]
fn uppercase(s: &str) -> (r: String)
    ensures
        r@ == upper_of(s@),
        s@.len() == 0 ==> r@.len() == 0,
{
    s.to_uppercase()
}

/// The uppercased name with the `KEY_` prefix supplied when missing.
pub open spec fn normalized_key_name(s: Seq<char>) -> Seq<char> {
    let u = upper_of(s);
    if u.len() >= 4 && u.subrange(0, 4) == "KEY_"@ {
        u
    } else {
        "KEY_"@ + u
    }
}

/// The input-event key code a normalized key name stands for. The accepted
/// keys are the ones safe to dedicate to push-to-talk: the function keys and
/// a few rarely-typed keys.
pub open spec fn key_code_of(n: Seq<char>) -> Option<u16> {
    if n == "KEY_F1"@ {
        Some(59u16)
    } else if n == "KEY_F2"@ {
        Some(60u16)
    } else if n == "KEY_F3"@ {
        Some(61u16)
    } else if n == "KEY_F4"@ {
        Some(62u16)
    } else if n == "KEY_F5"@ {
        Some(63u16)
    } else if n == "KEY_F6"@ {
        Some(64u16)
    } else if n == "KEY_F7"@ {
        Some(65u16)
    } else if n == "KEY_F8"@ {
        Some(66u16)
    } else if n == "KEY_F9"@ {
        Some(67u16)
    } else if n == "KEY_F10"@ {
        Some(68u16)
    } else if n == "KEY_F11"@ {
        Some(87u16)
    } else if n == "KEY_F12"@ {
        Some(88u16)
    } else if n == "KEY_F13"@ {
        Some(183u16)
    } else if n == "KEY_F14"@ {
        Some(184u16)
    } else if n == "KEY_F15"@ {
        Some(185u16)
    } else if n == "KEY_F16"@ {
        Some(186u16)
    } else if n == "KEY_F17"@ {
        Some(187u16)
    } else if n == "KEY_F18"@ {
        Some(188u16)
    } else if n == "KEY_F19"@ {
        Some(189u16)
    } else if n == "KEY_F20"@ {
        Some(190u16)
    } else if n == "KEY_F21"@ {
        Some(191u16)
    } else if n == "KEY_F22"@ {
        Some(192u16)
    } else if n == "KEY_F23"@ {
        Some(193u16)
    } else if n == "KEY_F24"@ {
        Some(194u16)
    } else if n == "KEY_SCROLLLOCK"@ {
        Some(70u16)
    } else if n == "KEY_PAUSE"@ {
        Some(119u16)
    } else if n == "KEY_INSERT"@ {
        Some(110u16)
    } else if n == "KEY_PRINT"@ {
        Some(210u16)
    } else if n == "KEY_RIGHTALT"@ {
        Some(100u16)
    } else if n == "KEY_RIGHTCTRL"@ {
        Some(97u16)
    } else if n == "KEY_LEFTMETA"@ {
        Some(125u16)
    } else if n == "KEY_RIGHTMETA"@ {
        Some(126u16)
    } else if n == "KEY_CAPSLOCK"@ {
        Some(58u16)
    } else {
        None
    }
}

/// Maps a configured key name, in any letter case and with or without the
/// `KEY_` prefix, to its input-event key code.
pub fn parse_key_name(name: &str) -> (r: Option<u16>)
    ensures
        r == key_code_of(normalized_key_name(name@)),
{
    let upper = uppercase(name);
    let u = chars_of(upper.as_str());
    let prefix = chars_of("KEY_");
    let prefixed: bool = if u.len() >= 4 {
        let mut head: Vec<char> = Vec::new();
        for i in 0..4usize
            invariant
                u@.len() >= 4,
                head@ == u@.subrange(0, i as int),
        {
            head.push(u[i]);
            proof {
                assert(head@ =~= u@.subrange(0, i + 1));
            }
        }
        eq_chars(&head, &prefix)
    } else {
        false
    };
    let full: Vec<char> = if prefixed {
        u
    } else {
        let mut f = prefix;
        let n = u.len();
        for i in 0..n
            invariant
                n == u@.len(),
                f@ == "KEY_"@ + u@.subrange(0, i as int),
        {
            f.push(u[i]);
            proof {
                assert(f@ =~= "KEY_"@ + u@.subrange(0, i + 1));
            }
        }
        proof {
            assert(f@ =~= "KEY_"@ + u@);
        }
        f
    };
    proof {
        assert(full@ == normalized_key_name(name@));
    }
    if chars_are(&full, "KEY_F1") {
        Some(59)
    } else if chars_are(&full, "KEY_F2") {
        Some(60)
    } else if chars_are(&full, "KEY_F3") {
        Some(61)
    } else if chars_are(&full, "KEY_F4") {
        Some(62)
    } else if chars_are(&full, "KEY_F5") {
        Some(63)
    } else if chars_are(&full, "KEY_F6") {
        Some(64)
    } else if chars_are(&full, "KEY_F7") {
        Some(65)
    } else if chars_are(&full, "KEY_F8") {
        Some(66)
    } else if chars_are(&full, "KEY_F9") {
        Some(67)
    } else if chars_are(&full, "KEY_F10") {
        Some(68)
    } else if chars_are(&full, "KEY_F11") {
        Some(87)
    } else if chars_are(&full, "KEY_F12") {
        Some(88)
    } else if chars_are(&full, "KEY_F13") {
        Some(183)
    } else if chars_are(&full, "KEY_F14") {
        Some(184)
    } else if chars_are(&full, "KEY_F15") {
        Some(185)
    } else if chars_are(&full, "KEY_F16") {
        Some(186)
    } else if chars_are(&full, "KEY_F17") {
        Some(187)
    } else if chars_are(&full, "KEY_F18") {
        Some(188)
    } else if chars_are(&full, "KEY_F19") {
        Some(189)
    } else if chars_are(&full, "KEY_F20") {
        Some(190)
    } else if chars_are(&full, "KEY_F21") {
        Some(191)
    } else if chars_are(&full, "KEY_F22") {
        Some(192)
    } else if chars_are(&full, "KEY_F23") {
        Some(193)
    } else if chars_are(&full, "KEY_F24") {
        Some(194)
    } else if chars_are(&full, "KEY_SCROLLLOCK") {
        Some(70)
    } else if chars_are(&full, "KEY_PAUSE") {
        Some(119)
    } else if chars_are(&full, "KEY_INSERT") {
        Some(110)
    } else if chars_are(&full, "KEY_PRINT") {
        Some(210)
    } else if chars_are(&full, "KEY_RIGHTALT") {
        Some(100)
    } else if chars_are(&full, "KEY_RIGHTCTRL") {
        Some(97)
    } else if chars_are(&full, "KEY_LEFTMETA") {
        Some(125)
    } else if chars_are(&full, "KEY_RIGHTMETA") {
        Some(126)
    } else if chars_are(&full, "KEY_CAPSLOCK") {
        Some(58)
    } else {
        None
    }
}

/// The push-to-talk monitor: holds the key it watches for. The surrounding
/// program scans the input devices and feeds raw key events through
/// `classify_key_value`.
#[derive(Debug)]
pub struct PttMonitor {
    pub key: u16,
}

impl PttMonitor {
    /// Accepts a monitor only for a key name the key table knows.
    pub fn new(key_name: &str) -> (r: Result<Self, TjvoxError>)
        ensures
            r is Ok <==> key_code_of(normalized_key_name(key_name@)) is Some,
            r matches Ok(m) ==> key_code_of(normalized_key_name(key_name@)) == Some(m.key),
            r matches Err(e) ==> e matches TjvoxError::Config(m) && m@ == "Unknown key name: "@
                + key_name@,
    {
        match parse_key_name(key_name) {
            Some(key) => Ok(PttMonitor { key }),
            None => Err(TjvoxError::Config(
                String::from_str("Unknown key name: ").concat(key_name),
            )),
        }
    }
}

} // verus!
