//! Output injection decisions: which paste method to use, whether the
//! focused window is a terminal emulator, and the exact key sequences and
//! command arguments handed to the injection tools. Spawning those tools
//! and talking to the window manager is the surrounding program's job; it
//! passes the raw query output in.

use vstd::prelude::*;
use vstd::string::StringExecFns;

use crate::config::OutputConfig;
use crate::error::TjvoxError;
use crate::strutil::{chars_of, contains_sub, contains_seq, find_first, find_sub, string_from_chars};

verus! {

/// The lowercased form of `s`; a function of the characters alone.
pub uninterp spec fn lower_of(s: Seq<char>) -> Seq<char>;

/// Relies on str::to_lowercase: the lowercased text, depending on the
/// characters alone; an empty string stays empty.
#[verifier::external_body]
fn lowercase(s: &str) -> (r: String)
    ensures
        r@ == lower_of(s@),
        s@.len() == 0 ==> r@.len() == 0,
{
    s.to_lowercase()
}

/// The window resource classes, in lower case, that mark a terminal
/// emulator; matched as substrings.
pub open spec fn terminal_patterns_spec() -> Seq<Seq<char>> {
    seq![
        "ghostty"@,
        "konsole"@,
        "kitty"@,
        "alacritty"@,
        "foot"@,
        "wezterm"@,
        "xterm"@,
        "gnome-terminal"@,
        "tilix"@,
        "terminator"@,
        "sakura"@,
        "urxvt"@,
        "rxvt"@,
        "st-256color"@,
        "mate-terminal"@,
        "lxterminal"@,
        "xfce4-terminal"@,
        "cool-retro-term"@,
        "yakuake"@,
        "guake"@,
        "terminology"@,
        "contour"@,
        "rio"@,
    ]
}

/// The terminal patterns as strings, in the order tried.
pub fn terminal_patterns() -> (v: Vec<&'static str>)
    ensures
        v@.len() == terminal_patterns_spec().len(),
        forall|i: int| 0 <= i < v@.len() ==> #[trigger] v@[i]@ == terminal_patterns_spec()[i],
{
    let v: Vec<&'static str> = vec![
        "ghostty",
        "konsole",
        "kitty",
        "alacritty",
        "foot",
        "wezterm",
        "xterm",
        "gnome-terminal",
        "tilix",
        "terminator",
        "sakura",
        "urxvt",
        "rxvt",
        "st-256color",
        "mate-terminal",
        "lxterminal",
        "xfce4-terminal",
        "cool-retro-term",
        "yakuake",
        "guake",
        "terminology",
        "contour",
        "rio",
    ];
    proof {
        assert forall|i: int| 0 <= i < v@.len() implies #[trigger] v@[i]@
            == terminal_patterns_spec()[i] by {
            assert(terminal_patterns_spec()[i] == v@[i]@);
        }
    }
    v
}

/// Whether some terminal pattern occurs in the lowered class name.
pub open spec fn class_is_terminal(class: Seq<char>) -> bool {
    exists|i: int|
        0 <= i < terminal_patterns_spec().len() && contains_seq(
            lower_of(class),
            terminal_patterns_spec()[i],
        )
}

/// Whether some pattern occurs in this already-lowered text.
fn any_terminal_pattern_in(lower: &Vec<char>) -> (r: bool)
    ensures
        r == exists|i: int|
            0 <= i < terminal_patterns_spec().len() && contains_seq(
                lower@,
                terminal_patterns_spec()[i],
            ),
{
    let patterns = terminal_patterns();
    let n = patterns.len();
    for i in 0..n
        invariant
            n == patterns@.len(),
            n == terminal_patterns_spec().len(),
            forall|j: int| 0 <= j < n ==> #[trigger] patterns@[j]@ == terminal_patterns_spec()[j],
            forall|j: int|
                0 <= j < i ==> !contains_seq(lower@, #[trigger] terminal_patterns_spec()[j]),
    {
        let p = chars_of(patterns[i]);
        if contains_sub(lower, &p) {
            return true;
        }
    }
    false
}

/// Whether a window class names a terminal emulator: lowered, then matched
/// against the known patterns.
pub fn is_terminal_class(class: &str) -> (r: bool)
    ensures
        r == class_is_terminal(class@),
{
    let lower = lowercase(class);
    let lv = chars_of(lower.as_str());
    any_terminal_pattern_in(&lv)
}

/// The pattern that introduces one string value in the window manager's
/// query output.
pub open spec fn dbus_pattern(key: Seq<char>) -> Seq<char> {
    "'"@ + key + "': <'"@
}

/// The string value the query output gives for `key`: the text between the
/// first `'key': <'` and the next `'>`.
pub open spec fn extract_spec(out: Seq<char>, key: Seq<char>) -> Option<Seq<char>> {
    let pat = dbus_pattern(key);
    match find_first(out, pat) {
        None => None,
        Some(i) => {
            let rest = out.skip(i + pat.len());
            match find_first(rest, "'>"@) {
                None => None,
                Some(j) => Some(rest.take(j)),
            }
        },
    }
}

/// Pulls one string value out of the window manager's variant-map output.
#[verifier::rlimit(60)]
pub fn extract_dbus_string(output: &str, key: &str) -> (r: Option<String>)
    ensures
        r is Some <==> extract_spec(output@, key@) is Some,
        r matches Some(v) ==> extract_spec(output@, key@) matches Some(s) && v@ == s,
{
    let pattern = String::from_str("'").concat(key).concat("': <'");
    let hay = chars_of(output);
    let pat = chars_of(pattern.as_str());
    proof {
        assert(pat@ == dbus_pattern(key@));
    }
    match find_sub(&hay, &pat) {
        None => None,
        Some(i) => {
            proof {
                crate::strutil::lemma_find_first_some(hay@, pat@, i as int);
            }
            let mut rest: Vec<char> = Vec::new();
            let n = hay.len();
            let start = i + pat.len();
            let mut k = start;
            while k < n
                invariant
                    start <= n,
                    k <= n,
                    start <= k,
                    n == hay@.len(),
                    rest@ == hay@.subrange(start as int, k as int),
                decreases n - k,
            {
                rest.push(hay[k]);
                proof {
                    assert(rest@ =~= hay@.subrange(start as int, k + 1));
                }
                k += 1;
            }
            proof {
                assert(rest@ =~= hay@.skip(start as int));
            }
            let close = chars_of("'>");
            match find_sub(&rest, &close) {
                None => None,
                Some(j) => {
                    proof {
                        crate::strutil::lemma_find_first_some(rest@, close@, j as int);
                    }
                    let mut value: Vec<char> = Vec::new();
                    let mut t: usize = 0;
                    while t < j
                        invariant
                            t <= j,
                            j <= rest@.len(),
                            value@ == rest@.subrange(0, t as int),
                        decreases j - t,
                    {
                        value.push(rest[t]);
                        proof {
                            assert(value@ =~= rest@.subrange(0, t + 1));
                        }
                        t += 1;
                    }
                    proof {
                        assert(value@ =~= rest@.take(j as int));
                    }
                    Some(string_from_chars(&value))
                },
            }
        },
    }
}

/// What the focused-window query output says: the resource class, lowered,
/// must be non-empty and name a terminal. A failed or classless query
/// counts as a plain window, the safe default.
pub open spec fn detect_terminal_spec(out: Seq<char>) -> bool {
    match extract_spec(out, "resourceClass"@) {
        None => false,
        Some(c) => lower_of(c).len() > 0 && class_is_terminal(c),
    }
}

/// Decides from the window manager's reply whether the focused window is a
/// terminal. The caller passes the query's standard output, or nothing
/// when the query itself failed.
pub fn detect_terminal_focused(query_output: Option<&str>) -> (r: bool)
    ensures
        match query_output {
            None => r == false,
            Some(out) => r == detect_terminal_spec(out@),
        },
{
    let out = match query_output {
        Some(o) => o,
        None => {
            return false;
        },
    };
    match extract_dbus_string(out, "resourceClass") {
        None => false,
        Some(class) => {
            let lower = lowercase(class.as_str());
            let lv = chars_of(lower.as_str());
            if lv.len() == 0 {
                false
            } else {
                any_terminal_pattern_in(&lv)
            }
        },
    }
}

/// How the text leaves the daemon, as the configuration names it.
#[derive(Debug, Clone, Copy, PartialEq, Eq, Structural)]
pub enum OutputMethod {
    /// Detect the focused window and pick the fitting paste shortcut.
    Auto,
    /// Clipboard plus the standard paste shortcut.
    Paste,
    /// Type the characters through the virtual keyboard.
    Type,
    /// Set the clipboard and leave pasting to the user.
    Clipboard,
}

pub open spec fn method_spec(m: Seq<char>) -> OutputMethod {
    if m == "paste"@ {
        OutputMethod::Paste
    } else if m == "type"@ {
        OutputMethod::Type
    } else if m == "clipboard"@ {
        OutputMethod::Clipboard
    } else {
        OutputMethod::Auto
    }
}

pub struct OutputManager {
    pub config: OutputConfig,
}

impl OutputManager {
    pub fn new(config: &OutputConfig) -> (r: Result<OutputManager, TjvoxError>)
        ensures
            r matches Ok(m) && m.config == *config,
    {
        Ok(OutputManager {
            config: OutputConfig {
                delay_ms: config.delay_ms,
                paste_delay_ms: config.paste_delay_ms,
                append_trailing_space: config.append_trailing_space,
                method: config.method.clone(),
            },
        })
    }

    /// The configured output method; unknown names fall back to automatic
    /// detection.
    pub fn choose_method(&self) -> (r: OutputMethod)
        ensures
            r == method_spec(self.config.method@),
    {
        let m = chars_of(self.config.method.as_str());
        if crate::strutil::chars_are(&m, "paste") {
            OutputMethod::Paste
        } else if crate::strutil::chars_are(&m, "type") {
            OutputMethod::Type
        } else if crate::strutil::chars_are(&m, "clipboard") {
            OutputMethod::Clipboard
        } else {
            OutputMethod::Auto
        }
    }
}

/// The key sequence handed to the injection tool for a paste: control plus
/// shift plus V for terminals, control plus V for everything else, each key
/// pressed and released in nesting order. The numbers are the kernel input
/// key codes for left control (29), left shift (42) and V (47).
pub open spec fn ydotool_paste_args_spec(terminal: bool) -> Seq<Seq<char>> {
    if terminal {
        seq!["key"@, "29:1"@, "42:1"@, "47:1"@, "47:0"@, "42:0"@, "29:0"@]
    } else {
        seq!["key"@, "29:1"@, "47:1"@, "47:0"@, "29:0"@]
    }
}

pub fn ydotool_paste_args(terminal: bool) -> (r: Vec<String>)
    ensures
        r.deep_view() == ydotool_paste_args_spec(terminal),
{
    let mut r: Vec<String> = Vec::new();
    r.push(String::from_str("key"));
    r.push(String::from_str("29:1"));
    if terminal {
        r.push(String::from_str("42:1"));
    }
    r.push(String::from_str("47:1"));
    r.push(String::from_str("47:0"));
    if terminal {
        r.push(String::from_str("42:0"));
    }
    r.push(String::from_str("29:0"));
    proof {
        assert(r.deep_view() =~= ydotool_paste_args_spec(terminal));
    }
    r
}

/// The fallback paste keystroke: control held, V tapped, control released.
pub open spec fn wtype_paste_args_spec() -> Seq<Seq<char>> {
    seq!["-M"@, "ctrl"@, "-k"@, "v"@, "-m"@, "ctrl"@]
}

pub fn wtype_paste_args() -> (r: Vec<String>)
    ensures
        r.deep_view() == wtype_paste_args_spec(),
{
    let mut r: Vec<String> = Vec::new();
    r.push(String::from_str("-M"));
    r.push(String::from_str("ctrl"));
    r.push(String::from_str("-k"));
    r.push(String::from_str("v"));
    r.push(String::from_str("-m"));
    r.push(String::from_str("ctrl"));
    proof {
        assert(r.deep_view() =~= wtype_paste_args_spec());
    }
    r
}

} // verus!
