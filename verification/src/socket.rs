//! The control-socket text protocol: one command per line, newline
//! terminated, with a hard cap on line length. Parsing and line framing are
//! verified; the listening socket itself is driven by the surrounding
//! program, which feeds raw bytes in and writes the response line out.

use vstd::prelude::*;
use vstd::string::StringExecFns;

use crate::error::TjvoxError;
use crate::strutil::{chars_of, chars_are, trim_chars, trim_spec, string_from_chars};

verus! {

#[derive(Debug, Clone, PartialEq, Eq, Structural)]
pub enum SocketCommand {
    Toggle,
    PushStart,
    PushStop,
    Status,
    Quit,
}

/// Longest accepted command line, in bytes; longer input is a protocol
/// error rather than unbounded buffering.
pub const MAX_LINE_LENGTH: usize = 1024;

/// The command a trimmed line names, if any.
pub open spec fn command_of(t: Seq<char>) -> Option<SocketCommand> {
    if t == "toggle"@ {
        Some(SocketCommand::Toggle)
    } else if t == "push-start"@ {
        Some(SocketCommand::PushStart)
    } else if t == "push-stop"@ {
        Some(SocketCommand::PushStop)
    } else if t == "status"@ {
        Some(SocketCommand::Status)
    } else if t == "quit"@ {
        Some(SocketCommand::Quit)
    } else {
        None
    }
}

/// Parses one command line: surrounding whitespace is ignored, anything else
/// than the five known commands is a protocol error naming the rejected text.
pub fn parse_command(input: &str) -> (r: Result<SocketCommand, TjvoxError>)
    ensures
        r matches Ok(c) ==> command_of(trim_spec(input@)) == Some(c),
        r is Err <==> command_of(trim_spec(input@)) is None,
        r matches Err(e) ==> e matches TjvoxError::Protocol(m) && m@ == "Unknown command: "@
            + trim_spec(input@),
{
    let v = chars_of(input);
    let t = trim_chars(&v);
    if chars_are(&t, "toggle") {
        Ok(SocketCommand::Toggle)
    } else if chars_are(&t, "push-start") {
        Ok(SocketCommand::PushStart)
    } else if chars_are(&t, "push-stop") {
        Ok(SocketCommand::PushStop)
    } else if chars_are(&t, "status") {
        Ok(SocketCommand::Status)
    } else if chars_are(&t, "quit") {
        Ok(SocketCommand::Quit)
    } else {
        let rest = string_from_chars(&t);
        Err(TjvoxError::Protocol(String::from_str("Unknown command: ").concat(rest.as_str())))
    }
}

/// What one read of the socket did to the line buffer.
#[derive(Debug, Clone, Copy, PartialEq, Eq, Structural)]
pub enum LineStatus {
    /// A full line is buffered: a newline byte has arrived.
    Complete,
    /// No newline yet; keep reading.
    NeedMore,
    /// The buffer outgrew `MAX_LINE_LENGTH`; reject the connection.
    TooLong,
}

/// Whether a newline byte occurs in `s`.
pub open spec fn has_newline(s: Seq<u8>) -> bool {
    exists|i: int| 0 <= i < s.len() && s[i] == 10u8
}

/// Appends one chunk read from the socket to the line buffer and says
/// whether the line is complete, overlong, or still short of its newline.
/// The length cap is checked before the newline, as the reader does.
pub fn accumulate_line(buf: &mut Vec<u8>, chunk: &[u8]) -> (st: LineStatus)
    ensures
        final(buf)@ == old(buf)@ + chunk@,
        st == LineStatus::TooLong <==> old(buf)@.len() + chunk@.len() > MAX_LINE_LENGTH,
        st == LineStatus::Complete <==> old(buf)@.len() + chunk@.len() <= MAX_LINE_LENGTH
            && has_newline(old(buf)@ + chunk@),
        st == LineStatus::NeedMore <==> old(buf)@.len() + chunk@.len() <= MAX_LINE_LENGTH
            && !has_newline(old(buf)@ + chunk@),
{
    let n = chunk.len();
    for i in 0..n
        invariant
            n == chunk@.len(),
            buf@ == old(buf)@ + chunk@.subrange(0, i as int),
    {
        buf.push(chunk[i]);
        proof {
            assert(buf@ =~= old(buf)@ + chunk@.subrange(0, i + 1));
        }
    }
    proof {
        assert(buf@ =~= old(buf)@ + chunk@);
    }
    if buf.len() > MAX_LINE_LENGTH {
        return LineStatus::TooLong;
    }
    let m = buf.len();
    for i in 0..m
        invariant
            m == buf@.len(),
            buf@ == old(buf)@ + chunk@,
            old(buf)@.len() + chunk@.len() <= MAX_LINE_LENGTH,
            forall|j: int| 0 <= j < i ==> buf@[j] != 10u8,
    {
        if buf[i] == 10u8 {
            proof {
                assert(0 <= i < buf@.len() && buf@[i as int] == 10u8);
                assert(has_newline(old(buf)@ + chunk@));
            }
            return LineStatus::Complete;
        }
    }
    LineStatus::NeedMore
}

} // verus!
