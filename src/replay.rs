use vstd::prelude::*;

use crate::config::{chars_equal_str, lowercase, trim_range, trimmed};
use crate::errors::IoErrorKind;
use crate::keba_payload::{ascii_lower, chars_of};

verus! {

/// Why a scripted sequence has no next event.
#[derive(Debug, Clone, Copy, PartialEq, Eq, Structural)]
pub enum ReplayError {
    /// The script ran out and does not loop.
    Finished,
    /// The sequence holds no event at all.
    Empty,
}

/// The position in one scripted sequence of events.
#[derive(Debug, Clone, Copy, PartialEq, Eq, Structural)]
pub struct ReplayCursor {
    pub next: usize,
}

impl ReplayCursor {
    pub fn new() -> (r: Self)
        ensures
            r.next == 0,
    {
        ReplayCursor { next: 0 }
    }

    /// The index of the next event in a sequence of `len` events, then moves past it.
    /// At the end a looping script starts over, any other has finished.
    pub fn advance(&mut self, len: usize, loop_forever: bool) -> (r: Result<usize, ReplayError>)
        ensures
            ({
                let at = if old(self).next >= len && loop_forever { 0 } else { old(self).next as int };
                if old(self).next >= len && !loop_forever {
                    r == Err::<usize, ReplayError>(ReplayError::Finished) && final(self).next == old(self).next
                } else if at >= len {
                    r == Err::<usize, ReplayError>(ReplayError::Empty) && final(self).next == at
                } else {
                    r == Ok::<usize, ReplayError>(at as usize) && final(self).next == at + 1
                }
            }),
    {
        if self.next >= len {
            if loop_forever {
                self.next = 0;
            } else {
                return Err(ReplayError::Finished);
            }
        }
        if self.next >= len {
            return Err(ReplayError::Empty);
        }
        let at = self.next;
        self.next = at + 1;
        Ok(at)
    }
}

/// What a scripted error stands for.
#[derive(Debug, Clone, Copy, PartialEq, Eq, Structural)]
pub enum ScriptError {
    Io(IoErrorKind),
    InvalidJson,
    Unknown,
}

/// A scripted error kind, trimmed and in any ASCII case.
pub open spec fn script_error_of(kind: Seq<char>) -> ScriptError {
    let name = lowercase(trimmed(kind));
    if name == "timeout"@ {
        ScriptError::Io(IoErrorKind::TimedOut)
    } else if name == "network_unreachable"@ || name == "internet_down"@ {
        ScriptError::Io(IoErrorKind::NetworkUnreachable)
    } else if name == "host_unreachable"@ || name == "wallbox_unreachable"@ {
        ScriptError::Io(IoErrorKind::HostUnreachable)
    } else if name == "connection_refused"@ {
        ScriptError::Io(IoErrorKind::ConnectionRefused)
    } else if name == "broken_pipe"@ {
        ScriptError::Io(IoErrorKind::BrokenPipe)
    } else if name == "invalid_json"@ {
        ScriptError::InvalidJson
    } else {
        ScriptError::Unknown
    }
}

/// Reads a scripted error kind.
pub fn script_error_kind(kind: &str) -> (r: ScriptError)
    ensures
        r == script_error_of(kind@),
{
    let c = chars_of(kind);
    let (a, b) = trim_range(&c, 0, c.len());
    assert(c@.subrange(0, c@.len() as int) =~= c@);
    proof {
        assert(lowercase(c@.subrange(a as int, b as int)) =~= c@.subrange(a as int, b as int).map_values(|ch: char| ascii_lower(ch)));
    }
    if chars_equal_str(&c, a, b, "timeout") {
        ScriptError::Io(IoErrorKind::TimedOut)
    } else if chars_equal_str(&c, a, b, "network_unreachable") || chars_equal_str(&c, a, b, "internet_down") {
        ScriptError::Io(IoErrorKind::NetworkUnreachable)
    } else if chars_equal_str(&c, a, b, "host_unreachable") || chars_equal_str(&c, a, b, "wallbox_unreachable") {
        ScriptError::Io(IoErrorKind::HostUnreachable)
    } else if chars_equal_str(&c, a, b, "connection_refused") {
        ScriptError::Io(IoErrorKind::ConnectionRefused)
    } else if chars_equal_str(&c, a, b, "broken_pipe") {
        ScriptError::Io(IoErrorKind::BrokenPipe)
    } else if chars_equal_str(&c, a, b, "invalid_json") {
        ScriptError::InvalidJson
    } else {
        ScriptError::Unknown
    }
}

} // verus!
