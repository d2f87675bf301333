//! The two ends a logging call can have. A direct sink renders a coloured,
//! timestamped line for the error stream; a bridge sink hands plain text and
//! numeric metadata to a log receiver. What a sink decides is returned as an
//! [`Emission`]. Reading the clock beforehand and carrying the emission out
//! afterwards are left to the caller.

use crate::compose::{compose_direct, direct_line, module_view};
use crate::level::LogLevel;
use crate::logger::{log_with_level, BridgeRecord};
use crate::timestamp::Timestamp;
use vstd::prelude::*;

verus! {

/// The behaviour a logger is created with.
#[derive(Clone, Copy, Debug, PartialEq, Eq, Structural)]
pub enum Sink {
    /// Render the line and write it to the error stream.
    Direct,
    /// Forward the text with its network id and level code.
    Bridge,
}

/// What is to be done for one logging call.
#[derive(Clone, Debug, PartialEq, Eq)]
pub enum Emission {
    /// Write this text, which ends in a line feed, to the error stream.
    Write(String),
    /// Hand this record to the log receiver.
    Forward(BridgeRecord),
}

impl Sink {
    /// Whether `emission` is what this sink does for a call with the given
    /// arguments, made at the time that `stamp` shows. A bridge sink shows
    /// no time, so for it `stamp` has no part in the answer.
    pub open spec fn emits(
        self,
        stamp: Seq<char>,
        level: LogLevel,
        network_id: u32,
        module: Option<Seq<char>>,
        message: Seq<char>,
        emission: Emission,
    ) -> bool {
        match self {
            Sink::Direct => {
                &&& emission matches Emission::Write(text)
                &&& text@ == direct_line(stamp, level, network_id, module, message) + seq!['\n']
            },
            Sink::Bridge => {
                &&& emission matches Emission::Forward(record)
                &&& record.carries(level, network_id, module, message)
            },
        }
    }

    /// Decides what to emit for a logging call made at the time `now`. A
    /// bridge sink shows no time and makes no use of `now`.
    pub fn emit_at(
        &self,
        now: &Timestamp,
        level: LogLevel,
        network_id: u32,
        module: Option<&str>,
        message: &str,
    ) -> (emission: Emission)
        ensures
            self.emits(now.text(), level, network_id, module_view(module), message@, emission),
    {
        match self {
            Sink::Direct => {
                let mut text = compose_direct(now, level, network_id, module, message);
                proof {
                    reveal_strlit("\n");
                    assert("\n"@ =~= seq!['\n']);
                }
                text.append("\n");
                Emission::Write(text)
            },
            Sink::Bridge => Emission::Forward(log_with_level(level, network_id, module, message)),
        }
    }
}

} // verus!
