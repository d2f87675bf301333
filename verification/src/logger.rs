//! The logging calls, one per level, with and without a module name. Each
//! returns the record that is to be handed to the log receiver: the network
//! id and the text as given, and the level as its numeric code.

use crate::compose::{bridge_text, compose_bridge, module_view};
use crate::level::{level_code, LogLevel};
use vstd::prelude::*;

verus! {

/// What the log receiver is given for one logging call.
#[derive(Clone, Debug, PartialEq, Eq)]
pub struct BridgeRecord {
    /// The network the line comes from.
    pub network_id: u32,
    /// The severity, as a number from 0 to 3.
    pub level_code: u32,
    /// The module segment, if any, followed by the message.
    pub text: String,
}

impl BridgeRecord {
    /// Whether this is the record for a call with the given arguments.
    pub open spec fn carries(
        &self,
        level: LogLevel,
        network_id: u32,
        module: Option<Seq<char>>,
        message: Seq<char>,
    ) -> bool {
        &&& self.network_id == network_id
        &&& self.level_code == level.code()
        &&& self.text@ == bridge_text(module, message)
    }
}

/// Builds the record for a message at the given level.
pub fn log_with_level(level: LogLevel, network_id: u32, module: Option<&str>, message: &str) -> (record:
    BridgeRecord)
    ensures
        record.carries(level, network_id, module_view(module), message@),
{
    let text = compose_bridge(module, message);
    BridgeRecord { network_id, level_code: level_code(&level), text }
}

/// The record for a debug message.
pub fn log_debug(network_id: u32, message: &str) -> (record: BridgeRecord)
    ensures
        record.carries(LogLevel::Debug, network_id, None, message@),
{
    log_with_level(LogLevel::Debug, network_id, None, message)
}

/// The record for an informational message.
pub fn log_info(network_id: u32, message: &str) -> (record: BridgeRecord)
    ensures
        record.carries(LogLevel::Info, network_id, None, message@),
{
    log_with_level(LogLevel::Info, network_id, None, message)
}

/// The record for a warning.
pub fn log_warn(network_id: u32, message: &str) -> (record: BridgeRecord)
    ensures
        record.carries(LogLevel::Warn, network_id, None, message@),
{
    log_with_level(LogLevel::Warn, network_id, None, message)
}

/// The record for an error message.
pub fn log_error(network_id: u32, message: &str) -> (record: BridgeRecord)
    ensures
        record.carries(LogLevel::Error, network_id, None, message@),
{
    log_with_level(LogLevel::Error, network_id, None, message)
}

/// The record for a debug message from a named module.
pub fn log_debug_module(network_id: u32, module: &str, message: &str) -> (record: BridgeRecord)
    ensures
        record.carries(LogLevel::Debug, network_id, Some(module@), message@),
{
    log_with_level(LogLevel::Debug, network_id, Some(module), message)
}

/// The record for an informational message from a named module.
pub fn log_info_module(network_id: u32, module: &str, message: &str) -> (record: BridgeRecord)
    ensures
        record.carries(LogLevel::Info, network_id, Some(module@), message@),
{
    log_with_level(LogLevel::Info, network_id, Some(module), message)
}

/// The record for a warning from a named module.
pub fn log_warn_module(network_id: u32, module: &str, message: &str) -> (record: BridgeRecord)
    ensures
        record.carries(LogLevel::Warn, network_id, Some(module@), message@),
{
    log_with_level(LogLevel::Warn, network_id, Some(module), message)
}

/// The record for an error message from a named module.
pub fn log_error_module(network_id: u32, module: &str, message: &str) -> (record: BridgeRecord)
    ensures
        record.carries(LogLevel::Error, network_id, Some(module@), message@),
{
    log_with_level(LogLevel::Error, network_id, Some(module), message)
}

/// Two calls with the same arguments give the same record.
pub proof fn lemma_same_call_same_record(
    first: BridgeRecord,
    second: BridgeRecord,
    level: LogLevel,
    network_id: u32,
    module: Option<Seq<char>>,
    message: Seq<char>,
)
    requires
        first.carries(level, network_id, module, message),
        second.carries(level, network_id, module, message),
    ensures
        first.network_id == second.network_id,
        first.level_code == second.level_code,
        first.text@ == second.text@,
{
}

/// A record hands on the network id and the message as they were given,
/// and a level code between 0 and 3 that names the level.
pub proof fn lemma_record_keeps_inputs(
    record: BridgeRecord,
    level: LogLevel,
    network_id: u32,
    module: Option<Seq<char>>,
    message: Seq<char>,
)
    requires
        record.carries(level, network_id, module, message),
    ensures
        record.network_id == network_id,
        0 <= record.level_code <= 3,
        record.level_code == 0 <==> level == LogLevel::Debug,
        record.level_code == 1 <==> level == LogLevel::Info,
        record.level_code == 2 <==> level == LogLevel::Warn,
        record.level_code == 3 <==> level == LogLevel::Error,
        record.text@.len() >= message.len(),
        record.text@.skip(record.text@.len() - message.len()) == message,
{
    let text = record.text@;
    assert(text.skip(text.len() - message.len()) =~= message);
}

} // verus!
