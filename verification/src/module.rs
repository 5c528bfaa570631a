//! The role, protocol and log level the probe runs with, and how each is read
//! from the text of an environment variable.
use vstd::prelude::*;
use crate::constant::{
    COMM_TYPE_CLIENT, COMM_TYPE_SERVER, PROTOCOL_TYPE_HTTP, PROTOCOL_TYPE_TCP, PROTOCOL_TYPE_UDP,
};
use crate::text::same_text;

verus! {

/// Whether the process drives traffic or answers it.
#[allow(non_camel_case_types)]
#[derive(Clone, Copy, Debug, PartialEq, Eq, Structural)]
pub enum CommType {
    CLIENT,
    SERVER,
}

/// The transport whose throughput is probed.
#[allow(non_camel_case_types)]
#[derive(Clone, Copy, Debug, PartialEq, Eq, Structural)]
pub enum ProtocolType {
    UDP,
    TCP,
    HTTP,
}

/// How much the probe logs, from most to least.
#[derive(Clone, Copy, Debug, PartialEq, Eq, Structural)]
pub enum LogLevel {
    Trace,
    Debug,
    Info,
    Warn,
    Error,
}

/// The level that the text `s` names; any other text means `Info`.
pub open spec fn log_level_of(s: Seq<char>) -> LogLevel {
    if s == "trace"@ {
        LogLevel::Trace
    } else if s == "debug"@ {
        LogLevel::Debug
    } else if s == "info"@ {
        LogLevel::Info
    } else if s == "warn"@ {
        LogLevel::Warn
    } else if s == "error"@ {
        LogLevel::Error
    } else {
        LogLevel::Info
    }
}

/// The role that the text `s` names, if any.
pub open spec fn comm_type_of(s: Seq<char>) -> Option<CommType> {
    if s == COMM_TYPE_CLIENT@ {
        Some(CommType::CLIENT)
    } else if s == COMM_TYPE_SERVER@ {
        Some(CommType::SERVER)
    } else {
        None
    }
}

/// The protocol that the text `s` names, if any.
pub open spec fn protocol_type_of(s: Seq<char>) -> Option<ProtocolType> {
    if s == PROTOCOL_TYPE_UDP@ {
        Some(ProtocolType::UDP)
    } else if s == PROTOCOL_TYPE_TCP@ {
        Some(ProtocolType::TCP)
    } else if s == PROTOCOL_TYPE_HTTP@ {
        Some(ProtocolType::HTTP)
    } else {
        None
    }
}

/// The text that selects protocol `p`.
pub open spec fn protocol_type_name(p: ProtocolType) -> Seq<char> {
    match p {
        ProtocolType::UDP => PROTOCOL_TYPE_UDP@,
        ProtocolType::TCP => PROTOCOL_TYPE_TCP@,
        ProtocolType::HTTP => PROTOCOL_TYPE_HTTP@,
    }
}

/// The text that selects role `c`.
pub open spec fn comm_type_name(c: CommType) -> Seq<char> {
    match c {
        CommType::CLIENT => COMM_TYPE_CLIENT@,
        CommType::SERVER => COMM_TYPE_SERVER@,
    }
}

/// The log level selected by the value of the level variable: `None` when the
/// variable is unset. Unset or unknown values give `Info`.
pub fn parse_log_level(value: Option<&str>) -> (res: LogLevel)
    ensures
        res == match value {
            Some(s) => log_level_of(s@),
            None => LogLevel::Info,
        },
{
    match value {
        None => LogLevel::Info,
        Some(s) => {
            if same_text(s, "trace") {
                LogLevel::Trace
            } else if same_text(s, "debug") {
                LogLevel::Debug
            } else if same_text(s, "info") {
                LogLevel::Info
            } else if same_text(s, "warn") {
                LogLevel::Warn
            } else if same_text(s, "error") {
                LogLevel::Error
            } else {
                LogLevel::Info
            }
        },
    }
}

/// The role that `value` selects, or `None` for any other text.
pub fn parse_comm_type(value: &str) -> (res: Option<CommType>)
    ensures
        res == comm_type_of(value@),
{
    if same_text(value, COMM_TYPE_CLIENT) {
        Some(CommType::CLIENT)
    } else if same_text(value, COMM_TYPE_SERVER) {
        Some(CommType::SERVER)
    } else {
        None
    }
}

/// The protocol that `value` selects, or `None` for any other text.
pub fn parse_protocol_type(value: &str) -> (res: Option<ProtocolType>)
    ensures
        res == protocol_type_of(value@),
{
    if same_text(value, PROTOCOL_TYPE_UDP) {
        Some(ProtocolType::UDP)
    } else if same_text(value, PROTOCOL_TYPE_TCP) {
        Some(ProtocolType::TCP)
    } else if same_text(value, PROTOCOL_TYPE_HTTP) {
        Some(ProtocolType::HTTP)
    } else {
        None
    }
}

/// The five level names select their levels, and every other text, the
/// empty one and other spellings included, selects `Info`.
pub proof fn lemma_log_level_names(s: Seq<char>)
    ensures
        log_level_of("trace"@) == LogLevel::Trace,
        log_level_of("debug"@) == LogLevel::Debug,
        log_level_of("info"@) == LogLevel::Info,
        log_level_of("warn"@) == LogLevel::Warn,
        log_level_of("error"@) == LogLevel::Error,
        (log_level_of(s) == LogLevel::Trace) <==> s == "trace"@,
        (log_level_of(s) == LogLevel::Debug) <==> s == "debug"@,
        (log_level_of(s) == LogLevel::Warn) <==> s == "warn"@,
        (log_level_of(s) == LogLevel::Error) <==> s == "error"@,
        (log_level_of(s) == LogLevel::Info) <==> !(s == "trace"@ || s == "debug"@ || s == "warn"@
            || s == "error"@),
{
    reveal_strlit("trace");
    reveal_strlit("debug");
    reveal_strlit("info");
    reveal_strlit("warn");
    reveal_strlit("error");
    assert("trace"@[0] != "debug"@[0]);
    assert("trace"@[0] != "info"@[0]);
    assert("trace"@[0] != "warn"@[0]);
    assert("trace"@[0] != "error"@[0]);
    assert("debug"@[0] != "info"@[0]);
    assert("debug"@[0] != "warn"@[0]);
    assert("debug"@[0] != "error"@[0]);
    assert("info"@[0] != "warn"@[0]);
    assert("info"@[0] != "error"@[0]);
    assert("warn"@[0] != "error"@[0]);
}

/// The role text is "client" or "server", exactly, and nothing else selects
/// a role.
pub proof fn lemma_comm_type_names(s: Seq<char>)
    ensures
        (comm_type_of(s) == Some(CommType::CLIENT)) <==> s == "client"@,
        (comm_type_of(s) == Some(CommType::SERVER)) <==> s == "server"@,
        (comm_type_of(s) is None) <==> !(s == "client"@ || s == "server"@),
{
    reveal_strlit("client");
    reveal_strlit("server");
    assert(COMM_TYPE_CLIENT@ == "client"@);
    assert(COMM_TYPE_SERVER@ == "server"@);
    assert("client"@[0] != "server"@[0]);
}

/// The protocol text is "udp", "tcp" or "http", exactly, and nothing else
/// selects a protocol.
pub proof fn lemma_protocol_type_names(s: Seq<char>)
    ensures
        (protocol_type_of(s) == Some(ProtocolType::UDP)) <==> s == "udp"@,
        (protocol_type_of(s) == Some(ProtocolType::TCP)) <==> s == "tcp"@,
        (protocol_type_of(s) == Some(ProtocolType::HTTP)) <==> s == "http"@,
        (protocol_type_of(s) is None) <==> !(s == "udp"@ || s == "tcp"@ || s == "http"@),
{
    reveal_strlit("udp");
    reveal_strlit("tcp");
    reveal_strlit("http");
    assert(PROTOCOL_TYPE_UDP@ == "udp"@);
    assert(PROTOCOL_TYPE_TCP@ == "tcp"@);
    assert(PROTOCOL_TYPE_HTTP@ == "http"@);
    assert("udp"@[0] != "tcp"@[0]);
    assert("udp"@[0] != "http"@[0]);
    assert("tcp"@[0] != "http"@[0]);
}

/// Each protocol's configured text selects that protocol, and no other.
pub proof fn lemma_protocol_name_selects(p: ProtocolType)
    ensures
        protocol_type_of(protocol_type_name(p)) == Some(p),
{
    reveal_strlit("udp");
    reveal_strlit("tcp");
    reveal_strlit("http");
    assert(PROTOCOL_TYPE_UDP@[0] != PROTOCOL_TYPE_TCP@[0]);
    assert(PROTOCOL_TYPE_UDP@[0] != PROTOCOL_TYPE_HTTP@[0]);
    assert(PROTOCOL_TYPE_TCP@[0] != PROTOCOL_TYPE_HTTP@[0]);
}

/// Each role's configured text selects that role, and no other.
pub proof fn lemma_comm_name_selects(c: CommType)
    ensures
        comm_type_of(comm_type_name(c)) == Some(c),
{
    reveal_strlit("client");
    reveal_strlit("server");
    assert(COMM_TYPE_CLIENT@[0] != COMM_TYPE_SERVER@[0]);
}

} // verus!
