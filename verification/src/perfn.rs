//! The probe's run settings and the services that a run starts.
use vstd::prelude::*;
use crate::module::{
    comm_type_of, lemma_comm_type_names, lemma_log_level_names, lemma_protocol_type_names, log_level_of, parse_comm_type, parse_log_level, parse_protocol_type,
    protocol_type_of, CommType, LogLevel, ProtocolType,
};

verus! {

/// Settings of one run.
#[derive(Clone, Copy, Debug, PartialEq, Eq, Structural)]
pub struct Config {
    pub comm_type: CommType,
    pub protocol_type: ProtocolType,
    pub prometheus_metrics_disable: bool,
}

/// An IPv4 address and port to listen on.
#[derive(Clone, Copy, Debug)]
pub struct ListenAddr {
    pub ip: (u8, u8, u8, u8),
    pub port: u16,
}

/// Port of the metrics exporter.
pub const METRICS_PORT: u16 = 20008;

/// Port that every echo server listens on.
pub const SERVICE_PORT: u16 = 5678;

/// `port` on every local interface.
pub open spec fn any_interface(port: u16) -> ListenAddr {
    ListenAddr { ip: (0, 0, 0, 0), port }
}

/// What a run starts: the metrics exporter, if any, and the echo server of
/// the configured protocol.
#[derive(Clone, Copy, Debug)]
pub struct StartPlan {
    pub metrics_exporter: Option<ListenAddr>,
    pub protocol: ProtocolType,
    pub listen: ListenAddr,
}

/// The plan of a run with settings `config`: the exporter on port 20008 of
/// every interface unless metrics are disabled, and the server of the
/// configured protocol on port 5678 of every interface.
pub fn plan_start(config: &Config) -> (res: StartPlan)
    ensures
        res.metrics_exporter == (if config.prometheus_metrics_disable {
            None
        } else {
            Some(any_interface(METRICS_PORT))
        }),
        res.protocol == config.protocol_type,
        res.listen == any_interface(SERVICE_PORT),
        res.metrics_exporter is Some <==> !config.prometheus_metrics_disable,
        res.metrics_exporter matches Some(a) ==> a.ip == (0u8, 0u8, 0u8, 0u8) && a.port == 20008,
        res.listen.ip == (0u8, 0u8, 0u8, 0u8),
        res.listen.port == 5678,
{
    let metrics_exporter = if config.prometheus_metrics_disable {
        None
    } else {
        Some(ListenAddr { ip: (0, 0, 0, 0), port: METRICS_PORT })
    };
    StartPlan {
        metrics_exporter,
        protocol: config.protocol_type,
        listen: ListenAddr { ip: (0, 0, 0, 0), port: SERVICE_PORT },
    }
}

/// How the process proceeds, given its environment.
#[derive(Clone, Copy, Debug, PartialEq, Eq, Structural)]
pub enum Launch {
    /// The role variable is unset or unreadable: stop with that error.
    MissingCommType,
    /// The role variable names no role: abort.
    UnknownCommType,
    /// The protocol variable is unset or unreadable: report it and stop.
    MissingProtocolType,
    /// The protocol variable names no protocol: stop without starting anything.
    UnknownProtocolType,
    /// Start a run at this log level with these settings.
    Start { level: LogLevel, config: Config },
}

/// The launch decision for the given variable values (`None` for a variable
/// that is unset or unreadable). The role is read before the protocol;
/// metrics stay enabled.
pub open spec fn launch_of(
    log_level: Option<Seq<char>>,
    comm_type: Option<Seq<char>>,
    protocol_type: Option<Seq<char>>,
) -> Launch {
    match comm_type {
        None => Launch::MissingCommType,
        Some(c) => match comm_type_of(c) {
            None => Launch::UnknownCommType,
            Some(comm) => match protocol_type {
                None => Launch::MissingProtocolType,
                Some(p) => match protocol_type_of(p) {
                    None => Launch::UnknownProtocolType,
                    Some(protocol) => Launch::Start {
                        level: match log_level {
                            Some(l) => log_level_of(l),
                            None => LogLevel::Info,
                        },
                        config: Config {
                            comm_type: comm,
                            protocol_type: protocol,
                            prometheus_metrics_disable: false,
                        },
                    },
                },
            },
        },
    }
}

/// The level selected by the level variable's value, `Info` when unset.
pub open spec fn parse_log_level_spec(value: Option<Seq<char>>) -> LogLevel {
    match value {
        Some(s) => log_level_of(s),
        None => LogLevel::Info,
    }
}

/// Which way a launch goes, from the variables' values alone: the role is
/// checked first, then the protocol; a start carries the level that the
/// level variable selects, whatever the role and protocol, the role and the
/// protocol that their variables name, and metrics enabled.
pub proof fn lemma_launch_outcome(
    log_level: Option<Seq<char>>,
    comm_type: Option<Seq<char>>,
    protocol_type: Option<Seq<char>>,
)
    ensures
        comm_type is None ==> launch_of(log_level, comm_type, protocol_type)
            == Launch::MissingCommType,
        comm_type is Some && comm_type_of(comm_type.unwrap()) is None ==> launch_of(
            log_level,
            comm_type,
            protocol_type,
        ) == Launch::UnknownCommType,
        comm_type is Some && comm_type_of(comm_type.unwrap()) is Some && protocol_type is None
            ==> launch_of(log_level, comm_type, protocol_type) == Launch::MissingProtocolType,
        comm_type is Some && comm_type_of(comm_type.unwrap()) is Some && protocol_type is Some
            && protocol_type_of(protocol_type.unwrap()) is None ==> launch_of(
            log_level,
            comm_type,
            protocol_type,
        ) == Launch::UnknownProtocolType,
        comm_type is Some && comm_type_of(comm_type.unwrap()) is Some && protocol_type is Some
            && protocol_type_of(protocol_type.unwrap()) is Some ==> launch_of(
            log_level,
            comm_type,
            protocol_type,
        ) == (Launch::Start {
            level: parse_log_level_spec(log_level),
            config: Config {
                comm_type: comm_type_of(comm_type.unwrap()).unwrap(),
                protocol_type: protocol_type_of(protocol_type.unwrap()).unwrap(),
                prometheus_metrics_disable: false,
            },
        }),
{
}

/// The level of a start does not depend on the role or the protocol: two
/// launches with the same level variable that both start, start at the same
/// level, and "debug" starts at `Debug`.
pub proof fn lemma_launch_level_independent(
    log_level: Option<Seq<char>>,
    comm_a: Option<Seq<char>>,
    protocol_a: Option<Seq<char>>,
    comm_b: Option<Seq<char>>,
    protocol_b: Option<Seq<char>>,
)
    ensures
        launch_of(log_level, comm_a, protocol_a) matches Launch::Start { level: la, .. }
            ==> launch_of(log_level, comm_b, protocol_b) matches Launch::Start { level: lb, .. }
            ==> la == lb,
        launch_of(Some("debug"@), comm_a, protocol_a) matches Launch::Start { level, .. } ==> level
            == LogLevel::Debug,
        launch_of(None, comm_a, protocol_a) matches Launch::Start { level, .. } ==> level
            == LogLevel::Info,
{
    lemma_log_level_names("debug"@);
}

/// The role and protocol of a start do not depend on each other or on the
/// level: "client" always starts a client and "server" a server, "udp",
/// "tcp" and "http" their protocols, with metrics enabled.
pub proof fn lemma_launch_role_and_protocol(
    log_level: Option<Seq<char>>,
    comm: Seq<char>,
    protocol: Seq<char>,
)
    ensures
        launch_of(log_level, Some(comm), Some(protocol)) matches Launch::Start { config, .. } ==> {
            &&& (config.comm_type == CommType::CLIENT) <==> comm == "client"@
            &&& (config.comm_type == CommType::SERVER) <==> comm == "server"@
            &&& (config.protocol_type == ProtocolType::UDP) <==> protocol == "udp"@
            &&& (config.protocol_type == ProtocolType::TCP) <==> protocol == "tcp"@
            &&& (config.protocol_type == ProtocolType::HTTP) <==> protocol == "http"@
            &&& !config.prometheus_metrics_disable
        },
        (launch_of(log_level, Some(comm), Some(protocol)) is Start) <==> ((comm == "client"@
            || comm == "server"@) && (protocol == "udp"@ || protocol == "tcp"@ || protocol
            == "http"@)),
{
    lemma_comm_type_names(comm);
    lemma_protocol_type_names(protocol);
}

/// The view of an optional string slice.
pub open spec fn opt_view(s: Option<&str>) -> Option<Seq<char>> {
    match s {
        Some(t) => Some(t@),
        None => None,
    }
}

/// Decides how the process proceeds from the values of its level, role and
/// protocol variables.
pub fn decide_launch(
    log_level: Option<&str>,
    comm_type: Option<&str>,
    protocol_type: Option<&str>,
) -> (res: Launch)
    ensures
        res == launch_of(opt_view(log_level), opt_view(comm_type), opt_view(protocol_type)),
        res matches Launch::Start { level, config } ==> (level == parse_log_level_spec(
            opt_view(log_level),
        ) && comm_type is Some && Some(config.comm_type) == comm_type_of(comm_type.unwrap()@)
            && protocol_type is Some && Some(config.protocol_type) == protocol_type_of(
            protocol_type.unwrap()@,
        ) && !config.prometheus_metrics_disable),
{
    let level = parse_log_level(log_level);
    let comm = match comm_type {
        None => {
            return Launch::MissingCommType;
        },
        Some(c) => match parse_comm_type(c) {
            None => {
                return Launch::UnknownCommType;
            },
            Some(comm) => comm,
        },
    };
    match protocol_type {
        None => Launch::MissingProtocolType,
        Some(p) => match parse_protocol_type(p) {
            None => Launch::UnknownProtocolType,
            Some(protocol) => Launch::Start {
                level,
                config: Config {
                    comm_type: comm,
                    protocol_type: protocol,
                    prometheus_metrics_disable: false,
                },
            },
        },
    }
}

} // verus!
