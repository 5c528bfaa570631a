use perf_network::constant::{
    COMM_TYPE_CLIENT, COMM_TYPE_SERVER, PROTOCOL_TYPE_HTTP, PROTOCOL_TYPE_TCP, PROTOCOL_TYPE_UDP,
};
use perf_network::module::{
    parse_comm_type, parse_log_level, parse_protocol_type, CommType, LogLevel, ProtocolType,
};
use perf_network::perfn::{decide_launch, plan_start, Config, Launch, METRICS_PORT, SERVICE_PORT};
use perf_network::text::same_text;

#[test]
fn log_level_names_select_their_level() {
    assert_eq!(parse_log_level(Some("trace")), LogLevel::Trace);
    assert_eq!(parse_log_level(Some("debug")), LogLevel::Debug);
    assert_eq!(parse_log_level(Some("info")), LogLevel::Info);
    assert_eq!(parse_log_level(Some("warn")), LogLevel::Warn);
    assert_eq!(parse_log_level(Some("error")), LogLevel::Error);
}

#[test]
fn log_level_defaults_to_info() {
    assert_eq!(parse_log_level(None), LogLevel::Info);
    assert_eq!(parse_log_level(Some("TRACE")), LogLevel::Info);
    assert_eq!(parse_log_level(Some("")), LogLevel::Info);
    assert_eq!(parse_log_level(Some("warning")), LogLevel::Info);
    assert_eq!(parse_log_level(Some("tracé")), LogLevel::Info);
}

#[test]
fn comm_type_parsing() {
    assert_eq!(parse_comm_type(COMM_TYPE_CLIENT), Some(CommType::CLIENT));
    assert_eq!(parse_comm_type(COMM_TYPE_SERVER), Some(CommType::SERVER));
    assert_eq!(parse_comm_type("client"), Some(CommType::CLIENT));
    assert_eq!(parse_comm_type("server"), Some(CommType::SERVER));
    assert_eq!(parse_comm_type("Server"), None);
    assert_eq!(parse_comm_type(""), None);
    assert_eq!(parse_comm_type("servers"), None);
}

#[test]
fn protocol_type_parsing() {
    assert_eq!(parse_protocol_type(PROTOCOL_TYPE_UDP), Some(ProtocolType::UDP));
    assert_eq!(parse_protocol_type(PROTOCOL_TYPE_TCP), Some(ProtocolType::TCP));
    assert_eq!(parse_protocol_type(PROTOCOL_TYPE_HTTP), Some(ProtocolType::HTTP));
    assert_eq!(parse_protocol_type("https"), None);
    assert_eq!(parse_protocol_type("UDP"), None);
    assert_eq!(parse_protocol_type(""), None);
}

#[test]
fn same_text_compares_characters() {
    assert!(same_text("perf", "perf"));
    assert!(same_text("", ""));
    assert!(!same_text("perf", "perd"));
    assert!(!same_text("perf", "per"));
    assert!(same_text("héllo", "héllo"));
    assert!(!same_text("héllo", "hello"));
}

#[test]
fn launch_without_comm_type_stops_first() {
    assert_eq!(decide_launch(Some("debug"), None, None), Launch::MissingCommType);
    assert_eq!(decide_launch(None, None, Some("tcp")), Launch::MissingCommType);
}

#[test]
fn launch_with_unknown_comm_type_aborts() {
    assert_eq!(decide_launch(None, Some("peer"), Some("tcp")), Launch::UnknownCommType);
    assert_eq!(decide_launch(None, Some("peer"), None), Launch::UnknownCommType);
}

#[test]
fn launch_without_protocol() {
    assert_eq!(decide_launch(None, Some("server"), None), Launch::MissingProtocolType);
    assert_eq!(decide_launch(None, Some("client"), Some("quic")), Launch::UnknownProtocolType);
}

#[test]
fn launch_starts_with_metrics_enabled() {
    assert_eq!(
        decide_launch(Some("warn"), Some("server"), Some("http")),
        Launch::Start {
            level: LogLevel::Warn,
            config: Config {
                comm_type: CommType::SERVER,
                protocol_type: ProtocolType::HTTP,
                prometheus_metrics_disable: false,
            },
        }
    );
    assert_eq!(
        decide_launch(None, Some("client"), Some("udp")),
        Launch::Start {
            level: LogLevel::Info,
            config: Config {
                comm_type: CommType::CLIENT,
                protocol_type: ProtocolType::UDP,
                prometheus_metrics_disable: false,
            },
        }
    );
}

#[test]
fn plan_starts_exporter_unless_disabled() {
    let config = Config {
        comm_type: CommType::SERVER,
        protocol_type: ProtocolType::TCP,
        prometheus_metrics_disable: false,
    };
    let plan = plan_start(&config);
    let exporter = plan.metrics_exporter.expect("exporter planned");
    assert_eq!(exporter.ip, (0, 0, 0, 0));
    assert_eq!(exporter.port, 20008);
    assert_eq!(METRICS_PORT, 20008);
    assert_eq!(plan.protocol, ProtocolType::TCP);
    assert_eq!(plan.listen.ip, (0, 0, 0, 0));
    assert_eq!(plan.listen.port, 5678);
    assert_eq!(SERVICE_PORT, 5678);

    let quiet = Config { prometheus_metrics_disable: true, protocol_type: ProtocolType::UDP, ..config };
    let plan = plan_start(&quiet);
    assert!(plan.metrics_exporter.is_none());
    assert_eq!(plan.protocol, ProtocolType::UDP);
    assert_eq!(plan.listen.port, 5678);
}
