//! Names of the environment variables the probe reads and the values they take.
use vstd::prelude::*;

verus! {

/// Variable that selects the log level.
pub const LOG_LEVEL: &'static str = "LOG_LEVEL";

/// Variable that selects whether the process acts as client or server.
pub const COMM_TYPE: &'static str = "COMM_TYPE";

/// Value of [`COMM_TYPE`] for the client role.
pub const COMM_TYPE_CLIENT: &'static str = "client";

/// Value of [`COMM_TYPE`] for the server role.
pub const COMM_TYPE_SERVER: &'static str = "server";

/// Variable that selects the protocol.
pub const PROTOCOL_TYPE: &'static str = "PROTOCOL_TYPE";

/// Value of [`PROTOCOL_TYPE`] for UDP.
pub const PROTOCOL_TYPE_UDP: &'static str = "udp";

/// Value of [`PROTOCOL_TYPE`] for TCP.
pub const PROTOCOL_TYPE_TCP: &'static str = "tcp";

/// Value of [`PROTOCOL_TYPE`] for HTTP.
pub const PROTOCOL_TYPE_HTTP: &'static str = "http";

} // verus!
