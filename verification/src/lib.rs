//! Decision logic of a network throughput probe: how its settings are read,
//! which service it starts, and what its UDP, TCP and HTTP echo servers send
//! back and count.
pub mod constant;
pub mod http;
pub mod metrics;
pub mod module;
pub mod perfn;
pub mod tcp;
pub mod text;
pub mod udp;
