use perf_network::http::{
    body_too_big, reverse_bytes, serve_body, serve_head, Head, MAX_BODY_BYTES, STATUS_NOT_FOUND,
    STATUS_OK, STATUS_PAYLOAD_TOO_LARGE,
};
use perf_network::metrics::MetricUpdate;
use perf_network::tcp::{echo_chunk, write_update};
use perf_network::udp::{datagram, pending_update, send_update, Server, UdpAction, BUFFER_SIZE};

fn update(recv_bytes: u64, send_bytes: u64, send_success: u64, send_fail: u64, latency_samples: u64) -> MetricUpdate {
    MetricUpdate { recv_bytes, send_bytes, send_success, send_fail, latency_samples }
}

#[test]
fn http_other_routes_are_not_found() {
    for (method, path) in [("GET", "/perf"), ("POST", "/"), ("POST", "/perf/"), ("post", "/perf"), ("PUT", "/x")] {
        match serve_head(method, path, Some(10)) {
            Head::Respond(reply) => {
                assert_eq!(reply.status, STATUS_NOT_FOUND);
                assert_eq!(reply.status, 404);
                assert!(reply.body.is_empty());
                assert_eq!(reply.metrics, update(0, 0, 0, 0, 0));
            }
            Head::ReadBody => panic!("{} {} must not be read", method, path),
        }
    }
}

#[test]
fn http_too_big_body_is_refused() {
    match serve_head("POST", "/perf", Some(64 * 1024 + 1)) {
        Head::Respond(reply) => {
            assert_eq!(reply.status, STATUS_PAYLOAD_TOO_LARGE);
            assert_eq!(reply.status, 413);
            assert_eq!(reply.body, b"Body too big".to_vec());
            assert_eq!(reply.metrics, update(0, 0, 0, 1, 0));
        }
        Head::ReadBody => panic!("too big a body must be refused"),
    }
}

#[test]
fn http_body_limit_edges() {
    assert_eq!(MAX_BODY_BYTES, 65536);
    assert!(!body_too_big(None));
    assert!(!body_too_big(Some(0)));
    assert!(!body_too_big(Some(65536)));
    assert!(body_too_big(Some(65537)));
    assert!(body_too_big(Some(usize::MAX)));
    assert!(matches!(serve_head("POST", "/perf", Some(65536)), Head::ReadBody));
    assert!(matches!(serve_head("POST", "/perf", None), Head::ReadBody));
}

#[test]
fn http_echo_reverses_body() {
    let reply = serve_body(b"hello");
    assert_eq!(reply.status, STATUS_OK);
    assert_eq!(reply.status, 200);
    assert_eq!(reply.body, b"olleh".to_vec());
    assert_eq!(reply.metrics, update(5, 5, 1, 0, 1));
}

#[test]
fn http_echo_of_empty_body() {
    let reply = serve_body(b"");
    assert_eq!(reply.status, 200);
    assert!(reply.body.is_empty());
    assert_eq!(reply.metrics, update(0, 0, 1, 0, 1));
}

#[test]
fn http_echo_twice_restores_body() {
    let body: Vec<u8> = (0u8..=255).collect();
    let once = serve_body(&body);
    assert_ne!(once.body, body);
    let twice = serve_body(&once.body);
    assert_eq!(twice.body, body);
    assert_eq!(reverse_bytes(&reverse_bytes(&[1, 2, 3])), vec![1, 2, 3]);
}

#[test]
fn http_counts_as_many_bytes_in_as_out() {
    let bodies: [&[u8]; 3] = [b"a", b"", b"xyz"];
    let mut recv = 0u64;
    let mut send = 0u64;
    for b in bodies {
        let r = serve_body(b);
        recv += r.metrics.recv_bytes;
        send += r.metrics.send_bytes;
    }
    if let Head::Respond(r) = serve_head("POST", "/perf", Some(1 << 20)) {
        recv += r.metrics.recv_bytes;
        send += r.metrics.send_bytes;
    }
    assert_eq!(recv, 4);
    assert_eq!(recv, send);
}

#[test]
fn tcp_zero_read_closes() {
    let buf = [7u8; 1024];
    assert!(echo_chunk(&buf, 0).is_none());
}

#[test]
fn tcp_echoes_what_was_read() {
    let mut buf = [0u8; 1024];
    buf[..4].copy_from_slice(b"ping");
    assert_eq!(echo_chunk(&buf, 4), Some(&b"ping"[..]));
    assert_eq!(echo_chunk(&buf, 1024).map(|s| s.len()), Some(1024));
}

#[test]
fn tcp_write_outcomes() {
    assert_eq!(write_update(true), update(0, 0, 1, 0, 1));
    assert_eq!(write_update(false), update(0, 0, 0, 1, 0));
}

#[test]
fn udp_holds_nothing_at_start() {
    let mut server: Server<&str> = Server::new();
    assert_eq!(server.take_pending(), None);
}

#[test]
fn udp_sends_back_each_datagram_once() {
    let mut server: Server<&str> = Server::new();
    server.received(5, "10.0.0.1:9000");
    assert_eq!(server.take_pending(), Some((5, "10.0.0.1:9000")));
    assert_eq!(server.take_pending(), None);
}

#[test]
fn udp_datagram_is_buffer_prefix() {
    let mut buf = vec![0u8; BUFFER_SIZE];
    buf[..3].copy_from_slice(b"abc");
    assert_eq!(datagram(&buf, 3), b"abc");
    assert!(datagram(&buf, 0).is_empty());
}

#[test]
fn udp_send_outcomes() {
    assert_eq!(pending_update(10), update(10, 0, 0, 0, 0));
    assert_eq!(pending_update(0), update(0, 0, 0, 0, 0));
    assert_eq!(send_update(Some(10)), update(0, 10, 1, 0, 1));
    assert_eq!(send_update(Some(4)), update(0, 4, 1, 0, 1));
    assert_eq!(send_update(None), update(0, 0, 0, 1, 0));
    assert_eq!(send_update(Some(0)), update(0, 0, 1, 0, 1));
}

#[test]
fn udp_next_action_follows_held_datagram() {
    let mut server: Server<u16> = Server::new();
    assert_eq!(server.next_action(), UdpAction::Receive);
    server.received(12, 80);
    assert_eq!(server.next_action(), UdpAction::SendBack);
    assert_eq!(server.take_pending(), Some((12, 80)));
    assert_eq!(server.next_action(), UdpAction::Receive);
}

#[test]
fn latency_sample_only_on_success() {
    if let Head::Respond(r) = serve_head("GET", "/", None) {
        assert_eq!(r.metrics.latency_samples, 0);
    } else {
        panic!("404 expected");
    }
    if let Head::Respond(r) = serve_head("POST", "/perf", Some(1 << 20)) {
        assert_eq!(r.metrics.latency_samples, 0);
    } else {
        panic!("413 expected");
    }
    assert_eq!(serve_body(b"xy").metrics.latency_samples, 1);
    assert_eq!(write_update(true).latency_samples, 1);
    assert_eq!(write_update(false).latency_samples, 0);
    assert_eq!(send_update(Some(3)).latency_samples, 1);
    assert_eq!(send_update(None).latency_samples, 0);
    assert_eq!(pending_update(3).latency_samples, 0);
}

#[test]
fn udp_loop_sends_every_datagram_once_in_order() {
    let arrivals = [(3usize, 'a'), (0, 'b'), (7, 'a'), (1024, 'c')];
    let mut server: Server<char> = Server::new();
    let mut sent = Vec::new();
    for (size, peer) in arrivals {
        if server.next_action() == UdpAction::SendBack {
            sent.push(server.take_pending().expect("held datagram"));
        }
        assert_eq!(server.next_action(), UdpAction::Receive);
        server.received(size, peer);
    }
    assert_eq!(sent, arrivals[..3].to_vec());
    if let Some(d) = server.take_pending() {
        sent.push(d);
    }
    assert_eq!(sent, arrivals.to_vec());
    assert_eq!(server.take_pending(), None);
}

#[test]
fn tcp_stream_written_equals_read() {
    let mut buf = [0u8; 1024];
    let mut read = Vec::new();
    let mut written = Vec::new();
    for chunk in [&b"hel"[..], &b"lo, "[..], &b"world"[..]] {
        buf[..chunk.len()].copy_from_slice(chunk);
        read.extend_from_slice(&buf[..chunk.len()]);
        written.extend_from_slice(echo_chunk(&buf, chunk.len()).expect("nonzero read"));
    }
    assert_eq!(written, read);
    assert_eq!(written, b"hello, world".to_vec());
}
