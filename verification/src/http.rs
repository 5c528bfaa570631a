//! The HTTP echo server: which requests it answers, which it refuses, and the
//! reply it sends.
use vstd::prelude::*;
use vstd::slice::slice_to_vec;
use vstd::string::StringSliceAdditionalSpecFns;
use crate::metrics::{no_update, sum_recv, sum_send, MetricUpdate};
use crate::text::same_text;

verus! {

/// The only method that is answered.
pub const POST: &'static str = "POST";

/// The only path that is answered.
pub const PERF_PATH: &'static str = "/perf";

/// Bodies whose size hint may exceed this many bytes are refused. The hint
/// is the upper bound that the caller's body stream reports; a stream that
/// reports no upper bound is never refused.
pub const MAX_BODY_BYTES: usize = 64 * 1024;

/// Status of an echoed request.
pub const STATUS_OK: u16 = 200;

/// Status of a request for anything but `POST /perf`.
pub const STATUS_NOT_FOUND: u16 = 404;

/// Status of a request whose body may be too big.
pub const STATUS_PAYLOAD_TOO_LARGE: u16 = 413;

/// Body of the reply to a request whose body may be too big.
pub const TOO_BIG_MESSAGE: &'static str = "Body too big";

/// A reply: its status, its body, and what it adds to the server's metrics.
#[derive(Debug)]
pub struct Reply {
    pub status: u16,
    pub body: Vec<u8>,
    pub metrics: MetricUpdate,
}

/// What to do once a request's head has been seen.
#[derive(Debug)]
pub enum Head {
    /// Send this reply without reading the body.
    Respond(Reply),
    /// Read the whole body and hand it to [`serve_body`].
    ReadBody,
}

/// Whether a body whose size hint has upper bound `upper` is refused; a
/// missing upper bound counts as zero.
pub open spec fn hint_too_big(upper: Option<usize>) -> bool {
    match upper {
        Some(u) => u > MAX_BODY_BYTES,
        None => false,
    }
}

/// Whether the request line is `POST /perf`.
pub open spec fn is_perf_request(method: Seq<char>, path: Seq<char>) -> bool {
    method == POST@ && path == PERF_PATH@
}

/// The reply to a request with this method, path, size hint and body, as
/// (status, body, metric update). The body is only read when the request
/// is `POST /perf` and its hint is small enough.
pub open spec fn serve_spec(method: Seq<char>, path: Seq<char>, upper: Option<usize>, body: Seq<u8>) -> (
    u16,
    Seq<u8>,
    MetricUpdate,
) {
    if !is_perf_request(method, path) {
        (STATUS_NOT_FOUND, Seq::empty(), no_update())
    } else if hint_too_big(upper) {
        (
            STATUS_PAYLOAD_TOO_LARGE,
            TOO_BIG_MESSAGE.spec_bytes(),
            MetricUpdate { recv_bytes: 0, send_bytes: 0, send_success: 0, send_fail: 1, latency_samples: 0 },
        )
    } else {
        (STATUS_OK, body.reverse(), echo_update(body.len()))
    }
}

/// The metric update of echoing a body of `len` bytes.
pub open spec fn echo_update(len: nat) -> MetricUpdate {
    MetricUpdate { recv_bytes: len as u64, send_bytes: len as u64, send_success: 1, send_fail: 0, latency_samples: 1 }
}

/// Whether a body whose size hint has upper bound `upper` is refused.
pub fn body_too_big(upper: Option<usize>) -> (res: bool)
    ensures
        res == hint_too_big(upper),
        res == (upper matches Some(u) && u > 65536),
{
    match upper {
        Some(u) => u > MAX_BODY_BYTES,
        None => false,
    }
}

/// Decides what to do with a request from its method, its path and the upper
/// bound of its body's size hint: refuse anything but `POST /perf` with an
/// empty 404 that changes no metric, refuse a body that may be too big with
/// 413, one failed send and no latency sample, or go on to read the body.
pub fn serve_head(method: &str, path: &str, upper: Option<usize>) -> (res: Head)
    ensures
        (res is ReadBody) <==> (is_perf_request(method@, path@) && !hint_too_big(upper)),
        res matches Head::Respond(r) ==> (r.status, r.body@, r.metrics) == serve_spec(
            method@,
            path@,
            upper,
            Seq::empty(),
        ),
        res is ReadBody ==> method@ == "POST"@ && path@ == "/perf"@,
        res is ReadBody ==> (upper matches Some(u) ==> u <= 65536),
        !(method@ == "POST"@ && path@ == "/perf"@) ==> (res matches Head::Respond(r) && r.status
            == 404 && r.body@.len() == 0 && r.metrics == (MetricUpdate {
            recv_bytes: 0,
            send_bytes: 0,
            send_success: 0,
            send_fail: 0,
            latency_samples: 0,
        })),
{
    if !(same_text(method, POST) && same_text(path, PERF_PATH)) {
        return Head::Respond(
            Reply { status: STATUS_NOT_FOUND, body: Vec::new(), metrics: MetricUpdate {
                recv_bytes: 0,
                send_bytes: 0,
                send_success: 0,
                send_fail: 0,
                latency_samples: 0,
            } },
        );
    }
    if body_too_big(upper) {
        let body = slice_to_vec(TOO_BIG_MESSAGE.as_bytes());
        return Head::Respond(
            Reply { status: STATUS_PAYLOAD_TOO_LARGE, body, metrics: MetricUpdate {
                recv_bytes: 0,
                send_bytes: 0,
                send_success: 0,
                send_fail: 1,
                latency_samples: 0,
            } },
        );
    }
    Head::ReadBody
}

/// The bytes of `body` in reverse order.
pub fn reverse_bytes(body: &[u8]) -> (res: Vec<u8>)
    ensures
        res@ == body@.reverse(),
        res@.len() == body@.len(),
        forall|i: int| 0 <= i < body@.len() ==> res@[i] == body@[body@.len() - 1 - i],
{
    let n = body.len();
    let mut out: Vec<u8> = Vec::with_capacity(n);
    let mut i: usize = 0;
    while i < n
        invariant
            n == body@.len(),
            i <= n,
            out@.len() == i,
            forall|j: int| 0 <= j < i ==> out@[j] == body@[n - 1 - j],
        decreases n - i,
    {
        out.push(body[n - 1 - i]);
        i = i + 1;
    }
    assert(out@ =~= body@.reverse());
    out
}

/// The reply to `POST /perf` whose whole body is `body`: status 200, the
/// body reversed, as many bytes counted in as out, one success and one
/// latency sample.
pub fn serve_body(body: &[u8]) -> (res: Reply)
    ensures
        res.status == STATUS_OK,
        res.body@ == body@.reverse(),
        res.metrics == echo_update(body@.len()),
        (res.status, res.body@, res.metrics) == serve_spec(POST@, PERF_PATH@, None, body@),
        res.status == 200,
        res.body@.len() == body@.len(),
        forall|i: int| 0 <= i < body@.len() ==> res.body@[i] == body@[body@.len() - 1 - i],
        res.metrics.recv_bytes == body@.len(),
        res.metrics.send_bytes == body@.len(),
        res.metrics.send_success == 1,
        res.metrics.send_fail == 0,
        res.metrics.latency_samples == 1,
{
    let reversed = reverse_bytes(body);
    let len = body.len() as u64;
    Reply {
        status: STATUS_OK,
        body: reversed,
        metrics: MetricUpdate { recv_bytes: len, send_bytes: len, send_success: 1, send_fail: 0, latency_samples: 1 },
    }
}

/// Only `POST /perf` is ever read and echoed; every other method or path is
/// answered 404 with an empty body and changes no metric.
pub proof fn lemma_only_post_perf_is_echoed(
    method: Seq<char>,
    path: Seq<char>,
    upper: Option<usize>,
    body: Seq<u8>,
)
    ensures
        is_perf_request(method, path) <==> (method == "POST"@ && path == "/perf"@),
        serve_spec(method, path, upper, body).0 == 200 ==> method == "POST"@ && path == "/perf"@,
        !(method == "POST"@ && path == "/perf"@) ==> serve_spec(method, path, upper, body) == (
            404u16,
            Seq::<u8>::empty(),
            MetricUpdate {
                recv_bytes: 0,
                send_bytes: 0,
                send_success: 0,
                send_fail: 0,
                latency_samples: 0,
            },
        ),
{
}

/// A size hint is too big exactly when its upper bound exceeds 64 KiB; a
/// missing bound is never too big; and a bigger bound is refused whenever a
/// smaller one is.
pub proof fn lemma_hint_limit(u: usize, v: usize)
    ensures
        hint_too_big(Some(u)) == (u > 65536),
        !hint_too_big(None),
        u <= v && hint_too_big(Some(u)) ==> hint_too_big(Some(v)),
        hint_too_big(Some(65536)) == false,
        hint_too_big(Some(65537)) == true,
{
}

/// For `POST /perf` (with a body that fits in memory) the status says which way the request went: 413 with
/// "Body too big" and one failed send exactly when the hint exceeds 64 KiB,
/// otherwise 200 with the body reversed, as many bytes counted in and out as
/// the body holds, one success and one latency sample.
pub proof fn lemma_post_perf_reply(upper: Option<usize>, body: Seq<u8>)
    requires
        body.len() <= usize::MAX,
    ensures
        ({
            let (status, reply, m) = serve_spec("POST"@, "/perf"@, upper, body);
            &&& (status == 413) == (upper matches Some(u) && u > 65536)
            &&& status == 413 ==> reply == "Body too big"@.map_values(|c: char| c as u8) && m
                == (MetricUpdate {
                recv_bytes: 0,
                send_bytes: 0,
                send_success: 0,
                send_fail: 1,
                latency_samples: 0,
            })
            &&& status != 413 ==> status == 200 && reply.len() == body.len() && (forall|i: int|
                0 <= i < body.len() ==> reply[i] == body[body.len() - 1 - i]) && m.recv_bytes
                == body.len() && m.send_bytes == body.len() && m.send_success == 1 && m.send_fail
                == 0 && m.latency_samples == 1
        }),
{
    reveal_strlit("Body too big");
    reveal_strlit("POST");
    reveal_strlit("/perf");
    assert(POST@ == "POST"@);
    assert(PERF_PATH@ == "/perf"@);
    assert(is_perf_request("POST"@, "/perf"@));
    assert(vstd::string::is_ascii(TOO_BIG_MESSAGE));
    vstd::string::is_ascii_spec_bytes(TOO_BIG_MESSAGE);
    assert(TOO_BIG_MESSAGE.spec_bytes() =~= "Body too big"@.map_values(|c: char| c as u8));
    assert(body.reverse().len() == body.len());
    assert forall|i: int| 0 <= i < body.len() implies body.reverse()[i] == body[body.len() - 1 - i] by {}
}

/// Echoing the reply's body gives back the request's body: the reply of the
/// reply is the request.
pub proof fn lemma_echo_twice_restores(body: Seq<u8>)
    ensures
        body.reverse().reverse() == body,
        body.reverse().len() == body.len(),
{
    assert(body.reverse().reverse() =~= body);
}

/// A request as the server sees it: method, path, upper bound of the body's
/// size hint, and body.
pub type HttpRequestSpec = (Seq<char>, Seq<char>, Option<usize>, Seq<u8>);

/// Over any run of requests (method, path, size-hint bound, body), the bytes
/// that the server counts in equal the bytes it counts out.
#[verifier::spinoff_prover]
pub proof fn lemma_http_bytes_balanced(
    requests: Seq<HttpRequestSpec>,
)
    ensures
        sum_recv(requests.map_values(|r: HttpRequestSpec| serve_spec(r.0, r.1, r.2, r.3).2))
            == sum_send(requests.map_values(|r: HttpRequestSpec| serve_spec(r.0, r.1, r.2, r.3).2)),
    decreases requests.len(),
{
    let f = |r: HttpRequestSpec| serve_spec(r.0, r.1, r.2, r.3).2;
    if requests.len() > 0 {
        lemma_http_bytes_balanced(requests.drop_last());
        assert(requests.map_values(f).drop_last() =~= requests.drop_last().map_values(f));
    }
}

} // verus!
