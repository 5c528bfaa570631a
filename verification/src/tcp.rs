//! The TCP echo server: what each connection writes back after each read,
//! and what each write adds to the metrics.
use vstd::prelude::*;
use vstd::slice::slice_subrange;
use crate::metrics::MetricUpdate;

verus! {

/// Size of each connection's read buffer.
pub const BUFFER_SIZE: usize = 1024;

/// The bytes written back after a read of `n` bytes into a buffer holding
/// `buf`, or `None` when the read ends the connection.
pub open spec fn echo_chunk_spec(buf: Seq<u8>, n: nat) -> Option<Seq<u8>> {
    if n == 0 {
        None
    } else {
        Some(buf.subrange(0, n as int))
    }
}

/// What a connection does after a read of `n` bytes into `buf`: a read of
/// nothing means the peer closed, and the connection ends (`None`);
/// otherwise exactly the bytes just read are written back.
pub fn echo_chunk(buf: &[u8], n: usize) -> (res: Option<&[u8]>)
    requires
        n <= buf@.len(),
    ensures
        n == 0 <==> res is None,
        res matches Some(out) ==> out@ == buf@.subrange(0, n as int),
        res matches Some(out) ==> echo_chunk_spec(buf@, n as nat) == Some(out@),
        res is None ==> echo_chunk_spec(buf@, n as nat) is None,
{
    if n == 0 {
        None
    } else {
        Some(slice_subrange(buf, 0, n))
    }
}

/// What a write adds to the metrics: one success and one latency sample if
/// every byte was written, otherwise one failure and no sample. No bytes are
/// counted.
pub fn write_update(written: bool) -> (res: MetricUpdate)
    ensures
        res == (if written {
            MetricUpdate { recv_bytes: 0, send_bytes: 0, send_success: 1, send_fail: 0, latency_samples: 1 }
        } else {
            MetricUpdate { recv_bytes: 0, send_bytes: 0, send_success: 0, send_fail: 1, latency_samples: 0 }
        }),
{
    if written {
        MetricUpdate { recv_bytes: 0, send_bytes: 0, send_success: 1, send_fail: 0, latency_samples: 1 }
    } else {
        MetricUpdate { recv_bytes: 0, send_bytes: 0, send_success: 0, send_fail: 1, latency_samples: 0 }
    }
}

/// The bytes that a run of reads brought in, joined: each read is the
/// buffer it filled and how many bytes it put there.
pub open spec fn bytes_read(reads: Seq<(Seq<u8>, nat)>) -> Seq<u8>
    decreases reads.len(),
{
    if reads.len() == 0 {
        Seq::empty()
    } else {
        bytes_read(reads.drop_last()) + reads.last().0.subrange(0, reads.last().1 as int)
    }
}

/// The bytes that a connection wrote back over a run of reads, joined.
pub open spec fn bytes_written(reads: Seq<(Seq<u8>, nat)>) -> Seq<u8>
    decreases reads.len(),
{
    if reads.len() == 0 {
        Seq::empty()
    } else {
        bytes_written(reads.drop_last()) + match echo_chunk_spec(reads.last().0, reads.last().1) {
            Some(chunk) => chunk,
            None => Seq::empty(),
        }
    }
}

/// Over any run of reads that each brought in some bytes, what the
/// connection writes back, joined, is exactly what it read, joined.
#[verifier::spinoff_prover]
pub proof fn lemma_echo_stream(reads: Seq<(Seq<u8>, nat)>)
    requires
        forall|i: int| 0 <= i < reads.len() ==> 0 < #[trigger] reads[i].1 <= reads[i].0.len(),
    ensures
        bytes_written(reads) == bytes_read(reads),
    decreases reads.len(),
{
    if reads.len() > 0 {
        let prev = reads.drop_last();
        assert forall|i: int| 0 <= i < prev.len() implies 0 < #[trigger] prev[i].1 <= prev[i].0.len() by {
            assert(prev[i] == reads[i]);
        }
        lemma_echo_stream(prev);
        assert(reads.last() == reads[reads.len() - 1]);
    }
}

} // verus!
