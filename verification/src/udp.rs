//! The UDP echo server: the datagram it holds for sending back, the step it
//! takes next, and what each send adds to the metrics. The peer address is a
//! type parameter so that the caller's socket layer stays outside.
use vstd::prelude::*;
use vstd::slice::slice_subrange;
use crate::metrics::MetricUpdate;

verus! {

/// Size of the receive buffer.
pub const BUFFER_SIZE: usize = 1024;

/// The server's state: the size and sender of the last datagram received,
/// until it has been taken to be sent back, together with the record of
/// every datagram received and every datagram taken so far.
pub struct Server<P> {
    to_send: Option<(usize, P)>,
    received_log: Ghost<Seq<(usize, P)>>,
    sent_log: Ghost<Seq<(usize, P)>>,
}

/// The step the server's loop takes next.
#[derive(Clone, Copy, Debug, PartialEq, Eq, Structural)]
pub enum UdpAction {
    /// Take the held datagram and send it back.
    SendBack,
    /// Wait for the next datagram.
    Receive,
}

/// The held datagram as a sequence of zero or one elements.
pub open spec fn held_seq<P>(held: Option<(usize, P)>) -> Seq<(usize, P)> {
    match held {
        Some(d) => seq![d],
        None => Seq::empty(),
    }
}

/// The state after a datagram of `size` bytes arrives from `peer`: it is the
/// one to send back.
pub open spec fn after_receive<P>(held: Option<(usize, P)>, size: usize, peer: P) -> Option<
    (usize, P),
> {
    Some((size, peer))
}

/// Taking the held datagram: it is handed out and nothing is held after.
pub open spec fn after_take<P>(held: Option<(usize, P)>) -> (Option<(usize, P)>, Option<
    (usize, P),
>) {
    (held, None)
}

impl<P> View for Server<P> {
    type V = Option<(usize, P)>;

    closed spec fn view(&self) -> Option<(usize, P)> {
        self.to_send
    }
}

impl<P> Server<P> {
    /// A held datagram never exceeds the buffer, and every datagram received
    /// has been taken to be sent back, in order, except the one still held.
    #[verifier::type_invariant]
    closed spec fn accounted(self) -> bool {
        &&& match self.to_send {
            Some((size, _)) => size <= BUFFER_SIZE,
            None => true,
        }
        &&& self.received_log@ == self.sent_log@ + held_seq(self.to_send)
    }

    /// Every datagram received so far, in order of arrival.
    pub closed spec fn received_log(&self) -> Seq<(usize, P)> {
        self.received_log@
    }

    /// Every datagram taken to be sent back so far, in order.
    pub closed spec fn sent_log(&self) -> Seq<(usize, P)> {
        self.sent_log@
    }

    /// A server that has received nothing and holds nothing.
    pub fn new() -> (res: Self)
        ensures
            res@ is None,
            res.received_log() == Seq::<(usize, P)>::empty(),
            res.sent_log() == Seq::<(usize, P)>::empty(),
            res.received_log() == res.sent_log() + held_seq(res@),
    {
        Server { to_send: None, received_log: Ghost(Seq::empty()), sent_log: Ghost(Seq::empty()) }
    }

    /// The next step: send back the held datagram if there is one, otherwise
    /// wait for the next datagram.
    pub fn next_action(&self) -> (res: UdpAction)
        ensures
            (res == UdpAction::Receive) <==> self@ is None,
            self.received_log() == self.sent_log() + held_seq(self@),
    {
        proof {
            use_type_invariant(self);
        }
        match &self.to_send {
            Some(_) => UdpAction::SendBack,
            None => UdpAction::Receive,
        }
    }

    /// Hands out the held datagram, if any, so that it is sent back once.
    pub fn take_pending(&mut self) -> (res: Option<(usize, P)>)
        ensures
            (res, final(self)@) == after_take(old(self)@),
            res == old(self)@,
            final(self)@ is None,
            res matches Some((size, _)) ==> size <= BUFFER_SIZE,
            final(self).received_log() == old(self).received_log(),
            final(self).sent_log() == old(self).sent_log() + held_seq(res),
            final(self).received_log() == final(self).sent_log() + held_seq(final(self)@),
    {
        proof {
            use_type_invariant(&*self);
        }
        let mut state = Server::new();
        std::mem::swap(&mut state, self);
        proof {
            use_type_invariant(&state);
        }
        let Server { to_send, received_log, sent_log } = state;
        let ghost new_sent = sent_log@ + held_seq(to_send);
        assert(received_log@ == new_sent + held_seq::<P>(None));
        *self = Server { to_send: None, received_log, sent_log: Ghost(new_sent) };
        to_send
    }

    /// Records a datagram of `size` bytes from `peer` as the one to send
    /// back. The loop only receives when nothing is held.
    pub fn received(&mut self, size: usize, peer: P)
        requires
            size <= BUFFER_SIZE,
            old(self)@ is None,
        ensures
            final(self)@ == after_receive(old(self)@, size, peer),
            final(self)@ == Some((size, peer)),
            final(self).received_log() == old(self).received_log().push((size, peer)),
            final(self).sent_log() == old(self).sent_log(),
            final(self).received_log() == final(self).sent_log() + held_seq(final(self)@),
    {
        proof {
            use_type_invariant(&*self);
        }
        let mut state = Server::new();
        std::mem::swap(&mut state, self);
        proof {
            use_type_invariant(&state);
        }
        let Server { to_send, received_log, sent_log } = state;
        let ghost new_received = received_log@.push((size, peer));
        assert(new_received == sent_log@ + held_seq(Some((size, peer))));
        *self = Server { to_send: Some((size, peer)), received_log: Ghost(new_received), sent_log };
    }
}

/// At every point of a run, what the server has received is exactly what it
/// has taken to be sent back, in order, followed by the one datagram it may
/// hold (every operation of [`Server`] ensures this of its result). So none is
/// skipped or sent twice, at most one waits, and the loop waits for a
/// datagram only when every one received has been taken.
pub proof fn lemma_every_datagram_once<P>(
    received: Seq<(usize, P)>,
    sent: Seq<(usize, P)>,
    held: Option<(usize, P)>,
)
    requires
        received == sent + held_seq(held),
    ensures
        sent.len() <= received.len() <= sent.len() + 1,
        held is None <==> received.len() == sent.len(),
        forall|i: int| 0 <= i < sent.len() ==> received[i] == sent[i],
        held matches Some(d) ==> received.last() == d,
{
}

/// The bytes of the datagram to send back: the first `size` bytes of the
/// receive buffer.
pub fn datagram(buf: &[u8], size: usize) -> (res: &[u8])
    requires
        size <= buf@.len(),
    ensures
        res@ == buf@.subrange(0, size as int),
{
    slice_subrange(buf, 0, size)
}

/// What taking a datagram of `size` bytes to send back adds to the metrics,
/// before it is sent: the `size` bytes received.
pub fn pending_update(size: usize) -> (res: MetricUpdate)
    ensures
        res == (MetricUpdate {
            recv_bytes: size as u64,
            send_bytes: 0,
            send_success: 0,
            send_fail: 0,
            latency_samples: 0,
        }),
{
    MetricUpdate {
        recv_bytes: size as u64,
        send_bytes: 0,
        send_success: 0,
        send_fail: 0,
        latency_samples: 0,
    }
}

/// What sending a datagram back adds to the metrics: the bytes sent, one
/// success and one latency sample (`sent` is `Some`), or one failure and no
/// sample.
pub fn send_update(sent: Option<usize>) -> (res: MetricUpdate)
    ensures
        res == match sent {
            Some(n) => MetricUpdate {
                recv_bytes: 0,
                send_bytes: n as u64,
                send_success: 1,
                send_fail: 0,
                latency_samples: 1,
            },
            None => MetricUpdate {
                recv_bytes: 0,
                send_bytes: 0,
                send_success: 0,
                send_fail: 1,
                latency_samples: 0,
            },
        },
{
    match sent {
        Some(n) => MetricUpdate {
            recv_bytes: 0,
            send_bytes: n as u64,
            send_success: 1,
            send_fail: 0,
            latency_samples: 1,
        },
        None => MetricUpdate {
            recv_bytes: 0,
            send_bytes: 0,
            send_success: 0,
            send_fail: 1,
            latency_samples: 0,
        },
    }
}

/// A datagram taken right after it was received is exactly the one received,
/// and taking it leaves nothing to send: each datagram is sent back once.
pub proof fn lemma_receive_then_take<P>(held: Option<(usize, P)>, size: usize, peer: P)
    ensures
        after_take(after_receive(held, size, peer)) == (Some((size, peer)), None::<(usize, P)>),
        after_take(after_take(held).1).0 is None,
{
}

} // verus!
