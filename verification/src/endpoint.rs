//! The packet devices the network stacks run on: an endpoint that queues
//! injected packets for the stack, and a loopback device.
use vstd::prelude::*;
use std::collections::VecDeque;
use vstd::slice::slice_to_vec;

verus! {

/// The octets of each packet in a list.
pub open spec fn packets(q: Seq<Vec<u8>>) -> Seq<Seq<u8>> {
    q.map_values(|p: Vec<u8>| p@)
}

/// A queue after one packet is added at its back.
pub open spec fn transmitted(before: Seq<Seq<u8>>, p: Seq<u8>, after: Seq<Seq<u8>>) -> bool {
    after == before.push(p)
}

/// A queue after a packet is asked of it: an empty queue gives nothing and
/// stays empty; otherwise its head is given and the rest stays.
pub open spec fn received(before: Seq<Seq<u8>>, got: Option<Seq<u8>>, after: Seq<Seq<u8>>) -> bool {
    if before.len() == 0 {
        got is None && after == before
    } else {
        got == Some(before[0]) && after == before.drop_first()
    }
}

/// A received packet, handed to the stack.
pub struct RxToken {
    buffer: Vec<u8>,
}

impl RxToken {
    /// The packet's octets.
    pub closed spec fn bytes(&self) -> Seq<u8> {
        self.buffer@
    }

    /// The packet, for the stack to read.
    pub fn buffer(&self) -> (b: &Vec<u8>)
        ensures
            b@ == self.bytes(),
    {
        &self.buffer
    }

    /// The packet, taken out of the token.
    pub fn into_buffer(self) -> (b: Vec<u8>)
        ensures
            b@ == self.bytes(),
    {
        self.buffer
    }
}

/// A slot for one packet to transmit.
pub struct TxToken {}

impl TxToken {
    /// The buffer the stack writes a packet of `len` octets into: `len`
    /// zeros.
    pub fn buffer(&self, len: usize) -> (b: Vec<u8>)
        ensures
            b@ == Seq::new(len as nat, |i: int| 0u8),
    {
        let mut b: Vec<u8> = Vec::new();
        let mut i: usize = 0;
        while i < len
            invariant
                i <= len,
                b@ == Seq::new(i as nat, |k: int| 0u8),
            decreases len - i,
        {
            b.push(0);
            i += 1;
            assert(b@ =~= Seq::new(i as nat, |k: int| 0u8));
        }
        b
    }
}

/// A device that queues packets injected from outside for the stack to
/// receive, and holds packets for extraction.
pub struct Endpoint {
    inqueue: VecDeque<Vec<u8>>,
    outbuf: Vec<Vec<u8>>,
}

impl Endpoint {
    /// Packets waiting to be received, oldest first.
    pub closed spec fn incoming(&self) -> Seq<Seq<u8>> {
        packets(self.inqueue@)
    }

    /// Packets waiting to be extracted; the last one goes first.
    pub closed spec fn outgoing(&self) -> Seq<Seq<u8>> {
        packets(self.outbuf@)
    }

    /// An endpoint with nothing queued.
    pub fn new() -> (e: Endpoint)
        ensures
            e.incoming() == Seq::<Seq<u8>>::empty(),
            e.outgoing() == Seq::<Seq<u8>>::empty(),
    {
        let e = Endpoint { inqueue: VecDeque::new(), outbuf: Vec::new() };
        assert(e.incoming() =~= Seq::<Seq<u8>>::empty());
        assert(e.outgoing() =~= Seq::<Seq<u8>>::empty());
        e
    }

    /// Queues a copy of a packet for the stack to receive.
    pub fn inject_packet(&mut self, buf: &[u8])
        ensures
            transmitted(old(self).incoming(), buf@, final(self).incoming()),
            final(self).outgoing() == old(self).outgoing(),
    {
        let v = slice_to_vec(buf);
        self.inqueue.push_back(v);
        assert(self.incoming() =~= old(self).incoming().push(buf@));
    }

    /// Queues a copy of a packet for the stack to receive (the name the
    /// stack's sink uses).
    pub fn recv_packet(&mut self, buf: &[u8])
        ensures
            transmitted(old(self).incoming(), buf@, final(self).incoming()),
            final(self).outgoing() == old(self).outgoing(),
    {
        self.inject_packet(buf)
    }

    /// Takes the most recent outgoing packet, if any, and copies as much of it
    /// as fits to the start of `buf`.
    pub fn extract_packet(&mut self, buf: &mut [u8]) -> (r: Option<()>)
        ensures
            old(self).outgoing().len() == 0 ==> r is None && final(buf)@ == old(buf)@
                && final(self).outgoing() == old(self).outgoing(),
            old(self).outgoing().len() > 0 ==> {
                let p = old(self).outgoing().last();
                let n = if p.len() < old(buf)@.len() {
                    p.len() as int
                } else {
                    old(buf)@.len() as int
                };
                &&& r is Some
                &&& final(self).outgoing() == old(self).outgoing().drop_last()
                &&& final(buf)@ == p.subrange(0, n) + old(buf)@.subrange(n, old(buf)@.len() as int)
            },
            final(self).incoming() == old(self).incoming(),
    {
        match self.outbuf.pop() {
            None => None,
            Some(v) => {
                assert(self.outgoing() =~= old(self).outgoing().drop_last());
                let n = if v.len() < buf.len() {
                    v.len()
                } else {
                    buf.len()
                };
                let mut i: usize = 0;
                while i < n
                    invariant
                        n <= v@.len(),
                        n <= buf@.len(),
                        buf@.len() == old(buf)@.len(),
                        i <= n,
                        buf@ == v@.subrange(0, i as int) + old(buf)@.subrange(
                            i as int,
                            old(buf)@.len() as int,
                        ),
                    decreases n - i,
                {
                    buf[i] = v[i];
                    i += 1;
                    assert(buf@ =~= v@.subrange(0, i as int) + old(buf)@.subrange(
                        i as int,
                        old(buf)@.len() as int,
                    ));
                }
                Some(())
            },
        }
    }

    /// Hands the oldest queued packet to the stack, with a slot to answer in.
    pub fn receive(&mut self) -> (r: Option<(RxToken, TxToken)>)
        ensures
            received(
                old(self).incoming(),
                match r {
                    Some((rx, _)) => Some(rx.bytes()),
                    None => None,
                },
                final(self).incoming(),
            ),
            final(self).outgoing() == old(self).outgoing(),
    {
        match self.inqueue.pop_front() {
            Some(buffer) => {
                assert(self.incoming() =~= old(self).incoming().drop_first());
                Some((RxToken { buffer }, TxToken {}))
            },
            None => None,
        }
    }

    /// A slot to transmit a packet in; there always is one.
    pub fn transmit(&mut self) -> (r: Option<TxToken>)
        ensures
            r is Some,
            final(self).incoming() == old(self).incoming(),
            final(self).outgoing() == old(self).outgoing(),
    {
        Some(TxToken {})
    }
}

proof fn lemma_transmits_append(
    sent: Seq<Seq<u8>>,
    queues: Seq<Seq<Seq<u8>>>,
    k: int,
)
    requires
        queues.len() == sent.len() + 1,
        queues[0] == Seq::<Seq<u8>>::empty(),
        forall|i: int|
            #![trigger sent[i]]
            0 <= i < sent.len() ==> transmitted(queues[i], sent[i], queues[i + 1]),
        0 <= k <= sent.len(),
    ensures
        queues[k] == sent.subrange(0, k),
    decreases k,
{
    if k == 0 {
        assert(sent.subrange(0, 0) =~= Seq::<Seq<u8>>::empty());
    } else {
        lemma_transmits_append(sent, queues, k - 1);
        assert(transmitted(queues[k - 1], sent[k - 1], queues[k]));
        assert(sent.subrange(0, k - 1).push(sent[k - 1]) =~= sent.subrange(0, k));
    }
}

proof fn lemma_receives_take_heads(
    rest: Seq<Seq<u8>>,
    got: Seq<Option<Seq<u8>>>,
    after: Seq<Seq<Seq<u8>>>,
    k: int,
)
    requires
        after.len() == got.len() + 1,
        after[0] == rest,
        forall|j: int|
            #![trigger got[j]]
            0 <= j < got.len() ==> received(after[j], got[j], after[j + 1]),
        0 <= k <= got.len(),
    ensures
        k <= rest.len() ==> after[k] == rest.subrange(k, rest.len() as int),
        k > rest.len() ==> after[k] == Seq::<Seq<u8>>::empty(),
    decreases k,
{
    if k == 0 {
        assert(rest.subrange(0, rest.len() as int) =~= rest);
    } else {
        lemma_receives_take_heads(rest, got, after, k - 1);
        assert(received(after[k - 1], got[k - 1], after[k]));
        if k <= rest.len() {
            assert(rest.subrange(k - 1, rest.len() as int).drop_first() =~= rest.subrange(
                k,
                rest.len() as int,
            ));
        } else if k - 1 == rest.len() {
            assert(rest.subrange(k - 1, rest.len() as int) =~= Seq::<Seq<u8>>::empty());
        }
    }
}

/// Packets come out of a loopback device, or out of an endpoint's incoming
/// queue, in the order they went in, tied to the calls: starting from an
/// empty queue, let the queue go through `transmit` (or `inject_packet`) of
/// each packet of `sent` in turn, as those calls' contracts relate the queue
/// before and after, and then through a run of `receive` calls, as their
/// contracts relate it, giving `got`. Then the `j`-th receive gives the
/// `j`-th packet sent, and every receive after the last packet gives
/// nothing.
pub proof fn lemma_transmit_receive_fifo(
    sent: Seq<Seq<u8>>,
    queues: Seq<Seq<Seq<u8>>>,
    got: Seq<Option<Seq<u8>>>,
    after: Seq<Seq<Seq<u8>>>,
)
    requires
        queues.len() == sent.len() + 1,
        queues[0] == Seq::<Seq<u8>>::empty(),
        forall|i: int|
            #![trigger sent[i]]
            0 <= i < sent.len() ==> transmitted(queues[i], sent[i], queues[i + 1]),
        after.len() == got.len() + 1,
        after[0] == queues[sent.len() as int],
        forall|j: int|
            #![trigger got[j]]
            0 <= j < got.len() ==> received(after[j], got[j], after[j + 1]),
    ensures
        forall|j: int|
            0 <= j < got.len() ==> #[trigger] got[j] == if j < sent.len() {
                Some(sent[j])
            } else {
                None::<Seq<u8>>
            },
{
    lemma_transmits_append(sent, queues, sent.len() as int);
    assert(sent.subrange(0, sent.len() as int) =~= sent);
    assert forall|j: int| 0 <= j < got.len() implies #[trigger] got[j] == if j < sent.len() {
        Some(sent[j])
    } else {
        None::<Seq<u8>>
    } by {
        lemma_receives_take_heads(sent, got, after, j);
        assert(received(after[j], got[j], after[j + 1]));
        if j < sent.len() {
            assert(after[j][0] == sent[j]);
        }
    }
}

/// A device that receives every packet transmitted through it, in FIFO
/// order.
pub struct Loopback {
    queue: VecDeque<Vec<u8>>,
}

impl Loopback {
    /// Packets transmitted and not yet received, oldest first.
    pub closed spec fn queued(&self) -> Seq<Seq<u8>> {
        packets(self.queue@)
    }

    /// A loopback device with nothing queued.
    pub fn new() -> (d: Loopback)
        ensures
            d.queued() == Seq::<Seq<u8>>::empty(),
    {
        let d = Loopback { queue: VecDeque::new() };
        assert(d.queued() =~= Seq::<Seq<u8>>::empty());
        d
    }

    /// Takes the oldest transmitted packet.
    pub fn receive(&mut self) -> (r: Option<RxToken>)
        ensures
            received(
                old(self).queued(),
                match r {
                    Some(rx) => Some(rx.bytes()),
                    None => None,
                },
                final(self).queued(),
            ),
    {
        match self.queue.pop_front() {
            Some(buffer) => {
                assert(self.queued() =~= old(self).queued().drop_first());
                Some(RxToken { buffer })
            },
            None => None,
        }
    }

    /// Transmits a packet that the stack wrote into a buffer from a
    /// `TxToken`: it is queued to be received.
    pub fn transmit(&mut self, packet: Vec<u8>)
        ensures
            transmitted(old(self).queued(), packet@, final(self).queued()),
    {
        let ghost p = packet@;
        self.queue.push_back(packet);
        assert(self.queued() =~= old(self).queued().push(p));
    }
}

} // verus!
