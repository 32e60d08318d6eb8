//! The bookkeeping of the user-space network stack: which packets open TCP
//! sockets and UDP flows, and the single packet held back by its sink.
use vstd::prelude::*;
use std::collections::{BTreeMap, VecDeque};
use crate::addr::{DestinationAddr, IpAddr, SocketAddr};
use crate::classify::{PROTO_TCP, PROTO_UDP, port_at, v4_of};
use crate::wire::{
    be16, ipv4_check, ipv4_dst_addr, ipv4_header_len, ipv4_len_ok, ipv4_payload, ipv4_protocol,
    ipv4_src_addr, ipv4_total_len, tcp_check, tcp_dst_port, tcp_len_ok, tcp_src_port, tcp_syn,
    tcp_syn_flag, udp_check, udp_dst_port, udp_len_ok, udp_src_port,
};

verus! {

broadcast use vstd::array::group_array_axioms;

#[verifier::external_type_specification]
#[verifier::external_body]
#[verifier::reject_recursive_types(T)]
pub struct ExFlumeSender<T>(flume::Sender<T>);

/// The sending side of a new bounded channel (`flume::bounded`); its
/// receiving side is dropped at once. Nothing is stated of the channel.
#[verifier::external_body]
fn bounded_sender(cap: usize) -> (tx: flume::Sender<(DestinationAddr, Vec<u8>)>) {
    flume::bounded(cap).0
}

/// Most TCP sockets the stack keeps at once.
pub const MAX_TCP_SOCKETS: usize = 1024;

/// Capacity of the channel kept for each UDP flow.
pub const UDP_FLOW_CAPACITY: usize = 48;

/// What an inbound packet asks of the stack.
#[derive(Clone, Copy, Debug, PartialEq, Eq)]
pub enum StackPacket {
    /// Nothing: too short, not IPv4, malformed, or neither TCP nor UDP.
    Ignore,
    /// A TCP segment.
    Tcp { src: SocketAddr, dst: SocketAddr, syn: bool },
    /// A UDP datagram.
    Udp { src: SocketAddr, dst: SocketAddr },
}

/// How the stack reads a packet: only IPv4 (by its version nibble) packets
/// of at least 20 octets that pass the IPv4 check are looked at, and of those
/// TCP and UDP ones whose transport header passes its own check.
pub open spec fn spec_stack_packet(pkt: Seq<u8>) -> StackPacket {
    if pkt.len() < 20 || pkt[0] / 16 != 4 || !ipv4_len_ok(pkt) {
        StackPacket::Ignore
    } else {
        let payload = pkt.subrange(ipv4_header_len(pkt), ipv4_total_len(pkt));
        let src_ip = v4_of(pkt.subrange(12, 16));
        let dst_ip = v4_of(pkt.subrange(16, 20));
        if pkt[9] == PROTO_TCP {
            if tcp_len_ok(payload) {
                StackPacket::Tcp {
                    src: SocketAddr { ip: src_ip, port: be16(payload, 0) as u16 },
                    dst: SocketAddr { ip: dst_ip, port: be16(payload, 2) as u16 },
                    syn: tcp_syn(payload),
                }
            } else {
                StackPacket::Ignore
            }
        } else if pkt[9] == PROTO_UDP {
            if udp_len_ok(payload) {
                StackPacket::Udp {
                    src: SocketAddr { ip: src_ip, port: be16(payload, 0) as u16 },
                    dst: SocketAddr { ip: dst_ip, port: be16(payload, 2) as u16 },
                }
            } else {
                StackPacket::Ignore
            }
        } else {
            StackPacket::Ignore
        }
    }
}

/// Reads what an inbound packet asks of the stack.
pub fn classify_stack_packet(pkt: &[u8]) -> (r: StackPacket)
    ensures
        r == spec_stack_packet(pkt@),
{
    if pkt.len() < 20 {
        return StackPacket::Ignore;
    }
    let b0 = pkt[0];
    assert(b0 >> 4 == b0 / 16) by (bit_vector);
    if b0 >> 4 != 4 {
        return StackPacket::Ignore;
    }
    if !ipv4_check(pkt) {
        return StackPacket::Ignore;
    }
    let s = ipv4_src_addr(pkt);
    let d = ipv4_dst_addr(pkt);
    assert(s =~= [s[0], s[1], s[2], s[3]]);
    assert(d =~= [d[0], d[1], d[2], d[3]]);
    let src_ip = IpAddr::V4(s);
    let dst_ip = IpAddr::V4(d);
    let proto = ipv4_protocol(pkt);
    let payload = ipv4_payload(pkt);
    if proto == PROTO_TCP {
        if !tcp_check(payload) {
            return StackPacket::Ignore;
        }
        let src_port = tcp_src_port(payload);
        let dst_port = tcp_dst_port(payload);
        let syn = tcp_syn_flag(payload);
        StackPacket::Tcp {
            src: SocketAddr::new(src_ip, src_port),
            dst: SocketAddr::new(dst_ip, dst_port),
            syn,
        }
    } else if proto == PROTO_UDP {
        if !udp_check(payload) {
            return StackPacket::Ignore;
        }
        let src_port = udp_src_port(payload);
        let dst_port = udp_dst_port(payload);
        StackPacket::Udp { src: SocketAddr::new(src_ip, src_port), dst: SocketAddr::new(dst_ip, dst_port) }
    } else {
        StackPacket::Ignore
    }
}

/// The stack's socket tables, keyed by the client's source port, and the
/// packet its sink holds until the next flush. `H` is the handle of a
/// listening TCP socket.
pub struct NetStack<H> {
    sink_buf: Option<Vec<u8>>,
    tcp_sockets: BTreeMap<u16, H>,
    udp_sockets: BTreeMap<u16, flume::Sender<(DestinationAddr, Vec<u8>)>>,
}

impl<H> NetStack<H> {
    /// The source ports that have a TCP socket.
    pub closed spec fn tcp_ports(&self) -> Set<u16> {
        self.tcp_sockets@.dom()
    }

    /// The handle kept for a source port.
    pub closed spec fn tcp_handle(&self, port: u16) -> H {
        self.tcp_sockets@[port]
    }

    /// The source ports that have a UDP flow.
    pub closed spec fn udp_ports(&self) -> Set<u16> {
        self.udp_sockets@.dom()
    }

    /// The packet held by the sink.
    pub closed spec fn pending(&self) -> Option<Seq<u8>> {
        match self.sink_buf {
            Some(v) => Some(v@),
            None => None,
        }
    }

    /// The stack keeps no more TCP sockets than its limit.
    pub closed spec fn wf(&self) -> bool {
        self.tcp_sockets@.dom().finite() && self.tcp_sockets@.dom().len() <= MAX_TCP_SOCKETS
    }

    /// A stack with no sockets and nothing held.
    pub fn new() -> (s: NetStack<H>)
        ensures
            s.wf(),
            s.tcp_ports() == Set::<u16>::empty(),
            s.udp_ports() == Set::<u16>::empty(),
            s.pending() is None,
    {
        NetStack { sink_buf: None, tcp_sockets: BTreeMap::new(), udp_sockets: BTreeMap::new() }
    }

    /// The number of TCP sockets kept.
    pub fn tcp_socket_count(&self) -> (n: usize)
        ensures
            n == self.tcp_ports().len(),
    {
        self.tcp_sockets.len()
    }

    /// Whether a source port has a TCP socket.
    pub fn has_tcp_socket(&self, port: u16) -> (b: bool)
        ensures
            b == self.tcp_ports().contains(port),
    {
        self.tcp_sockets.contains_key(&port)
    }

    /// Whether `h` is the handle kept for some source port.
    pub open spec fn keeps_handle(&self, h: H) -> bool {
        exists|p: u16| #[trigger] self.tcp_ports().contains(p) && self.tcp_handle(p) == h
    }

    /// The handles of all TCP sockets kept, one per source port.
    pub fn tcp_handles(&self) -> (v: Vec<H>)
        where
            H: Copy,
        ensures
            v@.len() == self.tcp_ports().len(),
            forall|i: int| 0 <= i < v@.len() ==> self.keeps_handle(#[trigger] v@[i]),
            forall|p: u16| #[trigger]
                self.tcp_ports().contains(p) ==> v@.contains(self.tcp_handle(p)),
    {
        let mut v: Vec<H> = Vec::new();
        let values = self.tcp_sockets.values();
        let ghost keys = choose|ks: Seq<u16>|
            {
                &&& ks.to_set() == self.tcp_sockets@.dom()
                &&& vstd::std_specs::iter::IteratorSpec::remaining(&values) == ks.map(|i: int, k: u16| &self.tcp_sockets@[k])
            };
        for h in it: values
            invariant
                v@ == it.seq().subrange(0, it.index()).map_values(|r: &H| *r),
                it.seq() == keys.map(|i: int, k: u16| &self.tcp_sockets@[k]),
                keys.to_set() == self.tcp_sockets@.dom(),
        {
            v.push(*h);
        }
        proof {
            assert(v@ =~= keys.map(|i: int, k: u16| self.tcp_sockets@[k]));
            assert forall|i: int| 0 <= i < v@.len() implies self.keeps_handle(#[trigger] v@[i]) by {
                let p = keys[i];
                assert(keys.to_set().contains(p));
                assert(self.tcp_ports().contains(p) && v@[i] == self.tcp_handle(p));
            }
            assert forall|p: u16| #[trigger]
                self.tcp_ports().contains(p) implies v@.contains(self.tcp_handle(p)) by {
                assert(keys.to_set().contains(p));
                let i = choose|i: int| 0 <= i < keys.len() && keys[i] == p;
                assert(v@[i] == self.tcp_handle(p));
            }
        }
        v
    }

    /// Whether a source port has a UDP flow.
    pub fn has_udp_flow(&self, port: u16) -> (b: bool)
        ensures
            b == self.udp_ports().contains(port),
    {
        self.udp_sockets.contains_key(&port)
    }

    /// Whether a TCP segment from `src_port` makes the stack open a socket: no
    /// socket is kept for the port yet, the segment is a SYN, and the limit is
    /// not reached.
    pub open spec fn opens_tcp_socket(&self, src_port: u16, is_syn: bool) -> bool {
        !self.tcp_ports().contains(src_port) && is_syn && self.tcp_ports().len() < MAX_TCP_SOCKETS
    }

    /// Opens a listening TCP socket for a new client port. `listen` makes the
    /// socket listen on `local` and gives its handle; it is called only when
    /// `opens_tcp_socket` holds.
    pub fn setup_tcp_socket<F: FnOnce(SocketAddr) -> H>(
        &mut self,
        local: SocketAddr,
        src_port: u16,
        is_syn: bool,
        listen: F,
    ) -> (opened: bool)
        requires
            old(self).wf(),
            old(self).opens_tcp_socket(src_port, is_syn) ==> call_requires(listen, (local,)),
        ensures
            final(self).wf(),
            opened == old(self).opens_tcp_socket(src_port, is_syn),
            opened ==> final(self).tcp_ports() == old(self).tcp_ports().insert(src_port)
                && call_ensures(listen, (local,), final(self).tcp_handle(src_port))
                && forall|p: u16| #[trigger]
                    old(self).tcp_ports().contains(p) ==> final(self).tcp_handle(p)
                        == old(self).tcp_handle(p),
            !opened ==> final(self).tcp_ports() == old(self).tcp_ports() && forall|p: u16|
                #[trigger] old(self).tcp_ports().contains(p) ==> final(self).tcp_handle(p)
                    == old(self).tcp_handle(p),
            final(self).udp_ports() == old(self).udp_ports(),
            final(self).pending() == old(self).pending(),
    {
        let count = self.tcp_sockets.len();
        if self.tcp_sockets.contains_key(&src_port) {
            return false;
        }
        if !is_syn || count >= MAX_TCP_SOCKETS {
            return false;
        }
        let handle = listen(local);
        self.tcp_sockets.insert(src_port, handle);
        assert(self.tcp_sockets@.dom() =~= old(self).tcp_sockets@.dom().insert(src_port));
        true
    }

    /// Opens a UDP flow for a new client port; a port that has one keeps it.
    pub fn setup_udp_socket(&mut self, src_port: u16) -> (opened: bool)
        requires
            old(self).wf(),
        ensures
            final(self).wf(),
            opened == !old(self).udp_ports().contains(src_port),
            final(self).udp_ports() == old(self).udp_ports().insert(src_port),
            final(self).tcp_ports() == old(self).tcp_ports(),
            forall|p: u16| final(self).tcp_handle(p) == old(self).tcp_handle(p),
            final(self).pending() == old(self).pending(),
    {
        if self.udp_sockets.contains_key(&src_port) {
            assert(self.udp_sockets@.dom() =~= old(self).udp_sockets@.dom().insert(src_port));
            return false;
        }
        let tx = bounded_sender(UDP_FLOW_CAPACITY);
        self.udp_sockets.insert(src_port, tx);
        assert(self.udp_sockets@.dom() =~= old(self).udp_sockets@.dom().insert(src_port));
        true
    }

    /// Looks at an inbound packet and opens what it asks for: a listening TCP
    /// socket on its destination for a new SYN, or a UDP flow for a new
    /// datagram source port.
    pub fn check_packet<F: FnOnce(SocketAddr) -> H>(&mut self, pkt: &[u8], listen: F) -> (r:
        StackPacket)
        requires
            old(self).wf(),
            spec_stack_packet(pkt@) matches StackPacket::Tcp { src, dst, syn } ==> (
            old(self).opens_tcp_socket(src.port, syn) ==> call_requires(listen, (dst,))),
        ensures
            final(self).wf(),
            r == spec_stack_packet(pkt@),
            final(self).pending() == old(self).pending(),
            match r {
                StackPacket::Ignore => final(self).tcp_ports() == old(self).tcp_ports()
                    && final(self).udp_ports() == old(self).udp_ports(),
                StackPacket::Tcp { src, dst, syn } => final(self).udp_ports() == old(
                    self,
                ).udp_ports() && if old(self).opens_tcp_socket(src.port, syn) {
                    final(self).tcp_ports() == old(self).tcp_ports().insert(src.port)
                        && call_ensures(listen, (dst,), final(self).tcp_handle(src.port))
                } else {
                    final(self).tcp_ports() == old(self).tcp_ports()
                },
                StackPacket::Udp { src, dst } => final(self).tcp_ports() == old(self).tcp_ports()
                    && final(self).udp_ports() == old(self).udp_ports().insert(src.port),
            },
            forall|p: u16| #[trigger]
                old(self).tcp_ports().contains(p) ==> final(self).tcp_handle(p) == old(
                    self,
                ).tcp_handle(p),
    {
        let r = classify_stack_packet(pkt);
        match r {
            StackPacket::Tcp { src, dst, syn } => {
                self.setup_tcp_socket(dst, src.port, syn, listen);
            },
            StackPacket::Udp { src, dst } => {
                self.setup_udp_socket(src.port);
            },
            StackPacket::Ignore => {},
        }
        r
    }

    /// Holds a packet until the next flush, replacing any held one
    /// (`Sink::start_send`).
    pub fn start_send(&mut self, item: Vec<u8>)
        ensures
            final(self).pending() == Some(item@),
            final(self).tcp_ports() == old(self).tcp_ports(),
            final(self).udp_ports() == old(self).udp_ports(),
            forall|p: u16| final(self).tcp_handle(p) == old(self).tcp_handle(p),
            old(self).wf() ==> final(self).wf(),
    {
        self.sink_buf = Some(item);
    }

    /// Whether the sink can take a packet without a flush first
    /// (`Sink::poll_ready`).
    pub fn ready(&self) -> (b: bool)
        ensures
            b == (self.pending() is None),
    {
        self.sink_buf.is_none()
    }

    /// Hands out the held packet and empties the sink; the caller feeds it to
    /// `check_packet` and to the device (`Sink::poll_flush`).
    pub fn take_pending(&mut self) -> (r: Option<Vec<u8>>)
        ensures
            match old(self).pending() {
                Some(p) => r matches Some(v) && v@ == p,
                None => r is None,
            },
            final(self).pending() is None,
            final(self).tcp_ports() == old(self).tcp_ports(),
            final(self).udp_ports() == old(self).udp_ports(),
            forall|p: u16| final(self).tcp_handle(p) == old(self).tcp_handle(p),
            old(self).wf() ==> final(self).wf(),
    {
        self.sink_buf.take()
    }
}

/// The connections the stack has accepted and the listener has not yet
/// handed out, oldest first.
pub struct AcceptQueue<T> {
    queue: VecDeque<T>,
}

impl<T> AcceptQueue<T> {
    /// The accepted connections waiting, oldest first.
    pub closed spec fn waiting(&self) -> Seq<T> {
        self.queue@
    }

    /// An empty queue.
    pub fn new() -> (q: AcceptQueue<T>)
        ensures
            q.waiting() == Seq::<T>::empty(),
    {
        AcceptQueue { queue: VecDeque::new() }
    }

    /// Adds an accepted connection at the back.
    pub fn add(&mut self, stream: T)
        ensures
            final(self).waiting() == old(self).waiting().push(stream),
    {
        self.queue.push_back(stream);
    }

    /// Hands out the oldest accepted connection, if any.
    pub fn poll_next(&mut self) -> (r: Option<T>)
        ensures
            old(self).waiting().len() == 0 ==> r is None,
            old(self).waiting().len() == 0 ==> final(self).waiting() == old(self).waiting(),
            old(self).waiting().len() > 0 ==> r == Some(old(self).waiting()[0]),
            old(self).waiting().len() > 0 ==> final(self).waiting() == old(self).waiting().drop_first(),
    {
        self.queue.pop_front()
    }
}

/// What the stack reads of a packet, over its octets: a TCP segment or UDP
/// datagram it reports has its source address at octets 12-15 and its
/// destination address at 16-19 of the IPv4 header, its source port at the
/// first two octets of the transport header (which starts at `h`, four times
/// the low nibble of octet 0) and its destination port at the next two, each
/// read big-endian on its own; it is TCP exactly when octet 9 is 6 and UDP
/// exactly when it is 17, and a segment is a SYN exactly when bit 1 of the
/// TCP header's octet 13 is set. A packet shorter than 20 octets or with a
/// version nibble other than 4 is ignored.
pub proof fn lemma_stack_packet_reads_headers(pkt: Seq<u8>)
    ensures
        pkt.len() < 20 || pkt[0] / 16 != 4 ==> spec_stack_packet(pkt) == StackPacket::Ignore,
        ({
            let h = (pkt[0] % 16) as int * 4;
            let src_ip = IpAddr::V4([pkt[12], pkt[13], pkt[14], pkt[15]]);
            let dst_ip = IpAddr::V4([pkt[16], pkt[17], pkt[18], pkt[19]]);
            &&& spec_stack_packet(pkt) matches StackPacket::Udp { src, dst } ==> pkt[9] == 17
                && src == SocketAddr { ip: src_ip, port: port_at(pkt, h) } && dst == SocketAddr {
                ip: dst_ip,
                port: port_at(pkt, h + 2),
            }
            &&& spec_stack_packet(pkt) matches StackPacket::Tcp { src, dst, syn } ==> pkt[9] == 6
                && src == SocketAddr { ip: src_ip, port: port_at(pkt, h) } && dst == SocketAddr {
                ip: dst_ip,
                port: port_at(pkt, h + 2),
            } && syn == ((pkt[h + 13] / 2) % 2 == 1)
        }),
{
    if pkt.len() >= 20 && pkt[0] / 16 == 4 && ipv4_len_ok(pkt) {
        let h = (pkt[0] % 16) as int * 4;
        let payload = pkt.subrange(ipv4_header_len(pkt), ipv4_total_len(pkt));
        if payload.len() >= 4 {
            assert(payload[0] == pkt[h] && payload[1] == pkt[h + 1] && payload[2] == pkt[h + 2]
                && payload[3] == pkt[h + 3]);
        }
        if payload.len() >= 20 {
            assert(payload[13] == pkt[h + 13]);
        }
        assert(pkt.subrange(12, 16)[0] == pkt[12] && pkt.subrange(12, 16)[3] == pkt[15]);
        assert(pkt.subrange(16, 20)[0] == pkt[16] && pkt.subrange(16, 20)[3] == pkt[19]);
        assert(v4_of(pkt.subrange(12, 16)) == IpAddr::V4([pkt[12], pkt[13], pkt[14], pkt[15]]));
        assert(v4_of(pkt.subrange(16, 20)) == IpAddr::V4([pkt[16], pkt[17], pkt[18], pkt[19]]));
    }
}

} // verus!
