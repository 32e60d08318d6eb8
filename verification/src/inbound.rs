//! The decisions of the packet inbound: how packets are framed on a TCP
//! sink, how Fake DNS is configured, and where sessions and datagrams go.
use vstd::prelude::*;
use crate::addr::{IpAddr, SocketAddr, SocksAddr};
use crate::text::{decimal, loopback_addr, loopback_endpoint};

verus! {

/// Octets of the header prefix read before a packet's length is known.
pub const FRAME_HEADER_LEN: usize = 6;

/// Size of the buffer the TCP sink reads packet bodies into.
pub const FRAME_MTU: usize = 1512;

/// Extra octets counted for an IPv6 packet besides its payload length.
pub const IPV6_HEADER_LEN: usize = 40;

/// What to do after reading a header prefix.
#[derive(Clone, Copy, Debug, PartialEq, Eq)]
pub enum FrameStep {
    /// Read this many more octets: the rest of the packet.
    ReadBody(usize),
    /// The version nibble is neither 4 nor 6: stop reading this stream.
    BadVersion(u8),
}

/// The whole length of the packet a header prefix starts, as the TCP sink
/// reads it: the IPv4 total length, or the IPv6 payload length plus 40;
/// `None` for another version.
pub open spec fn frame_packet_len(h: Seq<u8>) -> Option<int> {
    if h[0] / 16 == 4 {
        Some(h[2] as int * 256 + h[3] as int)
    } else if h[0] / 16 == 6 {
        Some(h[4] as int * 256 + h[5] as int + 40)
    } else {
        None
    }
}

/// Whether reading after this header prefix stays within bounds: the packet
/// is at least as long as the prefix and its rest fits the body buffer.
pub open spec fn frame_header_sound(h: Seq<u8>) -> bool {
    frame_packet_len(h) matches Some(n) ==> FRAME_HEADER_LEN <= n <= FRAME_HEADER_LEN
        + FRAME_MTU
}

/// Decides, from the first six octets of a packet, how many more octets
/// make up the packet.
pub fn frame_step(header: &[u8]) -> (r: FrameStep)
    requires
        header@.len() == FRAME_HEADER_LEN,
        frame_header_sound(header@),
    ensures
        match frame_packet_len(header@) {
            Some(n) => r == FrameStep::ReadBody((n - FRAME_HEADER_LEN) as usize),
            None => r == FrameStep::BadVersion(header@[0] / 16),
        },
{
    let b0 = header[0];
    let ver = b0 >> 4;
    assert(b0 >> 4 == b0 / 16) by (bit_vector);
    if ver == 4 {
        let pkt_len = header[2] as usize * 256 + header[3] as usize;
        FrameStep::ReadBody(pkt_len - FRAME_HEADER_LEN)
    } else if ver == 6 {
        let payload_len = header[4] as usize * 256 + header[5] as usize;
        FrameStep::ReadBody(payload_len + IPV6_HEADER_LEN - FRAME_HEADER_LEN)
    } else {
        FrameStep::BadVersion(ver)
    }
}

/// Whether a header prefix can be framed: it asks for a packet no shorter
/// than itself whose rest fits the body buffer (another version can always
/// be reported).
pub fn frame_header_fits(header: &[u8]) -> (b: bool)
    requires
        header@.len() == FRAME_HEADER_LEN,
    ensures
        b == frame_header_sound(header@),
{
    let b0 = header[0];
    assert(b0 >> 4 == b0 / 16) by (bit_vector);
    let ver = b0 >> 4;
    let n: usize = if ver == 4 {
        header[2] as usize * 256 + header[3] as usize
    } else if ver == 6 {
        header[4] as usize * 256 + header[5] as usize + IPV6_HEADER_LEN
    } else {
        return true;
    };
    FRAME_HEADER_LEN <= n && n <= FRAME_HEADER_LEN + FRAME_MTU
}

/// Puts a packet back together from its header prefix and its body.
pub fn assemble_frame(header: &[u8], body: &[u8]) -> (r: Vec<u8>)
    ensures
        r@ == header@ + body@,
{
    let mut v: Vec<u8> = Vec::new();
    let mut i: usize = 0;
    while i < header.len()
        invariant
            i <= header@.len(),
            v@ == header@.subrange(0, i as int),
        decreases header@.len() - i,
    {
        v.push(header[i]);
        i += 1;
        assert(v@ =~= header@.subrange(0, i as int));
    }
    let mut j: usize = 0;
    while j < body.len()
        invariant
            j <= body@.len(),
            v@ == header@ + body@.subrange(0, j as int),
        decreases body@.len() - j,
    {
        v.push(body[j]);
        j += 1;
        assert(v@ =~= header@ + body@.subrange(0, j as int));
    }
    assert(body@.subrange(0, body@.len() as int) =~= body@);
    v
}

/// A packet the TCP sink frames as itself: an IPv4 packet whose total
/// length field, or an IPv6 packet whose payload length plus 40, is its
/// length, no shorter than the prefix and fitting the buffer.
pub open spec fn well_framed(p: Seq<u8>) -> bool {
    &&& FRAME_HEADER_LEN <= p.len() <= FRAME_HEADER_LEN + FRAME_MTU
    &&& frame_packet_len(p) == Some(p.len() as int)
}

/// Framing gives back each well-framed packet: its first six octets ask for
/// exactly the rest of it, and the prefix and the rest put together are the
/// packet again.
pub proof fn lemma_framing_round_trip(p: Seq<u8>)
    requires
        well_framed(p),
    ensures
        frame_header_sound(p.subrange(0, FRAME_HEADER_LEN as int)),
        frame_packet_len(p.subrange(0, FRAME_HEADER_LEN as int)) == Some(p.len() as int),
        p.subrange(0, FRAME_HEADER_LEN as int) + p.subrange(FRAME_HEADER_LEN as int, p.len() as int)
            == p,
{
    let h = p.subrange(0, FRAME_HEADER_LEN as int);
    assert(h[0] == p[0] && h[2] == p[2] && h[3] == p[3] && h[4] == p[4] && h[5] == p[5]);
    assert(h + p.subrange(FRAME_HEADER_LEN as int, p.len() as int) =~= p);
}

/// How the Fake DNS filters are read.
#[derive(Clone, Copy, Debug, PartialEq, Eq)]
pub enum FakeDnsMode {
    /// Only the listed domains get fake addresses.
    Include,
    /// Every domain but the listed ones gets a fake address.
    Exclude,
}

/// Why an inbound could not be set up.
#[derive(Clone, Debug, PartialEq, Eq)]
pub enum InboundError {
    /// Fake DNS was given both domains to serve and domains to leave out.
    FakeDnsModeConflict,
}

impl InboundError {
    /// The message the error is reported with.
    pub fn message(&self) -> (m: String)
        ensures
            match self {
                InboundError::FakeDnsModeConflict => m@
                    == "fake DNS run in either include mode or exclude mode"@,
            },
    {
        match self {
            InboundError::FakeDnsModeConflict => String::from_str(
                "fake DNS run in either include mode or exclude mode",
            ),
        }
    }
}

/// Chooses the Fake DNS mode: a list of included domains, when given, selects
/// `Include`; otherwise `Exclude` goes with the list of excluded domains.
/// Giving both is an error.
pub fn fake_dns_config(included: Vec<String>, excluded: Vec<String>) -> (r: Result<
    (FakeDnsMode, Vec<String>),
    InboundError,
>)
    ensures
        included@.len() > 0 && excluded@.len() > 0 <==> r == Err::<(FakeDnsMode, Vec<String>), _>(
            InboundError::FakeDnsModeConflict,
        ),
        r matches Ok((mode, filters)) ==> if included@.len() > 0 {
            mode == FakeDnsMode::Include && filters@ == included@
        } else {
            mode == FakeDnsMode::Exclude && filters@ == excluded@
        },
{
    if !excluded.is_empty() && !included.is_empty() {
        return Err(InboundError::FakeDnsModeConflict);
    }
    if !included.is_empty() {
        Ok((FakeDnsMode::Include, included))
    } else {
        Ok((FakeDnsMode::Exclude, excluded))
    }
}

/// Where the packet inbound takes its packets from.
#[derive(Clone, Copy, Debug, PartialEq, Eq)]
pub enum PacketSinkKind {
    /// A TCP listener on the loopback address.
    Tcp,
    /// A UDP socket on the loopback address, connected to the port below it.
    Udp,
    /// Any other sink: the inbound does nothing.
    Other,
}

/// The settings of a packet inbound.
#[derive(Clone, Debug)]
pub struct PacketInboundSettings {
    pub port: u32,
    pub sink: PacketSinkKind,
    pub fake_dns_include: Vec<String>,
    pub fake_dns_exclude: Vec<String>,
}

/// What the packet inbound runs.
#[derive(Clone, Debug)]
pub enum PacketRunner {
    /// Accept TCP connections on `listen` and frame packets from each.
    TcpListen { listen: String },
    /// Bind `listen`, connect to `remote`, and take one packet per datagram.
    /// `remote` is the port below `listen`; on port 0 there is none, and the
    /// runner cannot start.
    UdpConnected { listen: String, remote: Option<String> },
    /// Nothing to run.
    Idle,
}

/// How a packet inbound is set up.
#[derive(Clone, Debug)]
pub struct PacketInboundPlan {
    pub fake_dns_mode: FakeDnsMode,
    pub fake_dns_filters: Vec<String>,
    pub runner: PacketRunner,
}

/// The text of each string in a list.
pub open spec fn texts(v: Seq<String>) -> Seq<Seq<char>> {
    v.map_values(|s: String| s@)
}

/// What setting up a packet inbound gives for its port, sink and Fake DNS
/// lists: an error when both lists are given; otherwise the mode of
/// `fake_dns_config` with its list, and the loopback addresses of the sink
/// (for a UDP sink, its own port and the port below, if there is one).
pub open spec fn spec_plan(
    port: u32,
    sink: PacketSinkKind,
    included: Seq<Seq<char>>,
    excluded: Seq<Seq<char>>,
    r: Result<PacketInboundPlan, InboundError>,
) -> bool {
    if included.len() > 0 && excluded.len() > 0 {
        r == Err::<PacketInboundPlan, InboundError>(InboundError::FakeDnsModeConflict)
    } else {
        r matches Ok(plan) && {
            &&& if included.len() > 0 {
                plan.fake_dns_mode == FakeDnsMode::Include && texts(plan.fake_dns_filters@)
                    == included
            } else {
                plan.fake_dns_mode == FakeDnsMode::Exclude && texts(plan.fake_dns_filters@)
                    == excluded
            }
            &&& match sink {
                PacketSinkKind::Tcp => plan.runner matches PacketRunner::TcpListen { listen }
                    && listen@ == loopback_endpoint(port as nat),
                PacketSinkKind::Udp => plan.runner matches PacketRunner::UdpConnected {
                    listen,
                    remote,
                } && listen@ == loopback_endpoint(port as nat) && if port == 0 {
                    remote is None
                } else {
                    remote matches Some(rem) && rem@ == loopback_endpoint((port - 1) as nat)
                },
                PacketSinkKind::Other => plan.runner is Idle,
            }
        }
    }
}

/// Sets up a packet inbound from its settings: the Fake DNS mode, and the
/// loopback addresses its sink uses.
pub fn plan_packet_inbound(settings: PacketInboundSettings) -> (r: Result<
    PacketInboundPlan,
    InboundError,
>)
    ensures
        spec_plan(
            settings.port,
            settings.sink,
            texts(settings.fake_dns_include@),
            texts(settings.fake_dns_exclude@),
            r,
        ),
{
    let port = settings.port;
    let sink = settings.sink;
    let ghost inc = settings.fake_dns_include@;
    let ghost exc = settings.fake_dns_exclude@;
    let (mode, filters) = match fake_dns_config(settings.fake_dns_include, settings.fake_dns_exclude) {
        Ok(c) => c,
        Err(e) => {
            assert(texts(inc).len() == inc.len());
            assert(texts(exc).len() == exc.len());
            return Err(e);
        },
    };
    let runner = match sink {
        PacketSinkKind::Tcp => PacketRunner::TcpListen { listen: loopback_addr(port as u64) },
        PacketSinkKind::Udp => PacketRunner::UdpConnected {
            listen: loopback_addr(port as u64),
            remote: if port == 0 {
                None
            } else {
                Some(loopback_addr((port - 1) as u64))
            },
        },
        PacketSinkKind::Other => PacketRunner::Idle,
    };
    assert(texts(inc).len() == inc.len());
    assert(texts(exc).len() == exc.len());
    Ok(PacketInboundPlan { fake_dns_mode: mode, fake_dns_filters: filters, runner })
}

/// The port of TLS, on which a connection to a fake address without a
/// paired domain is still let through.
pub const TLS_PORT: u16 = 443;

/// The port of DNS, whose datagrams Fake DNS answers.
pub const DNS_PORT: u16 = 53;

/// Where a TCP session accepted from the stack goes. A connection to a fake
/// address goes to its paired domain; without one it is rejected, except on
/// the TLS port, where the address itself is kept so the domain can be
/// sniffed. `paired_domain` is looked at only for a fake address.
pub open spec fn spec_stream_destination(
    remote: SocketAddr,
    is_fake: bool,
    paired_domain: Option<String>,
) -> Option<SocksAddr> {
    if is_fake {
        match paired_domain {
            Some(d) => Some(SocksAddr::Domain(d, remote.port)),
            None => if remote.port != TLS_PORT {
                None
            } else {
                Some(SocksAddr::Ip(remote))
            },
        }
    } else {
        Some(SocksAddr::Ip(remote))
    }
}

/// Where a TCP session accepted from the stack goes; `None` rejects it.
pub fn stream_destination(remote: SocketAddr, is_fake: bool, paired_domain: Option<String>) -> (r:
    Option<SocksAddr>)
    ensures
        r == spec_stream_destination(remote, is_fake, paired_domain),
{
    if is_fake {
        match paired_domain {
            Some(d) => Some(SocksAddr::Domain(d, remote.port)),
            None => {
                if remote.port != TLS_PORT {
                    None
                } else {
                    Some(SocksAddr::Ip(remote))
                }
            },
        }
    } else {
        Some(SocksAddr::Ip(remote))
    }
}

/// The kind of traffic a session carries.
#[derive(Clone, Copy, Debug, PartialEq, Eq)]
pub enum Network {
    Tcp,
    Udp,
}

/// A session handed to the dispatcher.
#[derive(Clone, Debug)]
pub struct InboundSession {
    pub network: Network,
    pub source: SocketAddr,
    pub local_addr: SocketAddr,
    pub destination: SocksAddr,
    pub inbound_tag: String,
}

/// The session for a TCP connection accepted from the stack, or `None` when
/// it is rejected (see `spec_stream_destination`).
pub fn inbound_stream_session(
    local_addr: SocketAddr,
    remote_addr: SocketAddr,
    inbound_tag: String,
    is_fake: bool,
    paired_domain: Option<String>,
) -> (r: Option<InboundSession>)
    ensures
        match spec_stream_destination(remote_addr, is_fake, paired_domain) {
            None => r is None,
            Some(d) => r matches Some(s) && s.network == Network::Tcp && s.source == local_addr
                && s.local_addr == remote_addr && s.destination == d && s.inbound_tag
                == inbound_tag,
        },
{
    match stream_destination(remote_addr, is_fake, paired_domain) {
        Some(destination) => Some(
            InboundSession {
                network: Network::Tcp,
                source: local_addr,
                local_addr: remote_addr,
                destination,
                inbound_tag,
            },
        ),
        None => None,
    }
}

/// Whether a datagram from the stack is first offered to Fake DNS for an
/// answer: it is sent to the DNS port.
pub fn offer_to_fake_dns(dst: SocketAddr) -> (b: bool)
    ensures
        b == (dst.port == DNS_PORT),
{
    dst.port == DNS_PORT
}

/// Where a datagram from the stack goes: to the paired domain of a fake
/// address, nowhere (`None`) when a fake address has none, or to the
/// address itself. `paired_domain` is looked at only for a fake address.
pub open spec fn spec_datagram_destination(
    dst: SocketAddr,
    is_fake: bool,
    paired_domain: Option<String>,
) -> Option<SocksAddr> {
    if is_fake {
        match paired_domain {
            Some(d) => Some(SocksAddr::Domain(d, dst.port)),
            None => None,
        }
    } else {
        Some(SocksAddr::Ip(dst))
    }
}

/// Where a datagram from the stack goes; `None` drops it.
pub fn datagram_destination(dst: SocketAddr, is_fake: bool, paired_domain: Option<String>) -> (r:
    Option<SocksAddr>)
    ensures
        r == spec_datagram_destination(dst, is_fake, paired_domain),
{
    if is_fake {
        match paired_domain {
            Some(d) => Some(SocksAddr::Domain(d, dst.port)),
            None => None,
        }
    } else {
        Some(SocksAddr::Ip(dst))
    }
}

/// What happens to a datagram the stack delivers.
#[derive(Debug)]
pub enum DatagramStep {
    /// Write `data` back to the stack, sent from `from` to `to`; the datagram
    /// goes no further.
    Reply { data: Vec<u8>, from: SocketAddr, to: SocketAddr },
    /// Hand the datagram to the NAT manager, from `src` to `dst`.
    Forward { data: Vec<u8>, src: SocksAddr, dst: SocksAddr },
    /// Drop it.
    Drop,
}

/// What happens to a datagram `data` from `src` to `dst` that the stack
/// delivers. `fake_answer` is the answer Fake DNS made for it, when it was
/// offered one (see `offer_to_fake_dns`): that answer goes back to the
/// sender, from the address it was sent to, and the datagram is not
/// forwarded. Otherwise it is forwarded to where `datagram_destination`
/// says, from its IP source, or dropped when that says nowhere.
/// `fake_answer` is looked at only for a datagram to the DNS port;
/// `is_fake` and `paired_domain` describe `dst` as in
/// `datagram_destination`.
pub fn datagram_step(
    data: Vec<u8>,
    src: SocketAddr,
    dst: SocketAddr,
    fake_answer: Option<Vec<u8>>,
    is_fake: bool,
    paired_domain: Option<String>,
) -> (r: DatagramStep)
    ensures
        if dst.port == DNS_PORT && fake_answer is Some {
            r matches DatagramStep::Reply { data: d, from, to } && d@ == fake_answer->0@ && from
                == dst && to == src
        } else {
            match spec_datagram_destination(dst, is_fake, paired_domain) {
                None => r is Drop,
                Some(d) => r matches DatagramStep::Forward { data: x, src: s2, dst: d2 } && x@
                    == data@ && s2 == SocksAddr::Ip(src) && d2 == d,
            }
        },
{
    if offer_to_fake_dns(dst) {
        match fake_answer {
            Some(answer) => {
                return DatagramStep::Reply { data: answer, from: dst, to: src };
            },
            None => {},
        }
    }
    match datagram_destination(dst, is_fake, paired_domain) {
        Some(d) => DatagramStep::Forward { data, src: SocksAddr::Ip(src), dst: d },
        None => DatagramStep::Drop,
    }
}

/// The source address a datagram coming back is written to the stack with:
/// an IP source as it is, a domain source as its paired fake address with
/// the same port, and `None` (the datagram is dropped) when the domain has
/// no fake address.
pub fn downlink_source(src: SocksAddr, fake_ip: Option<IpAddr>) -> (r: Option<SocketAddr>)
    ensures
        match src {
            SocksAddr::Ip(a) => r == Some(a),
            SocksAddr::Domain(_, port) => match fake_ip {
                Some(ip) => r == Some(SocketAddr { ip, port }),
                None => r is None,
            },
        },
{
    match src {
        SocksAddr::Ip(a) => Some(a),
        SocksAddr::Domain(_, port) => match fake_ip {
            Some(ip) => Some(SocketAddr::new(ip, port)),
            None => None,
        },
    }
}

} // verus!
