//! Recognising the connection a raw IP packet belongs to.
use vstd::prelude::*;
use vstd::slice::slice_subrange;
use crate::addr::{IpAddr, SocketAddr};
use crate::wire::{
    be16, ipv4_check, ipv4_dst_addr, ipv4_header_len, ipv4_header_length, ipv4_len_ok, ipv4_protocol,
    ipv4_src_addr, ipv6_check, ipv6_dst_addr, ipv6_header_length, ipv6_len_ok, ipv6_next_header,
    ipv6_src_addr, tcp_ack, tcp_ack_flag, tcp_check, tcp_dst_port, tcp_header_len, tcp_header_length,
    tcp_len_ok, tcp_src_port, tcp_syn, tcp_syn_flag, udp_check, udp_dst_port, udp_len_ok, udp_src_port,
};

verus! {

broadcast use vstd::array::group_array_axioms;

/// The endpoints and transport protocol number of a packet.
#[derive(Clone, Copy, Debug, PartialEq, Eq)]
pub struct Connection {
    pub src: SocketAddr,
    pub dst: SocketAddr,
    pub proto: u8,
}

/// Protocol number of TCP.
pub const PROTO_TCP: u8 = 6;

/// Protocol number of UDP.
pub const PROTO_UDP: u8 = 17;

/// What a transport header gives: the ports, whether it opens a connection
/// (a TCP SYN without ACK), the payload offset and the payload size.
pub open spec fn spec_transport_info(proto: u8, offset: int, seg: Seq<u8>) -> Option<
    ((u16, u16), bool, int, int),
> {
    if proto == PROTO_UDP {
        if udp_len_ok(seg) {
            Some(((be16(seg, 0) as u16, be16(seg, 2) as u16), false, offset + 8, seg.len() - 8))
        } else {
            None
        }
    } else if proto == PROTO_TCP {
        if tcp_len_ok(seg) {
            Some(
                (
                    (be16(seg, 0) as u16, be16(seg, 2) as u16),
                    tcp_syn(seg) && !tcp_ack(seg),
                    offset + tcp_header_len(seg),
                    seg.len() as int,
                ),
            )
        } else {
            None
        }
    } else {
        None
    }
}

/// Reads the transport header that starts at `transport_offset` in the IP
/// packet and is held in `packet`.
pub fn get_transport_info(proto: u8, transport_offset: usize, packet: &[u8]) -> (r: Option<
    ((u16, u16), bool, usize, usize),
>)
    requires
        spec_transport_info(proto, transport_offset as int, packet@) matches Some(t) ==> t.2
            <= usize::MAX,
    ensures
        match spec_transport_info(proto, transport_offset as int, packet@) {
            None => r is None,
            Some(t) => r matches Some(x) && x.0 == t.0 && x.1 == t.1 && x.2 == t.2 && x.3 == t.3,
        },
{
    if proto == PROTO_UDP {
        if udp_check(packet) {
            let src = udp_src_port(packet);
            let dst = udp_dst_port(packet);
            Some(((src, dst), false, transport_offset + 8, packet.len() - 8))
        } else {
            None
        }
    } else if proto == PROTO_TCP {
        if tcp_check(packet) {
            let src = tcp_src_port(packet);
            let dst = tcp_dst_port(packet);
            let first = tcp_syn_flag(packet) && !tcp_ack_flag(packet);
            let hl = tcp_header_length(packet);
            Some(((src, dst), first, transport_offset + hl as usize, packet.len()))
        } else {
            None
        }
    } else {
        None
    }
}

/// The connection an IP packet belongs to, with the transport information
/// that `spec_transport_info` reads. A buffer that passes the IPv4 length
/// check is read as IPv4, whatever its version nibble; only one that fails it
/// is tried as IPv6.
pub open spec fn spec_connection_tuple(frame: Seq<u8>) -> Option<(Connection, bool, int, int)> {
    if ipv4_len_ok(frame) {
        let hl = ipv4_header_len(frame);
        let proto = frame[9];
        match spec_transport_info(proto, hl, frame.subrange(hl, frame.len() as int)) {
            None => None,
            Some(t) => Some(
                (
                    Connection {
                        src: SocketAddr { ip: v4_of(frame.subrange(12, 16)), port: t.0.0 },
                        dst: SocketAddr { ip: v4_of(frame.subrange(16, 20)), port: t.0.1 },
                        proto,
                    },
                    t.1,
                    t.2,
                    t.3,
                ),
            ),
        }
    } else if ipv6_len_ok(frame) {
        let proto = frame[6];
        match spec_transport_info(proto, 40, frame.subrange(40, frame.len() as int)) {
            None => None,
            Some(t) => Some(
                (
                    Connection {
                        src: SocketAddr { ip: v6_of(frame.subrange(8, 24)), port: t.0.0 },
                        dst: SocketAddr { ip: v6_of(frame.subrange(24, 40)), port: t.0.1 },
                        proto,
                    },
                    t.1,
                    t.2,
                    t.3,
                ),
            ),
        }
    } else {
        None
    }
}

/// The IPv4 address made of four octets.
pub open spec fn v4_of(s: Seq<u8>) -> IpAddr {
    IpAddr::V4([s[0], s[1], s[2], s[3]])
}

/// The IPv6 address made of sixteen octets.
pub open spec fn v6_of(s: Seq<u8>) -> IpAddr {
    IpAddr::V6(
        [
            s[0],
            s[1],
            s[2],
            s[3],
            s[4],
            s[5],
            s[6],
            s[7],
            s[8],
            s[9],
            s[10],
            s[11],
            s[12],
            s[13],
            s[14],
            s[15],
        ],
    )
}

/// Finds the connection of a raw IP packet: its addresses and ports, its
/// transport protocol, whether it opens a TCP connection, and where its
/// payload lies.
pub fn connection_tuple(frame: &[u8]) -> (r: Option<(Connection, bool, usize, usize)>)
    ensures
        match spec_connection_tuple(frame@) {
            None => r is None,
            Some(t) => r matches Some(x) && x.0 == t.0 && x.1 == t.1 && x.2 == t.2 && x.3 == t.3,
        },
{
    if ipv4_check(frame) {
        let proto = ipv4_protocol(frame);
        let s = ipv4_src_addr(frame);
        let d = ipv4_dst_addr(frame);
        let hl = ipv4_header_length(frame) as usize;
        let rest = slice_subrange(frame, hl, frame.len());
        match get_transport_info(proto, hl, rest) {
            Some((ports, first, off, size)) => {
                let src = IpAddr::V4(s);
                let dst = IpAddr::V4(d);
                assert(s =~= [s[0], s[1], s[2], s[3]]);
                assert(d =~= [d[0], d[1], d[2], d[3]]);
                assert(src == v4_of(frame@.subrange(12, 16)));
                assert(dst == v4_of(frame@.subrange(16, 20)));
                let c = Connection {
                    src: SocketAddr::new(src, ports.0),
                    dst: SocketAddr::new(dst, ports.1),
                    proto,
                };
                Some((c, first, off, size))
            },
            None => None,
        }
    } else if ipv6_check(frame) {
        let proto = ipv6_next_header(frame);
        let s = ipv6_src_addr(frame);
        let d = ipv6_dst_addr(frame);
        let hl = ipv6_header_length(frame);
        let rest = slice_subrange(frame, hl, frame.len());
        match get_transport_info(proto, hl, rest) {
            Some((ports, first, off, size)) => {
                let src = IpAddr::V6(s);
                let dst = IpAddr::V6(d);
                assert(s =~= [s[0], s[1], s[2], s[3], s[4], s[5], s[6], s[7], s[8], s[9], s[10], s[11], s[12], s[13], s[14], s[15]]);
                assert(d =~= [d[0], d[1], d[2], d[3], d[4], d[5], d[6], d[7], d[8], d[9], d[10], d[11], d[12], d[13], d[14], d[15]]);
                assert(src == v6_of(frame@.subrange(8, 24)));
                assert(dst == v6_of(frame@.subrange(24, 40)));
                let c = Connection {
                    src: SocketAddr::new(src, ports.0),
                    dst: SocketAddr::new(dst, ports.1),
                    proto,
                };
                Some((c, first, off, size))
            },
            None => None,
        }
    } else {
        None
    }
}

/// Where the packet stack listens for a new TCP connection: a buffer that
/// passes the IPv4 check and names TCP, read from its first octet on as a
/// TCP header (as the stack does), that passes the TCP check and carries a
/// SYN without ACK, asks for a socket listening on its IPv4 destination at
/// the port that header gives.
pub open spec fn spec_first_segment_listen(frame: Seq<u8>) -> Option<SocketAddr> {
    if ipv4_len_ok(frame) && frame[9] == PROTO_TCP && tcp_len_ok(frame) && tcp_syn(frame)
        && !tcp_ack(frame) {
        Some(SocketAddr { ip: v4_of(frame.subrange(16, 20)), port: be16(frame, 2) as u16 })
    } else {
        None
    }
}

/// The endpoint the packet stack opens a listening TCP socket on for a
/// packet, if it opens one.
pub fn first_segment_listen(frame: &[u8]) -> (r: Option<SocketAddr>)
    ensures
        r == spec_first_segment_listen(frame@),
{
    if !ipv4_check(frame) {
        return None;
    }
    if ipv4_protocol(frame) != PROTO_TCP {
        return None;
    }
    if !tcp_check(frame) {
        return None;
    }
    if tcp_syn_flag(frame) && !tcp_ack_flag(frame) {
        let d = ipv4_dst_addr(frame);
        assert(d =~= [d[0], d[1], d[2], d[3]]);
        let port = tcp_dst_port(frame);
        Some(SocketAddr::new(IpAddr::V4(d), port))
    } else {
        None
    }
}

} // verus!

verus! {

/// The big-endian number at octets `i` and `i + 1`, as a port.
pub open spec fn port_at(s: Seq<u8>, i: int) -> u16 {
    (s[i] as int * 256 + s[i + 1] as int) as u16
}

/// What a transport header tells, over its octets: a UDP header (protocol
/// 17) whose length field at octets 4-5 is at least 8 and fits the buffer
/// gives the ports at octets 0-1 and 2-3, opens no connection, and its
/// payload starts 8 octets in and runs to the end; a TCP header (protocol 6)
/// whose data offset (the high nibble of octet 12, in 32-bit words) is at
/// least 5 and fits the buffer gives the ports at octets 0-1 and 2-3, opens
/// a connection exactly when SYN (bit 1 of octet 13) is set and ACK (bit 4)
/// is not, and its payload starts after the whole header, options included,
/// taking the whole buffer as its size; anything else gives nothing.
pub proof fn lemma_transport_info_reads_header(proto: u8, offset: int, seg: Seq<u8>)
    ensures
        proto == 17 && seg.len() >= 8 && seg[4] as int * 256 + seg[5] as int >= 8 && seg.len()
            >= seg[4] as int * 256 + seg[5] as int ==> spec_transport_info(proto, offset, seg) == Some(
            ((port_at(seg, 0), port_at(seg, 2)), false, offset + 8, seg.len() - 8),
        ),
        proto == 6 && seg.len() >= 20 && (seg[12] / 16) as int * 4 >= 20 && seg.len() >= (seg[12]
            / 16) as int * 4 ==> spec_transport_info(proto, offset, seg) == Some(
            (
                (port_at(seg, 0), port_at(seg, 2)),
                (seg[13] / 2) % 2 == 1 && (seg[13] / 16) % 2 == 0,
                offset + (seg[12] / 16) as int * 4,
                seg.len() as int,
            ),
        ),
        proto == 6 && seg.len() >= 20 && (seg[12] / 16) as int * 4 > 20 && seg.len() >= (seg[12]
            / 16) as int * 4 ==> (spec_transport_info(proto, offset, seg) matches Some(t) && t.2
            > offset + 20),
        proto == 6 && (seg.len() < 20 || (seg[12] / 16) as int * 4 < 20 || seg.len() < (seg[12]
            / 16) as int * 4) ==> spec_transport_info(proto, offset, seg) is None,
        proto != 6 && proto != 17 ==> spec_transport_info(proto, offset, seg) is None,
{
}

/// The connection of an IPv4 TCP or UDP packet, over its octets: for a
/// buffer of at least 20 octets whose header length `h` (the low nibble of
/// octet 0, in 32-bit words) and total length (octets 2-3) fit it and each
/// other, and whose transport header at `h` passes its check, the
/// connection runs from the address at octets 12-15 and the source port at
/// `h`..`h+1` to the address at octets 16-19 and the destination port at
/// `h+2`..`h+3`, under the protocol at octet 9; a TCP payload starts after
/// the IP header and the whole TCP header, options included.
pub proof fn lemma_connection_tuple_reads_ipv4(frame: Seq<u8>)
    requires
        frame.len() >= 20,
        frame.len() >= (frame[0] % 16) as int * 4,
        (frame[0] % 16) as int * 4 <= frame[2] as int * 256 + frame[3] as int,
        frame.len() >= frame[2] as int * 256 + frame[3] as int,
    ensures
        ({
            let h = (frame[0] % 16) as int * 4;
            let seg = frame.subrange(h, frame.len() as int);
            let src_ip = IpAddr::V4([frame[12], frame[13], frame[14], frame[15]]);
            let dst_ip = IpAddr::V4([frame[16], frame[17], frame[18], frame[19]]);
            &&& spec_connection_tuple(frame) matches Some((c, first, off, size)) ==> {
                &&& c.proto == frame[9]
                &&& c.src == SocketAddr { ip: src_ip, port: port_at(frame, h) }
                &&& c.dst == SocketAddr { ip: dst_ip, port: port_at(frame, h + 2) }
            }
            &&& frame[9] == 6 && seg.len() >= 20 && (frame[h + 12] / 16) as int * 4 >= 20
                && seg.len() >= (frame[h + 12] / 16) as int * 4 ==> (spec_connection_tuple(frame)
                matches Some((c, first, off, size)) && off == h + (frame[h + 12] / 16) as int * 4
                && size == frame.len() - h && first == ((frame[h + 13] / 2) % 2 == 1 && (frame[h
                + 13] / 16) % 2 == 0))
            &&& frame[9] == 17 && seg.len() >= 8 && frame[h + 4] as int * 256 + frame[h + 5] as int
                >= 8 && seg.len() >= frame[h + 4] as int * 256 + frame[h + 5] as int
                ==> (spec_connection_tuple(frame) matches Some((c, first, off, size)) && off == h
                + 8 && size == frame.len() - h - 8 && !first)
        }),
{
    let h = (frame[0] % 16) as int * 4;
    let seg = frame.subrange(h, frame.len() as int);
    lemma_transport_info_reads_header(frame[9], h, seg);
    if seg.len() >= 4 {
        assert(seg[0] == frame[h] && seg[1] == frame[h + 1] && seg[2] == frame[h + 2] && seg[3]
            == frame[h + 3]);
    }
    if seg.len() >= 20 {
        assert(seg[12] == frame[h + 12] && seg[13] == frame[h + 13]);
    }
    if seg.len() >= 8 {
        assert(seg[4] == frame[h + 4] && seg[5] == frame[h + 5]);
    }
    assert(frame.subrange(12, 16)[0] == frame[12] && frame.subrange(12, 16)[3] == frame[15]);
    assert(frame.subrange(16, 20)[0] == frame[16] && frame.subrange(16, 20)[3] == frame[19]);
    assert(v4_of(frame.subrange(12, 16)) == IpAddr::V4([frame[12], frame[13], frame[14], frame[15]]));
    assert(v4_of(frame.subrange(16, 20)) == IpAddr::V4([frame[16], frame[17], frame[18], frame[19]]));
}

} // verus!
