//! Raw IP/TCP/UDP header access. The checks and field reads are those of
//! `smoltcp::wire`; this module states, over the octets, what each one gives.
use vstd::prelude::*;
use smoltcp::wire::{Ipv4Packet, Ipv6Packet, TcpPacket, UdpPacket};

verus! {

/// The big-endian 16-bit number stored at `i` and `i + 1`.
pub open spec fn be16(s: Seq<u8>, i: int) -> int {
    s[i] as int * 256 + s[i + 1] as int
}

/// IPv4 header length in octets, taken from the IHL nibble.
pub open spec fn ipv4_header_len(s: Seq<u8>) -> int {
    (s[0] % 16) as int * 4
}

/// IPv4 total length field.
pub open spec fn ipv4_total_len(s: Seq<u8>) -> int {
    be16(s, 2)
}

/// What `smoltcp`'s IPv4 length check accepts: a full fixed header, and a
/// header length and total length that fit the buffer and each other.
pub open spec fn ipv4_len_ok(s: Seq<u8>) -> bool {
    &&& s.len() >= 20
    &&& s.len() >= ipv4_header_len(s)
    &&& ipv4_header_len(s) <= ipv4_total_len(s)
    &&& s.len() >= ipv4_total_len(s)
}

/// IPv6 payload length field plus the fixed 40-octet header.
pub open spec fn ipv6_total_len(s: Seq<u8>) -> int {
    40 + be16(s, 4)
}

/// What `smoltcp`'s IPv6 length check accepts.
pub open spec fn ipv6_len_ok(s: Seq<u8>) -> bool {
    s.len() >= 40 && s.len() >= ipv6_total_len(s)
}

/// TCP header length in octets, from the data offset nibble.
pub open spec fn tcp_header_len(s: Seq<u8>) -> int {
    (s[12] / 16) as int * 4
}

/// What `smoltcp`'s TCP length check accepts.
pub open spec fn tcp_len_ok(s: Seq<u8>) -> bool {
    &&& s.len() >= 20
    &&& s.len() >= tcp_header_len(s)
    &&& tcp_header_len(s) >= 20
}

/// The SYN flag of a TCP header.
pub open spec fn tcp_syn(s: Seq<u8>) -> bool {
    (s[13] / 2) % 2 == 1
}

/// The ACK flag of a TCP header.
pub open spec fn tcp_ack(s: Seq<u8>) -> bool {
    (s[13] / 16) % 2 == 1
}

/// UDP length field.
pub open spec fn udp_length(s: Seq<u8>) -> int {
    be16(s, 4)
}

/// What `smoltcp`'s UDP length check accepts.
pub open spec fn udp_len_ok(s: Seq<u8>) -> bool {
    &&& s.len() >= 8
    &&& s.len() >= udp_length(s)
    &&& udp_length(s) >= 8
}

/// `smoltcp::wire::Ipv4Packet::new_checked`: whether the buffer passes the
/// IPv4 length check (the version nibble is not looked at).
#[verifier::external_body]
pub(crate) fn ipv4_check(frame: &[u8]) -> (ok: bool)
    ensures
        ok == ipv4_len_ok(frame@),
{
    Ipv4Packet::new_checked(frame).is_ok()
}

/// `smoltcp::wire::Ipv4Packet::header_len`: the IHL nibble times four.
#[verifier::external_body]
pub(crate) fn ipv4_header_length(frame: &[u8]) -> (n: u8)
    requires
        frame@.len() >= 20,
    ensures
        n == ipv4_header_len(frame@),
{
    Ipv4Packet::new_unchecked(frame).header_len()
}

/// `smoltcp::wire::Ipv4Packet::protocol`: octet 9, as a protocol number.
#[verifier::external_body]
pub(crate) fn ipv4_protocol(frame: &[u8]) -> (p: u8)
    requires
        frame@.len() >= 20,
    ensures
        p == frame@[9],
{
    Ipv4Packet::new_unchecked(frame).protocol().into()
}

/// `smoltcp::wire::Ipv4Packet::src_addr`: octets 12 to 15.
#[verifier::external_body]
pub(crate) fn ipv4_src_addr(frame: &[u8]) -> (a: [u8; 4])
    requires
        frame@.len() >= 20,
    ensures
        a@ == frame@.subrange(12, 16),
{
    Ipv4Packet::new_unchecked(frame).src_addr().0
}

/// `smoltcp::wire::Ipv4Packet::dst_addr`: octets 16 to 19.
#[verifier::external_body]
pub(crate) fn ipv4_dst_addr(frame: &[u8]) -> (a: [u8; 4])
    requires
        frame@.len() >= 20,
    ensures
        a@ == frame@.subrange(16, 20),
{
    Ipv4Packet::new_unchecked(frame).dst_addr().0
}

/// `smoltcp::wire::Ipv4Packet::payload`: the octets from the header length
/// up to the total length.
#[verifier::external_body]
pub(crate) fn ipv4_payload(frame: &[u8]) -> (p: &[u8])
    requires
        ipv4_len_ok(frame@),
    ensures
        p@ == frame@.subrange(ipv4_header_len(frame@), ipv4_total_len(frame@)),
{
    Ipv4Packet::new_unchecked(frame).payload()
}

/// `smoltcp::wire::Ipv6Packet::new_checked`: whether the buffer passes the
/// IPv6 length check.
#[verifier::external_body]
pub(crate) fn ipv6_check(frame: &[u8]) -> (ok: bool)
    ensures
        ok == ipv6_len_ok(frame@),
{
    Ipv6Packet::new_checked(frame).is_ok()
}

/// `smoltcp::wire::Ipv6Packet::header_len`: always the fixed 40 octets.
#[verifier::external_body]
pub(crate) fn ipv6_header_length(frame: &[u8]) -> (n: usize)
    ensures
        n == 40,
{
    Ipv6Packet::new_unchecked(frame).header_len()
}

/// `smoltcp::wire::Ipv6Packet::next_header`: octet 6.
#[verifier::external_body]
pub(crate) fn ipv6_next_header(frame: &[u8]) -> (p: u8)
    requires
        frame@.len() >= 40,
    ensures
        p == frame@[6],
{
    Ipv6Packet::new_unchecked(frame).next_header().into()
}

/// `smoltcp::wire::Ipv6Packet::src_addr`: octets 8 to 23.
#[verifier::external_body]
pub(crate) fn ipv6_src_addr(frame: &[u8]) -> (a: [u8; 16])
    requires
        frame@.len() >= 40,
    ensures
        a@ == frame@.subrange(8, 24),
{
    Ipv6Packet::new_unchecked(frame).src_addr().0
}

/// `smoltcp::wire::Ipv6Packet::dst_addr`: octets 24 to 39.
#[verifier::external_body]
pub(crate) fn ipv6_dst_addr(frame: &[u8]) -> (a: [u8; 16])
    requires
        frame@.len() >= 40,
    ensures
        a@ == frame@.subrange(24, 40),
{
    Ipv6Packet::new_unchecked(frame).dst_addr().0
}

/// `smoltcp::wire::TcpPacket::new_checked`: whether the buffer passes the
/// TCP length check.
#[verifier::external_body]
pub(crate) fn tcp_check(seg: &[u8]) -> (ok: bool)
    ensures
        ok == tcp_len_ok(seg@),
{
    TcpPacket::new_checked(seg).is_ok()
}

/// `smoltcp::wire::TcpPacket::src_port`: octets 0 and 1, big-endian.
#[verifier::external_body]
pub(crate) fn tcp_src_port(seg: &[u8]) -> (p: u16)
    requires
        seg@.len() >= 20,
    ensures
        p == be16(seg@, 0),
{
    TcpPacket::new_unchecked(seg).src_port()
}

/// `smoltcp::wire::TcpPacket::dst_port`: octets 2 and 3, big-endian.
#[verifier::external_body]
pub(crate) fn tcp_dst_port(seg: &[u8]) -> (p: u16)
    requires
        seg@.len() >= 20,
    ensures
        p == be16(seg@, 2),
{
    TcpPacket::new_unchecked(seg).dst_port()
}

/// `smoltcp::wire::TcpPacket::syn`: bit 1 of octet 13.
#[verifier::external_body]
pub(crate) fn tcp_syn_flag(seg: &[u8]) -> (b: bool)
    requires
        seg@.len() >= 20,
    ensures
        b == tcp_syn(seg@),
{
    TcpPacket::new_unchecked(seg).syn()
}

/// `smoltcp::wire::TcpPacket::ack`: bit 4 of octet 13.
#[verifier::external_body]
pub(crate) fn tcp_ack_flag(seg: &[u8]) -> (b: bool)
    requires
        seg@.len() >= 20,
    ensures
        b == tcp_ack(seg@),
{
    TcpPacket::new_unchecked(seg).ack()
}

/// `smoltcp::wire::TcpPacket::header_len`: the data offset nibble times four.
#[verifier::external_body]
pub(crate) fn tcp_header_length(seg: &[u8]) -> (n: u8)
    requires
        seg@.len() >= 20,
    ensures
        n == tcp_header_len(seg@),
{
    TcpPacket::new_unchecked(seg).header_len()
}

/// `smoltcp::wire::UdpPacket::new_checked`: whether the buffer passes the
/// UDP length check.
#[verifier::external_body]
pub(crate) fn udp_check(dgram: &[u8]) -> (ok: bool)
    ensures
        ok == udp_len_ok(dgram@),
{
    UdpPacket::new_checked(dgram).is_ok()
}

/// `smoltcp::wire::UdpPacket::src_port`: octets 0 and 1, big-endian.
#[verifier::external_body]
pub(crate) fn udp_src_port(dgram: &[u8]) -> (p: u16)
    requires
        dgram@.len() >= 8,
    ensures
        p == be16(dgram@, 0),
{
    UdpPacket::new_unchecked(dgram).src_port()
}

/// `smoltcp::wire::UdpPacket::dst_port`: octets 2 and 3, big-endian.
#[verifier::external_body]
pub(crate) fn udp_dst_port(dgram: &[u8]) -> (p: u16)
    requires
        dgram@.len() >= 8,
    ensures
        p == be16(dgram@, 2),
{
    UdpPacket::new_unchecked(dgram).dst_port()
}

} // verus!
