use leaf::addr::{IpAddr, SocketAddr};
use leaf::classify::{connection_tuple, first_segment_listen, get_transport_info, PROTO_TCP, PROTO_UDP};
use leaf::stack::{classify_stack_packet, NetStack, StackPacket, MAX_TCP_SOCKETS};

fn ipv4_header(total_len: u16, proto: u8, src: [u8; 4], dst: [u8; 4]) -> Vec<u8> {
    let mut h = vec![0x45, 0, (total_len >> 8) as u8, total_len as u8, 0, 0, 0, 0, 64, proto, 0, 0];
    h.extend_from_slice(&src);
    h.extend_from_slice(&dst);
    h
}

fn tcp_header(src_port: u16, dst_port: u16, flags: u8) -> Vec<u8> {
    let mut t = vec![(src_port >> 8) as u8, src_port as u8, (dst_port >> 8) as u8, dst_port as u8];
    t.extend_from_slice(&[0, 0, 0, 1, 0, 0, 0, 0]);
    t.push(0x50);
    t.push(flags);
    t.extend_from_slice(&[0xff, 0xff, 0, 0, 0, 0]);
    t
}

fn udp_header(src_port: u16, dst_port: u16, payload: &[u8]) -> Vec<u8> {
    let len = 8 + payload.len() as u16;
    let mut u = vec![(src_port >> 8) as u8, src_port as u8, (dst_port >> 8) as u8, dst_port as u8];
    u.push((len >> 8) as u8);
    u.push(len as u8);
    u.extend_from_slice(&[0, 0]);
    u.extend_from_slice(payload);
    u
}

fn tcp_syn_packet(src_port: u16, dst_port: u16, flags: u8) -> Vec<u8> {
    let tcp = tcp_header(src_port, dst_port, flags);
    let mut p = ipv4_header(20 + tcp.len() as u16, PROTO_TCP, [10, 0, 0, 2], [1, 2, 3, 4]);
    p.extend_from_slice(&tcp);
    p
}

fn udp_packet(src_port: u16, dst_port: u16, payload: &[u8]) -> Vec<u8> {
    let udp = udp_header(src_port, dst_port, payload);
    let mut p = ipv4_header(20 + udp.len() as u16, PROTO_UDP, [10, 0, 0, 2], [8, 8, 8, 8]);
    p.extend_from_slice(&udp);
    p
}

#[test]
fn tcp_syn_is_a_first_packet() {
    let p = tcp_syn_packet(40000, 443, 0x02);
    let (c, first, off, size) = connection_tuple(&p).unwrap();
    assert_eq!(c.src, SocketAddr { ip: IpAddr::V4([10, 0, 0, 2]), port: 40000 });
    assert_eq!(c.dst, SocketAddr { ip: IpAddr::V4([1, 2, 3, 4]), port: 443 });
    assert_eq!(c.proto, 6);
    assert!(first);
    assert_eq!(off, 40);
    assert_eq!(size, 20);
}

#[test]
fn tcp_syn_ack_is_not_a_first_packet() {
    let p = tcp_syn_packet(40000, 443, 0x12);
    let (_, first, _, _) = connection_tuple(&p).unwrap();
    assert!(!first);
}

#[test]
fn udp_datagram_payload_position() {
    let p = udp_packet(5353, 53, b"hello");
    let (c, first, off, size) = connection_tuple(&p).unwrap();
    assert_eq!(c.proto, 17);
    assert_eq!(c.dst.port, 53);
    assert_eq!(c.src.port, 5353);
    assert!(!first);
    assert_eq!(off, 28);
    assert_eq!(size, 5);
}

fn ipv6_udp(flow_hi: u8, flow_lo: u8) -> (Vec<u8>, [u8; 16], [u8; 16]) {
    let udp = udp_header(1000, 2000, b"ab");
    let mut p = vec![0x60, 0, flow_hi, flow_lo, 0, udp.len() as u8, PROTO_UDP, 64];
    let mut src = [0u8; 16];
    src[15] = 1;
    let mut dst = [0u8; 16];
    dst[0] = 0xfe;
    dst[1] = 0x80;
    dst[15] = 2;
    p.extend_from_slice(&src);
    p.extend_from_slice(&dst);
    p.extend_from_slice(&udp);
    (p, src, dst)
}

#[test]
fn ipv6_udp_datagram() {
    // A flow label whose low octets read as a large IPv4 total length makes
    // the buffer fail the IPv4 check, so it is read as IPv6.
    let (p, src, dst) = ipv6_udp(0xff, 0xff);
    let (c, first, off, size) = connection_tuple(&p).unwrap();
    assert_eq!(c.src, SocketAddr { ip: IpAddr::V6(src), port: 1000 });
    assert_eq!(c.dst, SocketAddr { ip: IpAddr::V6(dst), port: 2000 });
    assert!(!first);
    assert_eq!(off, 48);
    assert_eq!(size, 2);
}

#[test]
fn ipv6_buffer_passing_the_ipv4_check_is_read_as_ipv4() {
    // With a zero flow label the IPv4 check passes (header and total length
    // both read as zero), and octet 9 is not a transport protocol.
    let (p, _, _) = ipv6_udp(0, 0);
    assert!(connection_tuple(&p).is_none());
}

#[test]
fn truncated_or_other_packets_have_no_connection() {
    assert!(connection_tuple(&[0x45, 0, 0]).is_none());
    let mut p = tcp_syn_packet(1, 2, 0x02);
    p[9] = 1; // ICMP
    assert!(connection_tuple(&p).is_none());
    let short = udp_packet(1, 2, b"x");
    assert!(connection_tuple(&short[..24]).is_none());
}

#[test]
fn transport_info_reads_ports() {
    let udp = udp_header(7, 9, b"xyz");
    let info = get_transport_info(17, 20, &udp).unwrap();
    assert_eq!(info, ((7, 9), false, 28, 3));
    let tcp = tcp_header(80, 8080, 0x02);
    let info = get_transport_info(6, 40, &tcp).unwrap();
    assert_eq!(info, ((80, 8080), true, 60, 20));
    assert!(get_transport_info(1, 20, &tcp).is_none());
}

#[test]
fn packet_stack_listens_on_syn_destination() {
    // The stack reads the TCP header from the start of the buffer: the
    // destination port is taken from the IPv4 total length field.
    let p = tcp_syn_packet(40000, 443, 0x02);
    let mut q = p.clone();
    q[13] = 0x02; // SYN bit in the octet read as TCP flags
    q[12] = 0x50;
    let listen = first_segment_listen(&q);
    assert_eq!(listen, Some(SocketAddr { ip: IpAddr::V4([1, 2, 3, 4]), port: 40 }));
    q[13] = 0x12;
    assert_eq!(first_segment_listen(&q), None);
}

#[test]
fn stack_classifies_tcp_and_udp() {
    let p = tcp_syn_packet(40000, 443, 0x02);
    match classify_stack_packet(&p) {
        StackPacket::Tcp { src, dst, syn } => {
            assert_eq!(src.port, 40000);
            assert_eq!(dst, SocketAddr { ip: IpAddr::V4([1, 2, 3, 4]), port: 443 });
            assert!(syn);
        }
        other => panic!("unexpected {:?}", other),
    }
    let u = udp_packet(5353, 53, b"q");
    assert!(matches!(classify_stack_packet(&u), StackPacket::Udp { .. }));
    assert_eq!(classify_stack_packet(&u[..19]), StackPacket::Ignore);
    let mut v6 = u.clone();
    v6[0] = 0x65;
    assert_eq!(classify_stack_packet(&v6), StackPacket::Ignore);
}

#[test]
fn stack_opens_sockets_for_new_syns_only() {
    let mut stack: NetStack<u32> = NetStack::new();
    let syn = tcp_syn_packet(40000, 443, 0x02);
    let mut opened = Vec::new();
    stack.check_packet(&syn, |a: SocketAddr| {
        opened.push(a);
        7u32
    });
    assert_eq!(opened.len(), 1);
    assert_eq!(opened[0].port, 443);
    assert!(stack.has_tcp_socket(40000));
    assert_eq!(stack.tcp_socket_count(), 1);
    // A second SYN from the same port keeps the socket.
    stack.check_packet(&syn, |_a: SocketAddr| 8u32);
    assert_eq!(stack.tcp_socket_count(), 1);
    // A segment without SYN opens nothing.
    let ack = tcp_syn_packet(40001, 443, 0x10);
    stack.check_packet(&ack, |_a: SocketAddr| 9u32);
    assert!(!stack.has_tcp_socket(40001));
    // A datagram opens a UDP flow.
    let u = udp_packet(5353, 53, b"q");
    stack.check_packet(&u, |_a: SocketAddr| 0u32);
    assert!(stack.has_udp_flow(5353));
}

#[test]
fn stack_stops_at_socket_limit() {
    let mut stack: NetStack<u32> = NetStack::new();
    for port in 0..MAX_TCP_SOCKETS as u16 {
        let local = SocketAddr { ip: IpAddr::V4([1, 1, 1, 1]), port: 80 };
        assert!(stack.setup_tcp_socket(local, port, true, |_a: SocketAddr| 1u32));
    }
    let local = SocketAddr { ip: IpAddr::V4([1, 1, 1, 1]), port: 80 };
    assert!(!stack.setup_tcp_socket(local, 60000, true, |_a: SocketAddr| 1u32));
    assert_eq!(stack.tcp_socket_count(), MAX_TCP_SOCKETS);
}

#[test]
fn sink_holds_one_packet() {
    let mut stack: NetStack<u32> = NetStack::new();
    assert!(stack.ready());
    stack.start_send(vec![1, 2, 3]);
    assert!(!stack.ready());
    stack.start_send(vec![4]);
    assert_eq!(stack.take_pending(), Some(vec![4]));
    assert!(stack.ready());
    assert_eq!(stack.take_pending(), None);
}

#[test]
fn stack_lists_the_handles_it_keeps() {
    let mut stack: NetStack<u32> = NetStack::new();
    assert!(stack.tcp_handles().is_empty());
    let local = SocketAddr { ip: IpAddr::V4([1, 1, 1, 1]), port: 80 };
    assert!(stack.setup_tcp_socket(local, 1000, true, |_a: SocketAddr| 11u32));
    assert!(stack.setup_tcp_socket(local, 2000, true, |_a: SocketAddr| 22u32));
    assert!(!stack.setup_tcp_socket(local, 1000, true, |_a: SocketAddr| 33u32));
    let mut handles = stack.tcp_handles();
    handles.sort();
    assert_eq!(handles, vec![11, 22]);
}
