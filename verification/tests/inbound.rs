use leaf::addr::{IpAddr, SocketAddr, SocksAddr};
use leaf::inbound::{
    assemble_frame, datagram_destination, datagram_step, frame_header_fits, DatagramStep, downlink_source, fake_dns_config, frame_step,
    inbound_stream_session, offer_to_fake_dns, plan_packet_inbound, stream_destination,
    FakeDnsMode, FrameStep, InboundError, Network, PacketInboundSettings, PacketRunner,
    PacketSinkKind,
};
use leaf::services::PacketInboundListener;
use leaf::text::{ipv4_text, loopback_addr};

fn addr(a: [u8; 4], port: u16) -> SocketAddr {
    SocketAddr { ip: IpAddr::V4(a), port }
}

#[test]
fn ipv4_header_asks_for_rest_of_packet() {
    assert_eq!(frame_step(&[0x45, 0, 0, 60, 0, 0]), FrameStep::ReadBody(54));
}

#[test]
fn ipv6_header_counts_fixed_header() {
    assert_eq!(frame_step(&[0x60, 0, 0, 0, 0, 8]), FrameStep::ReadBody(42));
}

#[test]
fn other_version_stops_framing() {
    assert_eq!(frame_step(&[0x55, 0, 0, 60, 0, 0]), FrameStep::BadVersion(5));
}

#[test]
fn framing_round_trip_on_a_packet() {
    let mut p = vec![0x45, 0, 0, 28];
    p.extend_from_slice(&[7u8; 24]);
    let step = frame_step(&p[..6]);
    assert_eq!(step, FrameStep::ReadBody(22));
    let whole = assemble_frame(&p[..6], &p[6..]);
    assert_eq!(whole, p);
}

#[test]
fn fake_dns_modes() {
    let inc = vec!["a.com".to_string()];
    let exc = vec!["b.com".to_string()];
    assert_eq!(
        fake_dns_config(inc.clone(), vec![]),
        Ok((FakeDnsMode::Include, inc.clone()))
    );
    assert_eq!(
        fake_dns_config(vec![], exc.clone()),
        Ok((FakeDnsMode::Exclude, exc.clone()))
    );
    assert_eq!(fake_dns_config(vec![], vec![]), Ok((FakeDnsMode::Exclude, vec![])));
    assert_eq!(fake_dns_config(inc, exc), Err(InboundError::FakeDnsModeConflict));
}

#[test]
fn loopback_addresses() {
    assert_eq!(loopback_addr(1080), "127.0.0.1:1080");
    assert_eq!(loopback_addr(0), "127.0.0.1:0");
    assert_eq!(ipv4_text([192, 168, 0, 10]), "192.168.0.10");
}

#[test]
fn packet_inbound_plans() {
    let s = PacketInboundSettings {
        port: 7000,
        sink: PacketSinkKind::Udp,
        fake_dns_include: vec![],
        fake_dns_exclude: vec!["x.org".to_string()],
    };
    let plan = plan_packet_inbound(s).unwrap();
    assert_eq!(plan.fake_dns_mode, FakeDnsMode::Exclude);
    assert_eq!(plan.fake_dns_filters, vec!["x.org".to_string()]);
    match plan.runner {
        PacketRunner::UdpConnected { listen, remote } => {
            assert_eq!(listen, "127.0.0.1:7000");
            assert_eq!(remote, Some("127.0.0.1:6999".to_string()));
        }
        _ => panic!("expected a UDP sink"),
    }
    let s = PacketInboundSettings {
        port: 7001,
        sink: PacketSinkKind::Tcp,
        fake_dns_include: vec![],
        fake_dns_exclude: vec![],
    };
    match plan_packet_inbound(s).unwrap().runner {
        PacketRunner::TcpListen { listen } => assert_eq!(listen, "127.0.0.1:7001"),
        _ => panic!("expected a TCP sink"),
    }
    let s = PacketInboundSettings {
        port: 1,
        sink: PacketSinkKind::Other,
        fake_dns_include: vec!["a".to_string()],
        fake_dns_exclude: vec!["b".to_string()],
    };
    assert!(plan_packet_inbound(s).is_err());
}

#[test]
fn listener_plans_from_its_settings() {
    let l = PacketInboundListener {
        tag: "packet".to_string(),
        settings: PacketInboundSettings {
            port: 9000,
            sink: PacketSinkKind::Tcp,
            fake_dns_include: vec!["a.com".to_string()],
            fake_dns_exclude: vec![],
        },
    };
    let plan = l.listen().unwrap();
    assert_eq!(plan.fake_dns_mode, FakeDnsMode::Include);
    assert_eq!(plan.fake_dns_filters, vec!["a.com".to_string()]);
}

#[test]
fn stream_destinations() {
    let r = addr([198, 18, 0, 5], 80);
    assert!(matches!(stream_destination(r, false, None), Some(SocksAddr::Ip(a)) if a == r));
    assert!(matches!(
        stream_destination(r, true, Some("example.com".to_string())),
        Some(SocksAddr::Domain(d, 80)) if d == "example.com"
    ));
    assert!(stream_destination(r, true, None).is_none());
    let tls = addr([198, 18, 0, 5], 443);
    assert!(matches!(stream_destination(tls, true, None), Some(SocksAddr::Ip(a)) if a == tls));
}

#[test]
fn stream_session_fields() {
    let local = addr([10, 0, 0, 2], 5000);
    let remote = addr([1, 1, 1, 1], 443);
    let s = inbound_stream_session(local, remote, "tun".to_string(), false, None).unwrap();
    assert_eq!(s.network, Network::Tcp);
    assert_eq!(s.source, local);
    assert_eq!(s.local_addr, remote);
    assert_eq!(s.inbound_tag, "tun");
    assert!(matches!(s.destination, SocksAddr::Ip(a) if a == remote));
    assert!(inbound_stream_session(local, addr([198, 18, 0, 1], 22), "t".to_string(), true, None)
        .is_none());
}

#[test]
fn datagram_routes() {
    let dns = addr([8, 8, 8, 8], 53);
    assert!(offer_to_fake_dns(dns));
    assert!(!offer_to_fake_dns(addr([8, 8, 8, 8], 54)));
    assert!(matches!(datagram_destination(dns, false, None), Some(SocksAddr::Ip(a)) if a == dns));
    let fake = addr([198, 18, 0, 9], 443);
    assert!(datagram_destination(fake, true, None).is_none());
    assert!(matches!(
        datagram_destination(fake, true, Some("q.net".to_string())),
        Some(SocksAddr::Domain(d, 443)) if d == "q.net"
    ));
}

#[test]
fn downlink_sources() {
    let a = addr([1, 2, 3, 4], 5);
    assert_eq!(downlink_source(SocksAddr::Ip(a), None), Some(a));
    assert_eq!(
        downlink_source(SocksAddr::Domain("d.com".to_string(), 99), Some(IpAddr::V4([198, 18, 0, 3]))),
        Some(addr([198, 18, 0, 3], 99))
    );
    assert_eq!(downlink_source(SocksAddr::Domain("d.com".to_string(), 99), None), None);
}

#[test]
fn header_fits_only_in_range() {
    assert!(frame_header_fits(&[0x45, 0, 0, 60, 0, 0]));
    assert!(frame_header_fits(&[0x45, 0, 0, 6, 0, 0]));
    assert!(!frame_header_fits(&[0x45, 0, 0, 5, 0, 0]));
    assert!(frame_header_fits(&[0x45, 0, 0x05, 0xee, 0, 0]));
    assert!(!frame_header_fits(&[0x45, 0, 0x05, 0xef, 0, 0]));
    assert!(frame_header_fits(&[0x60, 0, 0, 0, 0x05, 0xc6]));
    assert!(!frame_header_fits(&[0x60, 0, 0, 0, 0x05, 0xc7]));
    assert!(frame_header_fits(&[0x70, 0, 0, 0, 0, 0]));
}

#[test]
fn udp_sink_on_port_zero_has_no_remote() {
    let s = PacketInboundSettings {
        port: 0,
        sink: PacketSinkKind::Udp,
        fake_dns_include: vec![],
        fake_dns_exclude: vec![],
    };
    match plan_packet_inbound(s).unwrap().runner {
        PacketRunner::UdpConnected { listen, remote } => {
            assert_eq!(listen, "127.0.0.1:0");
            assert_eq!(remote, None);
        }
        _ => panic!("expected a UDP sink"),
    }
}

#[test]
fn inbound_error_message() {
    assert_eq!(
        InboundError::FakeDnsModeConflict.message(),
        "fake DNS run in either include mode or exclude mode"
    );
}

#[test]
fn fake_dns_answers_go_back_swapped() {
    let src = addr([10, 0, 0, 2], 5353);
    let dns = addr([10, 0, 0, 1], 53);
    match datagram_step(b"q".to_vec(), src, dns, Some(b"a".to_vec()), false, None) {
        DatagramStep::Reply { data, from, to } => {
            assert_eq!(data, b"a".to_vec());
            assert_eq!(from, dns);
            assert_eq!(to, src);
        }
        other => panic!("unexpected {:?}", other),
    }
    // Without an answer the query is forwarded like any datagram.
    match datagram_step(b"q".to_vec(), src, dns, None, false, None) {
        DatagramStep::Forward { data, src: s2, dst } => {
            assert_eq!(data, b"q".to_vec());
            assert!(matches!(s2, SocksAddr::Ip(a) if a == src));
            assert!(matches!(dst, SocksAddr::Ip(a) if a == dns));
        }
        other => panic!("unexpected {:?}", other),
    }
    // An answer for a datagram to another port is not used.
    let web = addr([10, 0, 0, 1], 80);
    assert!(matches!(
        datagram_step(b"q".to_vec(), src, web, Some(b"a".to_vec()), true, Some("x.com".to_string())),
        DatagramStep::Forward { dst: SocksAddr::Domain(ref d, 80), .. } if d == "x.com"
    ));
    assert!(matches!(datagram_step(b"q".to_vec(), src, web, None, true, None), DatagramStep::Drop));
}
