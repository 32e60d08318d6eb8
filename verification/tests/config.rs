use leaf::config::{cert_location, resolve_cert_path, resolve_tls_cert, ss_reconfigure, Outbound, OutboundSettings, Proxy};

fn proxy(tls: bool, ws: bool) -> Proxy {
    Proxy {
        tag: "p".to_string(),
        address: Some("example.org".to_string()),
        port: Some(8388),
        encrypt_method: None,
        password: Some("secret".to_string()),
        tls: Some(tls),
        sni: Some("sni.example.org".to_string()),
        tls_cert: None,
        ws: Some(ws),
        ws_path: None,
        ws_host: Some("cdn.example.org".to_string()),
    }
}

fn tags(v: &[Outbound]) -> Vec<String> {
    v.iter().map(|o| o.tag.clone()).collect()
}

#[test]
fn plain_shadowsocks_takes_the_proxy_tag() {
    let mut out = Vec::new();
    ss_reconfigure(&proxy(false, false), "shadowsocks", &mut out);
    assert_eq!(tags(&out), vec!["p".to_string()]);
    assert_eq!(out[0].protocol, "shadowsocks");
    match &out[0].settings {
        OutboundSettings::Shadowsocks(s) => {
            assert_eq!(s.address, "example.org");
            assert_eq!(s.port, 8388);
            assert_eq!(s.method, "chacha20-ietf-poly1305");
            assert_eq!(s.password, "secret");
        }
        _ => panic!("expected shadowsocks settings"),
    }
}

#[test]
fn tls_and_ws_make_a_chain_first() {
    let mut out = Vec::new();
    ss_reconfigure(&proxy(true, true), "shadowsocks", &mut out);
    assert_eq!(
        tags(&out),
        vec!["p", "p_tls_xxx", "p_ws_xxx", "p_shadowsocks_xxx"].iter().map(|s| s.to_string()).collect::<Vec<_>>()
    );
    assert_eq!(out[0].protocol, "chain");
    match &out[0].settings {
        OutboundSettings::Chain(c) => assert_eq!(
            c.actors,
            vec!["p_tls_xxx", "p_ws_xxx", "p_shadowsocks_xxx"].iter().map(|s| s.to_string()).collect::<Vec<_>>()
        ),
        _ => panic!("expected chain settings"),
    }
    match &out[1].settings {
        OutboundSettings::Tls(t) => {
            assert_eq!(t.server_name, "sni.example.org");
            assert_eq!(t.certificate, "");
        }
        _ => panic!("expected tls settings"),
    }
    match &out[2].settings {
        OutboundSettings::WebSocket(w) => {
            assert_eq!(w.path, "/");
            assert_eq!(w.headers, vec![("Host".to_string(), "cdn.example.org".to_string())]);
        }
        _ => panic!("expected websocket settings"),
    }
}

#[test]
fn ws_only_chain_keeps_earlier_outbounds() {
    let mut out = vec![Outbound {
        tag: "direct".to_string(),
        protocol: "direct".to_string(),
        settings: OutboundSettings::Empty,
    }];
    ss_reconfigure(&proxy(false, true), "shadowsocks", &mut out);
    assert_eq!(
        tags(&out),
        vec!["direct", "p", "p_ws_xxx", "p_shadowsocks_xxx"].iter().map(|s| s.to_string()).collect::<Vec<_>>()
    );
}

#[test]
fn certificate_paths_resolve_against_assets() {
    assert_eq!(cert_location("/etc/c.pem", true, "unused".to_string()), "/etc/c.pem");
    assert_eq!(cert_location("c.pem", false, "assets/c.pem".to_string()), "assets/c.pem");
    assert_eq!(resolve_cert_path("/etc/c.pem", "assets"), "/etc/c.pem");
    let joined = resolve_cert_path("certs/c.pem", "assets");
    assert!(joined.ends_with("c.pem") && joined.starts_with("assets"));
    let mut p = proxy(true, false);
    p.tls_cert = Some("c.pem".to_string());
    let r = resolve_tls_cert(p, "/opt/leaf");
    assert_eq!(r.tls_cert, Some(std::path::Path::new("/opt/leaf").join("c.pem").to_string_lossy().to_string()));
    assert_eq!(r.tag, "p");
    let r = resolve_tls_cert(proxy(true, false), "/opt/leaf");
    assert_eq!(r.tls_cert, None);
}
