//! Rewriting a Shadowsocks proxy of the configuration file into the chain
//! of outbounds (TLS, WebSocket, Shadowsocks) that carries it.
use vstd::prelude::*;

verus! {

/// A proxy line of the configuration file, with the fields read here.
#[derive(Clone, Debug)]
pub struct Proxy {
    pub tag: String,
    pub address: Option<String>,
    pub port: Option<u16>,
    pub encrypt_method: Option<String>,
    pub password: Option<String>,
    pub tls: Option<bool>,
    pub sni: Option<String>,
    /// The certificate file, already resolved against the asset location
    /// when it is a relative path (see `resolve_tls_cert`).
    pub tls_cert: Option<String>,
    pub ws: Option<bool>,
    pub ws_path: Option<String>,
    pub ws_host: Option<String>,
}

/// Settings of a TLS outbound.
#[derive(Clone, Debug)]
pub struct TlsOutboundSettings {
    pub server_name: String,
    pub certificate: String,
}

/// Settings of a WebSocket outbound; `headers` are name and value pairs.
#[derive(Clone, Debug)]
pub struct WebSocketOutboundSettings {
    pub path: String,
    pub headers: Vec<(String, String)>,
}

/// Settings of a Shadowsocks outbound.
#[derive(Clone, Debug)]
pub struct ShadowsocksOutboundSettings {
    pub address: String,
    pub port: u32,
    pub method: String,
    pub password: String,
}

/// Settings of a chain outbound: the tags of its actors, in order.
#[derive(Clone, Debug)]
pub struct ChainOutboundSettings {
    pub actors: Vec<String>,
}

/// The settings an outbound carries.
#[derive(Clone, Debug)]
pub enum OutboundSettings {
    Empty,
    Tls(TlsOutboundSettings),
    WebSocket(WebSocketOutboundSettings),
    Shadowsocks(ShadowsocksOutboundSettings),
    Chain(ChainOutboundSettings),
}

/// An outbound of the internal configuration.
#[derive(Clone, Debug)]
pub struct Outbound {
    pub tag: String,
    pub protocol: String,
    pub settings: OutboundSettings,
}

/// The settings of an outbound as plain values.
pub enum SettingsView {
    Empty,
    Tls { server_name: Seq<char>, certificate: Seq<char> },
    WebSocket { path: Seq<char>, headers: Seq<(Seq<char>, Seq<char>)> },
    Shadowsocks { address: Seq<char>, port: u32, method: Seq<char>, password: Seq<char> },
    Chain { actors: Seq<Seq<char>> },
}

/// An outbound as plain values.
pub struct OutboundView {
    pub tag: Seq<char>,
    pub protocol: Seq<char>,
    pub settings: SettingsView,
}

/// The settings as plain values.
pub open spec fn settings_view(s: OutboundSettings) -> SettingsView {
    match s {
        OutboundSettings::Empty => SettingsView::Empty,
        OutboundSettings::Tls(t) => SettingsView::Tls {
            server_name: t.server_name@,
            certificate: t.certificate@,
        },
        OutboundSettings::WebSocket(w) => SettingsView::WebSocket {
            path: w.path@,
            headers: w.headers@.map_values(|h: (String, String)| (h.0@, h.1@)),
        },
        OutboundSettings::Shadowsocks(s) => SettingsView::Shadowsocks {
            address: s.address@,
            port: s.port,
            method: s.method@,
            password: s.password@,
        },
        OutboundSettings::Chain(c) => SettingsView::Chain {
            actors: c.actors@.map_values(|a: String| a@),
        },
    }
}

/// An outbound as plain values.
pub open spec fn outbound_view(o: Outbound) -> OutboundView {
    OutboundView { tag: o.tag@, protocol: o.protocol@, settings: settings_view(o.settings) }
}

/// A list of outbounds as plain values.
pub open spec fn outbounds_view(v: Seq<Outbound>) -> Seq<OutboundView> {
    v.map_values(|o: Outbound| outbound_view(o))
}

/// The text of an optional field, or the given default.
pub open spec fn text_or(o: Option<String>, d: Seq<char>) -> Seq<char> {
    match o {
        Some(s) => s@,
        None => d,
    }
}

/// The cipher used when the proxy names none.
pub open spec fn default_method() -> Seq<char> {
    "chacha20-ietf-poly1305"@
}

/// The TLS outbound made for a proxy.
pub open spec fn tls_outbound_of(p: Proxy) -> OutboundView {
    OutboundView {
        tag: p.tag@ + "_tls_xxx"@,
        protocol: "tls"@,
        settings: SettingsView::Tls {
            server_name: text_or(p.sni, seq![]),
            certificate: text_or(p.tls_cert, seq![]),
        },
    }
}

/// The WebSocket outbound made for a proxy: path `/` unless one is given,
/// and a `Host` header when a host is given.
pub open spec fn ws_outbound_of(p: Proxy) -> OutboundView {
    OutboundView {
        tag: p.tag@ + "_ws_xxx"@,
        protocol: "ws"@,
        settings: SettingsView::WebSocket {
            path: text_or(p.ws_path, "/"@),
            headers: match p.ws_host {
                Some(h) => seq![("Host"@, h@)],
                None => seq![],
            },
        },
    }
}

/// The Shadowsocks settings made for a proxy.
pub open spec fn ss_settings_of(p: Proxy) -> SettingsView {
    SettingsView::Shadowsocks {
        address: text_or(p.address, seq![]),
        port: match p.port {
            Some(n) => n as u32,
            None => 0,
        },
        method: text_or(p.encrypt_method, default_method()),
        password: text_or(p.password, seq![]),
    }
}

/// The tags of the actors a proxy's chain runs through before Shadowsocks.
pub open spec fn chain_prefix(p: Proxy) -> Seq<Seq<char>> {
    (if p.tls == Some(true) {
        seq![p.tag@ + "_tls_xxx"@]
    } else {
        seq![]
    }) + (if p.ws == Some(true) {
        seq![p.tag@ + "_ws_xxx"@]
    } else {
        seq![]
    })
}

/// The outbounds a proxy becomes. With TLS or WebSocket, a chain outbound
/// under the proxy's tag comes first (so it is the default when no rule
/// picks another), then the TLS and WebSocket outbounds, then the
/// Shadowsocks one under its own tag; otherwise the Shadowsocks outbound
/// alone, under the proxy's tag.
pub open spec fn reconfigured(p: Proxy, protocol: Seq<char>) -> Seq<OutboundView> {
    let ss_tag = p.tag@ + "_shadowsocks_xxx"@;
    if chain_prefix(p).len() > 0 {
        seq![
            OutboundView {
                tag: p.tag@,
                protocol: "chain"@,
                settings: SettingsView::Chain { actors: chain_prefix(p).push(ss_tag) },
            },
        ] + (if p.tls == Some(true) {
            seq![tls_outbound_of(p)]
        } else {
            seq![]
        }) + (if p.ws == Some(true) {
            seq![ws_outbound_of(p)]
        } else {
            seq![]
        }) + seq![OutboundView { tag: ss_tag, protocol, settings: ss_settings_of(p) }]
    } else {
        seq![OutboundView { tag: p.tag@, protocol, settings: ss_settings_of(p) }]
    }
}

/// Whether a path is absolute on this platform (`std::path::Path::is_absolute`).
/// Which paths are absolute differs between platforms, so nothing is stated.
#[verifier::external_body]
fn path_is_absolute(p: &str) -> (b: bool) {
    std::path::Path::new(p).is_absolute()
}

/// A path adjoined to a base path, as text (`std::path::Path::join`, then
/// `to_string_lossy`). The separator and how a path with a root or prefix
/// replaces the base differ between platforms, so nothing is stated.
#[verifier::external_body]
fn path_join(base: &str, p: &str) -> (r: String) {
    std::path::Path::new(base).join(p).to_string_lossy().to_string()
}

/// Where a certificate file is, given whether the platform takes its path as
/// absolute and the path it gives when joining the path onto the asset
/// location: an absolute path as it is, a relative one joined.
pub fn cert_location(cert: &str, is_absolute: bool, joined: String) -> (r: String)
    ensures
        is_absolute ==> r@ == cert@,
        !is_absolute ==> r@ == joined@,
{
    if is_absolute {
        String::from_str(cert)
    } else {
        joined
    }
}

/// The certificate file a proxy names, resolved against the asset location:
/// kept when the platform takes it as absolute, joined onto
/// `asset_location` otherwise (see `cert_location`). What the platform
/// answers is not stated, so neither is the result.
pub fn resolve_cert_path(cert: &str, asset_location: &str) -> (r: String) {
    let abs = path_is_absolute(cert);
    if abs {
        cert_location(cert, true, String::new())
    } else {
        let joined = path_join(asset_location, cert);
        cert_location(cert, false, joined)
    }
}

/// A proxy with its certificate file, if any, resolved against the asset
/// location (see `resolve_cert_path`); every other field is kept.
pub fn resolve_tls_cert(p: Proxy, asset_location: &str) -> (r: Proxy)
    ensures
        r.tag == p.tag,
        r.address == p.address,
        r.port == p.port,
        r.encrypt_method == p.encrypt_method,
        r.password == p.password,
        r.tls == p.tls,
        r.sni == p.sni,
        r.ws == p.ws,
        r.ws_path == p.ws_path,
        r.ws_host == p.ws_host,
        p.tls_cert is None <==> r.tls_cert is None,
{
    let tls_cert = match &p.tls_cert {
        Some(c) => Some(resolve_cert_path(c.as_str(), asset_location)),
        None => None,
    };
    Proxy { tls_cert, ..p }
}

/// A copy of an optional text field, or the given default.
fn string_or(o: &Option<String>, d: &str) -> (r: String)
    ensures
        r@ == text_or(*o, d@),
{
    match o {
        Some(s) => s.clone(),
        None => String::from_str(d),
    }
}

/// A string followed by a suffix.
fn suffixed(s: &String, suffix: &str) -> (r: String)
    ensures
        r@ == s@ + suffix@,
{
    let mut r = s.clone();
    r.append(suffix);
    r
}

/// Appends the outbounds that a Shadowsocks proxy becomes, under the given
/// protocol name (see `reconfigured`).
pub fn ss_reconfigure(ext_proxy: &Proxy, ext_protocol: &str, outbounds: &mut Vec<Outbound>)
    requires
        ext_proxy.tls is Some,
        ext_proxy.ws is Some,
    ensures
        outbounds_view(final(outbounds)@) == outbounds_view(old(outbounds)@) + reconfigured(
            *ext_proxy,
            ext_protocol@,
        ),
{
    let tls = match ext_proxy.tls {
        Some(b) => b,
        None => false,
    };
    let ws = match ext_proxy.ws {
        Some(b) => b,
        None => false,
    };
    let tls_outbound = Outbound {
        tag: suffixed(&ext_proxy.tag, "_tls_xxx"),
        protocol: String::from_str("tls"),
        settings: OutboundSettings::Tls(
            TlsOutboundSettings {
                server_name: string_or(&ext_proxy.sni, ""),
                certificate: string_or(&ext_proxy.tls_cert, ""),
            },
        ),
    };
    let mut headers: Vec<(String, String)> = Vec::new();
    match &ext_proxy.ws_host {
        Some(h) => {
            headers.push((String::from_str("Host"), h.clone()));
        },
        None => {},
    }
    assert(headers@.map_values(|h: (String, String)| (h.0@, h.1@)) =~= match ext_proxy.ws_host {
        Some(h) => seq![("Host"@, h@)],
        None => seq![],
    });
    let ws_outbound = Outbound {
        tag: suffixed(&ext_proxy.tag, "_ws_xxx"),
        protocol: String::from_str("ws"),
        settings: OutboundSettings::WebSocket(
            WebSocketOutboundSettings { path: string_or(&ext_proxy.ws_path, "/"), headers },
        ),
    };
    let port: u32 = match ext_proxy.port {
        Some(n) => n as u32,
        None => 0,
    };
    let mut outbound = Outbound {
        tag: suffixed(&ext_proxy.tag, "_shadowsocks_xxx"),
        protocol: String::from_str(ext_protocol),
        settings: OutboundSettings::Shadowsocks(
            ShadowsocksOutboundSettings {
                address: string_or(&ext_proxy.address, ""),
                port,
                method: string_or(&ext_proxy.encrypt_method, "chacha20-ietf-poly1305"),
                password: string_or(&ext_proxy.password, ""),
            },
        ),
    };
    proof {
        reveal_strlit("");
        assert(""@ =~= Seq::<char>::empty());
    }
    assert(outbound_view(tls_outbound) == tls_outbound_of(*ext_proxy));
    assert(outbound_view(ws_outbound) == ws_outbound_of(*ext_proxy));
    assert(settings_view(outbound.settings) == ss_settings_of(*ext_proxy));
    let mut actors: Vec<String> = Vec::new();
    if tls {
        actors.push(tls_outbound.tag.clone());
    }
    if ws {
        actors.push(ws_outbound.tag.clone());
    }
    assert(actors@.map_values(|a: String| a@) =~= chain_prefix(*ext_proxy));
    let ghost before = outbounds@;
    if actors.len() > 0 {
        let ghost pre = actors@;
        actors.push(outbound.tag.clone());
        assert(actors@.map_values(|a: String| a@) =~= pre.map_values(|a: String| a@).push(
            outbound.tag@,
        ));
        let chain_outbound = Outbound {
            tag: ext_proxy.tag.clone(),
            protocol: String::from_str("chain"),
            settings: OutboundSettings::Chain(ChainOutboundSettings { actors }),
        };
        outbounds.push(chain_outbound);
        if tls {
            outbounds.push(tls_outbound);
        }
        if ws {
            outbounds.push(ws_outbound);
        }
        outbounds.push(outbound);
        assert(outbounds_view(outbounds@) =~= outbounds_view(before) + reconfigured(
            *ext_proxy,
            ext_protocol@,
        ));
    } else {
        outbound.tag = ext_proxy.tag.clone();
        outbounds.push(outbound);
    }
    assert(outbounds_view(outbounds@) =~= outbounds_view(before) + reconfigured(
        *ext_proxy,
        ext_protocol@,
    ));
}

/// The Shadowsocks outbound a proxy becomes always comes last and carries
/// the proxy's own server settings: its address and password as given (empty
/// when not given), its port as given (0 when not given), and exactly the
/// cipher the proxy names; `chacha20-ietf-poly1305` only when it names none.
/// It takes the given protocol name, and the proxy's tag when no TLS or
/// WebSocket layer is asked for, else the tag followed by
/// `_shadowsocks_xxx`.
pub proof fn lemma_shadowsocks_outbound_keeps_server_settings(p: Proxy, protocol: Seq<char>)
    ensures
        reconfigured(p, protocol).len() >= 1,
        ({
            let ss = reconfigured(p, protocol).last();
            &&& ss.protocol == protocol
            &&& ss.tag == if p.tls == Some(true) || p.ws == Some(true) {
                p.tag@ + "_shadowsocks_xxx"@
            } else {
                p.tag@
            }
            &&& ss.settings matches SettingsView::Shadowsocks { address, port, method, password }
            &&& ss.settings->method == match p.encrypt_method {
                Some(m) => m@,
                None => "chacha20-ietf-poly1305"@,
            }
            &&& ss.settings->address == match p.address {
                Some(a) => a@,
                None => Seq::<char>::empty(),
            }
            &&& ss.settings->password == match p.password {
                Some(w) => w@,
                None => Seq::<char>::empty(),
            }
            &&& ss.settings->port == match p.port {
                Some(n) => n as u32,
                None => 0u32,
            }
        }),
{
    if p.tls == Some(true) || p.ws == Some(true) {
        assert(chain_prefix(p).len() > 0);
    } else {
        assert(chain_prefix(p) =~= Seq::<Seq<char>>::empty());
    }
}

} // verus!
