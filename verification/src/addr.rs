//! Addresses as plain values.
use vstd::prelude::*;

verus! {

/// An IP address by its octets.
#[derive(Clone, Copy, Debug, PartialEq, Eq)]
pub enum IpAddr {
    V4([u8; 4]),
    V6([u8; 16]),
}

/// An IP address with a port.
#[derive(Clone, Copy, Debug, PartialEq, Eq)]
pub struct SocketAddr {
    pub ip: IpAddr,
    pub port: u16,
}

impl SocketAddr {
    /// Pairs an address with a port.
    pub fn new(ip: IpAddr, port: u16) -> (r: SocketAddr)
        ensures
            r.ip == ip,
            r.port == port,
    {
        SocketAddr { ip, port }
    }
}

/// A destination as a proxy session names it: an IP socket address, or a
/// domain name and a port.
#[derive(Clone, Debug)]
pub enum SocksAddr {
    Ip(SocketAddr),
    Domain(String, u16),
}

/// A host: a domain name or an IP address.
#[derive(Clone, Debug)]
pub enum HostName {
    DomainName(String),
    Ip(IpAddr),
}

/// A host and a port to reach it on.
#[derive(Clone, Debug)]
pub struct DestinationAddr {
    pub host: HostName,
    pub port: u16,
}

/// Converts this string to its ASCII lower case in place
/// (`String::make_ascii_lowercase`).
#[verifier::external_body]
fn make_ascii_lowercase(s: &mut String)
    ensures
        final(s)@ == old(s)@.map_values(|c: char| ascii_lower(c)),
{
    s.make_ascii_lowercase()
}

/// A character with 'A' to 'Z' mapped to 'a' to 'z' and every other one kept.
pub open spec fn ascii_lower(c: char) -> char {
    if 'A' <= c <= 'Z' {
        ((c as u32) + 32) as char
    } else {
        c
    }
}

impl HostName {
    /// Makes this host the given domain name, lowered to ASCII lower case.
    pub fn set_domain_name(&mut self, domain_name: String) -> (r: Result<(), String>)
        ensures
            r is Ok,
            *final(self) matches HostName::DomainName(d) && d@ == domain_name@.map_values(
                |c: char| ascii_lower(c),
            ),
    {
        let mut domain_name = domain_name;
        make_ascii_lowercase(&mut domain_name);
        *self = HostName::DomainName(domain_name);
        Ok(())
    }

    /// The host named by the given domain name, lowered to ASCII lower case.
    pub fn from_domain_name(domain_name: String) -> (r: Result<HostName, String>)
        ensures
            r matches Ok(HostName::DomainName(d)) && d@ == domain_name@.map_values(
                |c: char| ascii_lower(c),
            ),
    {
        let mut res = HostName::DomainName(String::new());
        let _ = res.set_domain_name(domain_name);
        Ok(res)
    }
}

impl DestinationAddr {
    /// The destination that a socket address names.
    pub fn from_socket_addr(socket: SocketAddr) -> (r: DestinationAddr)
        ensures
            r.host == HostName::Ip(socket.ip),
            r.port == socket.port,
    {
        DestinationAddr { host: HostName::Ip(socket.ip), port: socket.port }
    }
}

} // verus!
