//! The callback reporters and the services a controlling process talks to.
use vstd::prelude::*;
use crate::inbound::{PacketInboundPlan, PacketInboundSettings, InboundError, plan_packet_inbound, spec_plan, texts};

verus! {

/// A traffic reporter that writes reports to the log.
#[derive(Debug)]
pub struct ConsoleCallback {}

impl ConsoleCallback {
    /// A console reporter.
    pub fn new() -> (c: ConsoleCallback) {
        ConsoleCallback {}
    }
}

/// A traffic reporter for a gRPC client.
#[derive(Debug)]
pub struct GrpcCallback {}

impl GrpcCallback {
    /// A gRPC reporter.
    pub fn new() -> (c: GrpcCallback) {
        GrpcCallback {}
    }
}

/// The echo service.
#[derive(Debug, Default)]
pub struct MyEchoService {}

impl MyEchoService {
    /// The reply to an echo request: `Hello <message>!`.
    pub fn echo_message(&self, message: &str) -> (r: String)
        ensures
            r@ == "Hello "@ + message@ + "!"@,
    {
        let mut s = String::from_str("Hello ");
        s.append(message);
        s.append("!");
        s
    }
}

/// The service that starts and stops the proxy runtime.
#[derive(Debug, Default)]
pub struct ProxieService {}

/// The service that answers pings.
#[derive(Debug, Default)]
pub struct RunAtService {}

/// A packet inbound, by its tag and settings.
pub struct PacketInboundListener {
    pub tag: String,
    pub settings: PacketInboundSettings,
}

/// A copy of a list of strings.
fn copy_strings(v: &Vec<String>) -> (r: Vec<String>)
    ensures
        r@.map_values(|s: String| s@) == v@.map_values(|s: String| s@),
{
    let mut r: Vec<String> = Vec::new();
    let mut i: usize = 0;
    while i < v.len()
        invariant
            i <= v@.len(),
            r@.len() == i,
            forall|k: int| 0 <= k < i ==> (#[trigger] r@[k])@ == v@[k]@,
        decreases v@.len() - i,
    {
        let c = v[i].clone();
        r.push(c);
        i += 1;
    }
    assert(r@.map_values(|s: String| s@) =~= v@.map_values(|s: String| s@));
    r
}

impl PacketInboundListener {
    /// Sets the inbound up from its settings (see `plan_packet_inbound`).
    pub fn listen(&self) -> (r: Result<PacketInboundPlan, InboundError>)
            ensures
            spec_plan(
                self.settings.port,
                self.settings.sink,
                texts(self.settings.fake_dns_include@),
                texts(self.settings.fake_dns_exclude@),
                r,
            ),
    {
        let settings = PacketInboundSettings {
            port: self.settings.port,
            sink: self.settings.sink,
            fake_dns_include: copy_strings(&self.settings.fake_dns_include),
            fake_dns_exclude: copy_strings(&self.settings.fake_dns_exclude),
        };
        plan_packet_inbound(settings)
    }
}

} // verus!
