//! The single-lease DHCP service: its configuration and the one address it
//! hands out.

use crate::addr::{ipv4_text, ipv4_text_value, parse_ipv4_text, Ipv4};
use vstd::prelude::*;

verus! {

/// How long a lease lasts, in seconds: one hour.
pub const LEASE_SECS: u64 = 3600;

/// What the lease server is run with.
#[derive(Clone, Debug, PartialEq, Eq)]
pub struct DhcpLeaseConfig {
    /// The server's own address.
    pub server: Ipv4,
    /// How long a lease lasts, in seconds.
    pub lease_secs: u64,
    /// The gateways announced to clients.
    pub gateways: Vec<Ipv4>,
    /// The subnet mask announced to clients, if one is.
    pub subnet: Option<Ipv4>,
    /// The DNS servers announced to clients.
    pub dns: Vec<Ipv4>,
    /// The one address that is leased.
    pub leased: Ipv4,
    /// Whether clients are told of a captive portal.
    pub captive_portal: bool,
}

impl DhcpLeaseConfig {
    /// The default shape: server, sole gateway and sole DNS server are one
    /// address; no subnet mask is announced; leases last an hour; the
    /// captive portal is announced.
    pub open spec fn is_default_for(&self, gateway: Ipv4, leased: Ipv4) -> bool {
        &&& self.server == gateway
        &&& self.lease_secs == LEASE_SECS
        &&& self.gateways@ =~= seq![gateway]
        &&& self.subnet is None
        &&& self.dns@ =~= seq![gateway]
        &&& self.leased == leased
        &&& self.captive_portal
    }

    /// The leased address is not the server's own. Nothing enforces this: a
    /// configuration without it is accepted and offers the server's address.
    pub open spec fn distinct(&self) -> bool {
        self.leased != self.server
    }

    /// The default configuration for a gateway and a leased address.
    pub fn new(gateway: Ipv4, leased: Ipv4) -> (r: DhcpLeaseConfig)
        ensures
            r.is_default_for(gateway, leased),
    {
        let mut gateways: Vec<Ipv4> = Vec::new();
        gateways.push(gateway);
        let mut dns: Vec<Ipv4> = Vec::new();
        dns.push(gateway);
        DhcpLeaseConfig {
            server: gateway,
            lease_secs: LEASE_SECS,
            gateways,
            subnet: None,
            dns,
            leased,
            captive_portal: true,
        }
    }

    /// The default configuration for a gateway given as text; `None` exactly
    /// when the text denotes no address. A gateway in plain dotted-quad
    /// notation always gives the configuration for that very address.
    pub fn from_gateway_text(gateway_text: &str, leased: Ipv4) -> (r: Option<DhcpLeaseConfig>)
        ensures
            r is Some <==> ipv4_text_value(gateway_text@) is Some,
            r matches Some(c) ==> c.is_default_for(ipv4_text_value(gateway_text@).unwrap(), leased),
            forall|gateway: Ipv4|
                gateway_text@ == #[trigger] ipv4_text(gateway) ==> r is Some
                    && r.unwrap().is_default_for(gateway, leased),
    {
        match parse_ipv4_text(gateway_text) {
            Some(gateway) => Some(DhcpLeaseConfig::new(gateway, leased)),
            None => None,
        }
    }

    /// Whether the leased address differs from the server's own.
    pub fn is_distinct(&self) -> (r: bool)
        ensures
            r == self.distinct(),
    {
        self.leased != self.server
    }

    /// The address offered to a client that asks for one: always the one
    /// leased address, whoever asks and however often; hence never the
    /// server's own address where the two differ.
    pub fn offer(&self) -> (r: Option<Ipv4>)
        ensures
            r == Some(self.leased),
            self.distinct() ==> r != Some(self.server),
    {
        single_lease_offer(self.leased)
    }
}

/// Why the lease service came to an end.
#[derive(Clone, Copy, Debug, PartialEq, Eq, Structural)]
pub enum ServeEnd {
    /// The serving loop returned without an error.
    Returned,
    /// The serving loop failed.
    Failed,
}

/// What the lease task does when its serving loop has ended.
#[derive(Clone, Copy, Debug, PartialEq, Eq, Structural)]
pub struct ServeEndPlan {
    /// Whether the failure is written to the diagnostic output.
    pub log_error: bool,
    /// Whether the loop is entered again; it never is.
    pub restart: bool,
    /// Whether the failure reaches the initialising context; it never does.
    pub propagate: bool,
}

/// The lease task's reaction to the end of its serving loop: a failure is
/// logged, and in either case the task ends without restarting the service
/// and without telling anyone else.
pub fn on_serve_end(end: ServeEnd) -> (r: ServeEndPlan)
    ensures
        r.log_error == (end == ServeEnd::Failed),
        !r.restart,
        !r.propagate,
{
    let log_error = match end {
        ServeEnd::Failed => true,
        ServeEnd::Returned => false,
    };
    ServeEndPlan { log_error, restart: false, propagate: false }
}

/// Builds a `SingleDhcpLeaser` of `esp_hal_dhcp_server` for the address
/// and asks it for the next lease through `DhcpLeaser::next_lease`.
/// Trusted: such a leaser always offers the address it was built with.
#[verifier::external_body]
fn single_lease_offer(fixed: Ipv4) -> (r: Option<Ipv4>)
    ensures
        r == Some(fixed),
{
    let ip = esp_hal_dhcp_server::Ipv4Addr::new(fixed.a, fixed.b, fixed.c, fixed.d);
    let mut leaser = esp_hal_dhcp_server::simple_leaser::SingleDhcpLeaser::new(ip);
    match esp_hal_dhcp_server::structs::DhcpLeaser::next_lease(&mut leaser) {
        Some(offered) => {
            let o = offered.octets();
            Some(Ipv4 { a: o[0], b: o[1], c: o[2], d: o[3] })
        },
        None => None,
    }
}

} // verus!
