//! What has to be settled before any task is spawned, and the order in which
//! the access point is then brought up.

use crate::addr::{cidr_text, cidr_text_value, ipv4_text, ipv4_text_value, Cidr, Ipv4};
use crate::config::{is_identity_of, resolve, resolves_to, ConfigError, NetworkIdentity};
use crate::dhcp::DhcpLeaseConfig;
use vstd::prelude::*;

verus! {

/// One step of the bring-up, in the order in which the steps are taken.
#[derive(Clone, Copy, Debug, PartialEq, Eq, Structural)]
pub enum BringupStep {
    /// Spawn the task that supervises the access point's lifecycle.
    SpawnWifiSupervisor,
    /// Spawn the task that pumps the packet stack.
    SpawnPacketPump,
    /// Spawn the task that serves the one lease.
    SpawnLeaseServer,
    /// Hold until the link is up and the configuration applied.
    AwaitReadiness,
}

/// Everything the bring-up works from.
#[derive(Clone, Debug, PartialEq, Eq)]
pub struct StartupPlan {
    /// The identity the packet stack is configured with.
    pub identity: NetworkIdentity,
    /// The seed the packet stack is created with.
    pub net_seed: u64,
    /// The configuration the lease server is run with.
    pub lease: DhcpLeaseConfig,
    /// The steps to take, first to last.
    pub steps: Vec<BringupStep>,
}

/// The steps of every bring-up: the three tasks, then the readiness wait.
pub open spec fn bringup_order() -> Seq<BringupStep> {
    seq![
        BringupStep::SpawnWifiSupervisor,
        BringupStep::SpawnPacketPump,
        BringupStep::SpawnLeaseServer,
        BringupStep::AwaitReadiness,
    ]
}

/// The 64-bit seed made of two 32-bit random words.
pub open spec fn seed_of(low: u32, high: u32) -> nat {
    low as nat + (high as nat) * 0x1_0000_0000
}

/// Joins two 32-bit random words into the packet stack's 64-bit seed: the
/// first word is the lower half, the second the upper.
pub fn net_seed(low: u32, high: u32) -> (r: u64)
    ensures
        r as nat == seed_of(low, high),
{
    let lo: u64 = low as u64;
    let hi: u64 = high as u64;
    let r: u64 = lo | (hi << 32);
    assert(r == lo + hi * 0x1_0000_0000) by (bit_vector)
        requires
            r == lo | (hi << 32),
            lo < 0x1_0000_0000,
            hi < 0x1_0000_0000,
    ;
    r
}

/// Settles what the bring-up needs before any task is spawned.
///
/// Fails exactly when the static address or the gateway address denotes no
/// value, with the error that resolving gives; nothing is planned then.
/// Otherwise the plan holds the resolved identity, the seed made of the two
/// random words, the default lease configuration for the resolved gateway
/// and the given leased address, and the steps in their fixed order.
/// Settings in plain notation always give a plan, for the very block and
/// gateway they write out.
pub fn start_wifi(
    static_text: &str,
    gateway_text: &str,
    leased: Ipv4,
    seed_low: u32,
    seed_high: u32,
) -> (r: Result<StartupPlan, ConfigError>)
    ensures
        r is Ok <==> cidr_text_value(static_text@) is Some && ipv4_text_value(gateway_text@)
            is Some,
        match r {
            Ok(plan) => {
                &&& resolves_to(
                    Ok(plan.identity),
                    cidr_text_value(static_text@),
                    ipv4_text_value(gateway_text@),
                    static_text@,
                    gateway_text@,
                )
                &&& plan.identity.wf()
                &&& plan.net_seed as nat == seed_of(seed_low, seed_high)
                &&& plan.lease.is_default_for(plan.identity.gateway, leased)
                &&& plan.steps@ =~= bringup_order()
            },
            Err(e) => resolves_to(
                Err(e),
                cidr_text_value(static_text@),
                ipv4_text_value(gateway_text@),
                static_text@,
                gateway_text@,
            ),
        },
        forall|address: Cidr, gateway: Ipv4|
            address.wf() && static_text@ == #[trigger] cidr_text(address) && gateway_text@
                == #[trigger] ipv4_text(gateway) ==> r is Ok && is_identity_of(
                r.unwrap().identity,
                address,
                gateway,
            ),
{
    let net_seed = net_seed(seed_low, seed_high);
    match resolve(static_text, gateway_text) {
        Err(e) => Err(e),
        Ok(identity) => {
            let lease = DhcpLeaseConfig::new(identity.gateway, leased);
            let mut steps: Vec<BringupStep> = Vec::new();
            steps.push(BringupStep::SpawnWifiSupervisor);
            steps.push(BringupStep::SpawnPacketPump);
            steps.push(BringupStep::SpawnLeaseServer);
            steps.push(BringupStep::AwaitReadiness);
            Ok(StartupPlan { identity, net_seed, lease, steps })
        },
    }
}

} // verus!
