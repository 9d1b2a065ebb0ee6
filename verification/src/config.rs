//! Resolving the static network identity from its textual form.

use crate::addr::{
    cidr_text, cidr_text_value, ipv4_text, ipv4_text_value, parse_cidr_text, parse_ipv4_text, Cidr,
    Ipv4,
};
use vstd::prelude::*;
use vstd::string::*;

verus! {

/// The configuration field a text was given for.
#[derive(Clone, Copy, Debug, PartialEq, Eq, Structural)]
pub enum ConfigField {
    StaticAddress,
    GatewayAddress,
}

/// A configuration text that denotes no address, with the field it was
/// given for.
#[derive(Clone, Debug, PartialEq, Eq)]
pub struct ConfigError {
    pub field: ConfigField,
    pub text: String,
}

/// The device's network identity. Produced once, never changed.
#[derive(Clone, Debug, PartialEq, Eq)]
pub struct NetworkIdentity {
    pub address: Cidr,
    pub gateway: Ipv4,
    pub dns_servers: Vec<Ipv4>,
}

/// The field's name as an error shows it.
pub open spec fn field_label(field: ConfigField) -> Seq<char> {
    match field {
        ConfigField::StaticAddress => "static address"@,
        ConfigField::GatewayAddress => "gateway address"@,
    }
}

/// The words an error's message opens with.
pub open spec fn message_prefix(field: ConfigField) -> Seq<char> {
    match field {
        ConfigField::StaticAddress => "Invalid STATIC_IP: "@,
        ConfigField::GatewayAddress => "Invalid GATEWAY_IP: "@,
    }
}

/// What resolving yields, given what each text denotes: the identity made of
/// the two values and no DNS server where both texts denote one; else an
/// error for the static address where that text denotes nothing, and for the
/// gateway address otherwise, each carrying its text.
pub open spec fn resolves_to(
    r: Result<NetworkIdentity, ConfigError>,
    address: Option<Cidr>,
    gateway: Option<Ipv4>,
    static_text: Seq<char>,
    gateway_text: Seq<char>,
) -> bool {
    match r {
        Ok(identity) => {
            &&& address == Some(identity.address)
            &&& gateway == Some(identity.gateway)
            &&& identity.dns_servers@ =~= Seq::<Ipv4>::empty()
        },
        Err(e) => {
            if address is None {
                e.field == ConfigField::StaticAddress && e.text@ == static_text
            } else {
                gateway is None && e.field == ConfigField::GatewayAddress && e.text@
                    == gateway_text
            }
        },
    }
}

impl ConfigError {
    /// The name of the offending field: "static address" or "gateway address".
    pub fn field_name(&self) -> (r: &'static str)
        ensures
            r@ == field_label(self.field),
    {
        match self.field {
            ConfigField::StaticAddress => "static address",
            ConfigField::GatewayAddress => "gateway address",
        }
    }

    /// The error in words: which setting was invalid, then the text given.
    pub fn message(&self) -> (r: String)
        ensures
            r@ == message_prefix(self.field) + self.text@,
    {
        let prefix = match self.field {
            ConfigField::StaticAddress => "Invalid STATIC_IP: ",
            ConfigField::GatewayAddress => "Invalid GATEWAY_IP: ",
        };
        String::from_str(prefix).concat(self.text.as_str())
    }
}

impl NetworkIdentity {
    /// The prefix is no longer than an address.
    pub open spec fn wf(&self) -> bool {
        self.address.wf()
    }

    /// Whether the gateway lies in the subnet of the device's own address.
    /// An identity is meaningful only if it does, but resolving accepts one
    /// that does not: this is for the caller who wants to know.
    pub fn gateway_in_subnet(&self) -> (r: bool)
        requires
            self.wf(),
        ensures
            r == self.address.contains(self.gateway),
    {
        self.address.contains_address(self.gateway)
    }
}

/// Puts the identity together from what the two texts were found to denote,
/// or names the first text that denotes nothing.
pub fn identity_from_parsed(
    address: Option<Cidr>,
    gateway: Option<Ipv4>,
    static_text: &str,
    gateway_text: &str,
) -> (r: Result<NetworkIdentity, ConfigError>)
    ensures
        resolves_to(r, address, gateway, static_text@, gateway_text@),
        r is Ok <==> address is Some && gateway is Some,
{
    match address {
        None => Err(
            ConfigError { field: ConfigField::StaticAddress, text: String::from_str(static_text) },
        ),
        Some(address) => match gateway {
            None => Err(
                ConfigError {
                    field: ConfigField::GatewayAddress,
                    text: String::from_str(gateway_text),
                },
            ),
            Some(gateway) => Ok(NetworkIdentity { address, gateway, dns_servers: Vec::new() }),
        },
    }
}

/// The identity that holds exactly the given block and gateway, and no DNS
/// server.
pub open spec fn is_identity_of(identity: NetworkIdentity, address: Cidr, gateway: Ipv4) -> bool {
    &&& identity.address == address
    &&& identity.gateway == gateway
    &&& identity.dns_servers@ =~= Seq::<Ipv4>::empty()
}

/// Resolves the static address (in `address/prefix` notation) and the
/// gateway address (dotted quad) into the network identity.
///
/// Succeeds exactly when both texts denote a value, and then the identity
/// holds those two values and no DNS server. Otherwise the error names the
/// static address if that text is at fault, else the gateway address, and
/// carries the text. Texts in plain notation always resolve, to the very
/// block and address they write out.
pub fn resolve(static_text: &str, gateway_text: &str) -> (r: Result<NetworkIdentity, ConfigError>)
    ensures
        resolves_to(
            r,
            cidr_text_value(static_text@),
            ipv4_text_value(gateway_text@),
            static_text@,
            gateway_text@,
        ),
        r is Ok <==> cidr_text_value(static_text@) is Some && ipv4_text_value(gateway_text@)
            is Some,
        r matches Ok(identity) ==> identity.wf(),
        forall|address: Cidr, gateway: Ipv4|
            address.wf() && static_text@ == #[trigger] cidr_text(address) && gateway_text@
                == #[trigger] ipv4_text(gateway) ==> r is Ok && is_identity_of(
                r.unwrap(),
                address,
                gateway,
            ),
{
    let address = parse_cidr_text(static_text);
    let gateway = parse_ipv4_text(gateway_text);
    identity_from_parsed(address, gateway, static_text, gateway_text)
}

} // verus!
