use wifi_ap::addr::{Cidr, Ipv4};
use wifi_ap::config::{identity_from_parsed, resolve, ConfigError, ConfigField, NetworkIdentity};

#[test]
fn resolves_the_default_identity() {
    let identity = resolve("192.168.1.2/24", "192.168.1.2").unwrap();
    assert_eq!(
        identity,
        NetworkIdentity {
            address: Cidr { address: Ipv4::new(192, 168, 1, 2), prefix_len: 24 },
            gateway: Ipv4::new(192, 168, 1, 2),
            dns_servers: vec![],
        }
    );
}

#[test]
fn resolved_fields_are_the_texts_values() {
    let identity = resolve("10.0.7.255/8", "172.16.254.1").unwrap();
    assert_eq!(identity.address.address, Ipv4 { a: 10, b: 0, c: 7, d: 255 });
    assert_eq!(identity.address.prefix_len, 8);
    assert_eq!(identity.gateway, Ipv4 { a: 172, b: 16, c: 254, d: 1 });
    assert!(identity.dns_servers.is_empty());
}

#[test]
fn octet_out_of_range_names_the_static_address() {
    let e = resolve("999.1.1.1/24", "192.168.1.2").unwrap_err();
    assert_eq!(e.field, ConfigField::StaticAddress);
    assert_eq!(e.field_name(), "static address");
    assert_eq!(e.text, "999.1.1.1/24");
    assert_eq!(e.message(), "Invalid STATIC_IP: 999.1.1.1/24");
}

#[test]
fn bad_gateway_names_the_gateway_address() {
    let e = resolve("192.168.1.2/24", "192.168.1").unwrap_err();
    assert_eq!(e.field, ConfigField::GatewayAddress);
    assert_eq!(e.field_name(), "gateway address");
    assert_eq!(e.text, "192.168.1");
    assert_eq!(e.message(), "Invalid GATEWAY_IP: 192.168.1");
}

#[test]
fn both_bad_names_the_static_address_first() {
    let e = resolve("nonsense", "also nonsense").unwrap_err();
    assert_eq!(e.field, ConfigField::StaticAddress);
    assert_eq!(e.text, "nonsense");
}

#[test]
fn static_address_needs_a_prefix() {
    let e = resolve("192.168.1.2", "192.168.1.2").unwrap_err();
    assert_eq!(e.field, ConfigField::StaticAddress);
}

#[test]
fn prefix_longer_than_an_address_is_refused() {
    assert!(resolve("192.168.1.2/32", "192.168.1.2").is_ok());
    let e = resolve("192.168.1.2/33", "192.168.1.2").unwrap_err();
    assert_eq!(e.field, ConfigField::StaticAddress);
}

#[test]
fn prefix_zero_is_accepted() {
    let identity = resolve("0.0.0.0/0", "0.0.0.0").unwrap();
    assert_eq!(identity.address.prefix_len, 0);
    assert_eq!(identity.gateway, Ipv4::new(0, 0, 0, 0));
}

#[test]
fn gateway_takes_no_prefix() {
    let e = resolve("192.168.1.2/24", "192.168.1.2/24").unwrap_err();
    assert_eq!(e.field, ConfigField::GatewayAddress);
    assert_eq!(e.text, "192.168.1.2/24");
}

#[test]
fn empty_texts_are_refused() {
    assert_eq!(resolve("", "192.168.1.2").unwrap_err().field, ConfigField::StaticAddress);
    assert_eq!(resolve("192.168.1.2/24", "").unwrap_err().field, ConfigField::GatewayAddress);
}

#[test]
fn trailing_text_is_refused() {
    assert_eq!(resolve("192.168.1.2/24 ", "192.168.1.2").unwrap_err().field, ConfigField::StaticAddress);
    assert_eq!(resolve("192.168.1.2/24", "192.168.1.2 ").unwrap_err().field, ConfigField::GatewayAddress);
}

#[test]
fn identity_from_parsed_values() {
    let address = Cidr { address: Ipv4::new(10, 1, 2, 3), prefix_len: 16 };
    let gateway = Ipv4::new(10, 1, 0, 1);
    assert_eq!(
        identity_from_parsed(Some(address), Some(gateway), "a", "g"),
        Ok(NetworkIdentity { address, gateway, dns_servers: vec![] })
    );
    assert_eq!(
        identity_from_parsed(None, Some(gateway), "a", "g"),
        Err(ConfigError { field: ConfigField::StaticAddress, text: "a".to_string() })
    );
    assert_eq!(
        identity_from_parsed(Some(address), None, "a", "g"),
        Err(ConfigError { field: ConfigField::GatewayAddress, text: "g".to_string() })
    );
    assert_eq!(
        identity_from_parsed(None, None, "a", "g"),
        Err(ConfigError { field: ConfigField::StaticAddress, text: "a".to_string() })
    );
}

#[test]
fn address_as_a_number() {
    assert_eq!(Ipv4::new(192, 168, 1, 2).to_bits(), 0xC0A8_0102);
    assert_eq!(Ipv4::new(0, 0, 0, 0).to_bits(), 0);
    assert_eq!(Ipv4::new(255, 255, 255, 255).to_bits(), u32::MAX);
}

#[test]
fn addresses_in_plain_notation() {
    assert_eq!(Ipv4::new(192, 168, 1, 2).to_text(), "192.168.1.2");
    assert_eq!(Ipv4::new(0, 0, 0, 0).to_text(), "0.0.0.0");
    assert_eq!(Ipv4::new(255, 255, 255, 255).to_text(), "255.255.255.255");
    assert_eq!(Ipv4::new(10, 100, 9, 99).to_text(), "10.100.9.99");
    assert_eq!(Ipv4::new(101, 110, 200, 7).to_text(), "101.110.200.7");
    assert_eq!(Cidr { address: Ipv4::new(192, 168, 1, 2), prefix_len: 24 }.to_text(), "192.168.1.2/24");
    assert_eq!(Cidr { address: Ipv4::new(10, 0, 0, 1), prefix_len: 0 }.to_text(), "10.0.0.1/0");
    assert_eq!(Cidr { address: Ipv4::new(10, 0, 0, 1), prefix_len: 32 }.to_text(), "10.0.0.1/32");
}

#[test]
fn plain_notation_resolves_to_what_it_writes_out() {
    let octets = [0u8, 1, 9, 10, 11, 99, 100, 101, 109, 110, 199, 200, 249, 250, 255];
    for (i, a) in octets.iter().enumerate() {
        for prefix_len in [0u8, 1, 8, 9, 10, 24, 31, 32] {
            let b = octets[(i + 3) % octets.len()];
            let c = octets[(i + 7) % octets.len()];
            let d = octets[(i + 11) % octets.len()];
            let address = Cidr { address: Ipv4::new(*a, b, c, d), prefix_len };
            let gateway = Ipv4::new(d, c, b, *a);
            let identity = resolve(&address.to_text(), &gateway.to_text()).unwrap();
            assert_eq!(identity, NetworkIdentity { address, gateway, dns_servers: vec![] });
        }
    }
}

#[test]
fn gateway_in_or_out_of_the_subnet() {
    let inside = resolve("192.168.1.2/24", "192.168.1.254").unwrap();
    assert!(inside.gateway_in_subnet());
    let outside = resolve("192.168.1.2/24", "192.168.2.1").unwrap();
    assert!(!outside.gateway_in_subnet());
    let everything = resolve("192.168.1.2/0", "10.0.0.1").unwrap();
    assert!(everything.gateway_in_subnet());
    let host = resolve("192.168.1.2/32", "192.168.1.3").unwrap();
    assert!(!host.gateway_in_subnet());
    let same = resolve("192.168.1.2/32", "192.168.1.2").unwrap();
    assert!(same.gateway_in_subnet());
    let odd = Cidr { address: Ipv4::new(10, 128, 0, 0), prefix_len: 9 };
    assert!(odd.contains_address(Ipv4::new(10, 255, 1, 1)));
    assert!(!odd.contains_address(Ipv4::new(10, 127, 1, 1)));
}
