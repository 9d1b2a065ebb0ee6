use wifi_ap::addr::Ipv4;
use wifi_ap::dhcp::{on_serve_end, DhcpLeaseConfig, ServeEnd, ServeEndPlan, LEASE_SECS};

#[test]
fn default_lease_configuration() {
    let gateway = Ipv4::new(192, 168, 1, 2);
    let leased = Ipv4::new(192, 168, 1, 69);
    let config = DhcpLeaseConfig::new(gateway, leased);
    assert_eq!(
        config,
        DhcpLeaseConfig {
            server: gateway,
            lease_secs: 3600,
            gateways: vec![gateway],
            subnet: None,
            dns: vec![gateway],
            leased,
            captive_portal: true,
        }
    );
    assert_eq!(LEASE_SECS, 3600);
    assert!(config.is_distinct());
    for _ in 0..8 {
        assert_eq!(config.offer(), Some(Ipv4::new(192, 168, 1, 69)));
    }
}

#[test]
fn offer_is_the_leased_address_never_the_gateway() {
    let gateway = Ipv4::new(10, 0, 0, 1);
    let leased = Ipv4::new(10, 0, 0, 200);
    let config = DhcpLeaseConfig::new(gateway, leased);
    let first = config.offer();
    let second = config.offer();
    assert_eq!(first, Some(leased));
    assert_eq!(first, second);
    assert_ne!(first, Some(gateway));
}

#[test]
fn colliding_lease_is_not_refused() {
    let gateway = Ipv4::new(10, 0, 0, 1);
    let config = DhcpLeaseConfig::new(gateway, gateway);
    assert!(!config.is_distinct());
    assert_eq!(config.offer(), Some(gateway));
}

#[test]
fn lease_configuration_from_text() {
    let leased = Ipv4::new(192, 168, 1, 69);
    let config = DhcpLeaseConfig::from_gateway_text("192.168.1.2", leased).unwrap();
    assert_eq!(config, DhcpLeaseConfig::new(Ipv4::new(192, 168, 1, 2), leased));
    assert_eq!(DhcpLeaseConfig::from_gateway_text("192.168.1.256", leased), None);
    assert_eq!(DhcpLeaseConfig::from_gateway_text("", leased), None);
}

#[test]
fn serving_failure_is_logged_and_goes_no_further() {
    assert_eq!(
        on_serve_end(ServeEnd::Failed),
        ServeEndPlan { log_error: true, restart: false, propagate: false }
    );
    assert_eq!(
        on_serve_end(ServeEnd::Returned),
        ServeEndPlan { log_error: false, restart: false, propagate: false }
    );
}
