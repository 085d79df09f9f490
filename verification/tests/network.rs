use cli_harness::network::{decimal_string, SlirpNetwork};

#[test]
fn decimal_matches_display() {
    for n in [0u32, 7, 9, 10, 42, 100, 65520, 1_000_000, u32::MAX] {
        assert_eq!(decimal_string(n), n.to_string());
    }
}

#[test]
fn network_fields() {
    let net = SlirpNetwork::new(1234, "tap0", "10.0.2.2", "10.0.2.100");
    assert_eq!(net.container_pid, 1234);
    assert_eq!(net.tap_name, "tap0");
    assert_eq!(net.host_ip, "10.0.2.2");
    assert_eq!(net.container_ip, "10.0.2.100");
}

#[test]
fn start_arguments() {
    let net = SlirpNetwork::new(4321, "tap0", "10.0.2.2", "10.0.2.100");
    assert_eq!(net.start_args(), vec!["4321", "tap0", "--configure", "--mtu", "65520"]);
}

#[test]
fn forward_message_names_both_ports() {
    let net = SlirpNetwork::new(1, "tap0", "a", "b");
    assert_eq!(
        net.forward_message(8080, 80),
        "Forwarding host port 8080 to container port 80"
    );
}
