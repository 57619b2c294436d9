use media_session::error::SessionError;
use media_session::hostaddr::{select_host_address, InterfaceAddress, Ipv4Address};

fn ip(a: u8, b: u8, c: u8, d: u8) -> Ipv4Address {
    Ipv4Address { a, b, c, d }
}

fn v4(a: u8, b: u8, c: u8, d: u8) -> InterfaceAddress {
    InterfaceAddress::V4(ip(a, b, c, d))
}

#[test]
fn loopback_link_local_and_broadcast_are_not_reachable() {
    assert!(!ip(127, 0, 0, 1).reachable());
    assert!(!ip(127, 255, 255, 255).reachable());
    assert!(!ip(169, 254, 0, 1).reachable());
    assert!(!ip(169, 254, 255, 255).reachable());
    assert!(!ip(255, 255, 255, 255).reachable());
}

#[test]
fn other_addresses_are_reachable() {
    assert!(ip(192, 168, 1, 10).reachable());
    assert!(ip(10, 0, 0, 1).reachable());
    assert!(ip(8, 8, 8, 8).reachable());
    assert!(ip(0, 0, 0, 0).reachable());
    assert!(ip(126, 0, 0, 1).reachable());
    assert!(ip(128, 0, 0, 1).reachable());
    assert!(ip(169, 253, 0, 1).reachable());
    assert!(ip(169, 255, 0, 1).reachable());
    assert!(ip(170, 254, 0, 1).reachable());
    assert!(ip(255, 255, 255, 254).reachable());
    assert!(ip(254, 255, 255, 255).reachable());
}

#[test]
fn first_reachable_address_is_selected() {
    let addresses = vec![
        v4(127, 0, 0, 1),
        InterfaceAddress::V6,
        v4(169, 254, 3, 4),
        InterfaceAddress::Other,
        v4(192, 168, 1, 10),
        v4(10, 0, 0, 1),
    ];
    assert_eq!(select_host_address(&addresses), Ok(ip(192, 168, 1, 10)));
    assert_eq!(select_host_address(&vec![v4(10, 0, 0, 1), v4(192, 168, 1, 10)]), Ok(ip(10, 0, 0, 1)));
}

#[test]
fn host_without_a_reachable_address_is_misconfigured() {
    assert_eq!(select_host_address(&Vec::new()), Err(SessionError::Configuration));
    let addresses = vec![
        v4(127, 0, 0, 1),
        InterfaceAddress::V6,
        v4(169, 254, 3, 4),
        v4(255, 255, 255, 255),
        InterfaceAddress::Other,
    ];
    assert_eq!(select_host_address(&addresses), Err(SessionError::Configuration));
}
