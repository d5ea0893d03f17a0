//! Socket addresses.
use ferrisetw::parser::socket_address::{
    AddressFamily, IpAddr, SocketAddr, SocketAddrV4, SocketAddrV6, TdhSocketAddress,
};

/// sockaddr_in: AF_INET, port 80, address 127.0.0.1
fn sockaddr_in() -> Vec<u8> {
    let mut buffer = Vec::new();
    buffer.extend_from_slice(&2u16.to_ne_bytes());
    buffer.extend_from_slice(&80u16.to_be_bytes());
    buffer.extend_from_slice(&[127, 0, 0, 1]);
    buffer.resize(16, 0);
    buffer
}

/// sockaddr_in6: AF_INET6, port 443, flow info 1, address ::1, scope id 7
fn sockaddr_in6() -> Vec<u8> {
    let mut buffer = Vec::new();
    buffer.extend_from_slice(&23u16.to_ne_bytes());
    buffer.extend_from_slice(&443u16.to_be_bytes());
    buffer.extend_from_slice(&1u32.to_be_bytes());
    buffer.extend([0u8; 15]);
    buffer.push(1);
    buffer.extend_from_slice(&7u32.to_be_bytes());
    buffer
}

#[test]
fn ipv4_sockaddr_decodes() {
    let addr = TdhSocketAddress::from_property_buffer(&sockaddr_in()).unwrap();
    let localhost = SocketAddrV4 { ip: 0x7f00_0001, port: 80 };
    assert!(matches!(&addr, TdhSocketAddress::Ipv4(v4) if *v4 == localhost));
    assert_eq!(addr.family(), AddressFamily::Inet);
    assert_eq!(addr.socket_addr(), Some(SocketAddr::V4(localhost)));
    assert_eq!(addr.ip(), Some(IpAddr::V4(0x7f00_0001)));
    assert_eq!(addr.port(), Some(80));
}

#[test]
fn ipv6_sockaddr_decodes() {
    let addr = TdhSocketAddress::from_property_buffer(&sockaddr_in6()).unwrap();
    let Some(SocketAddr::V6(v6)) = addr.socket_addr() else {
        panic!("expected an IPv6 address");
    };
    assert_eq!(v6, SocketAddrV6 { ip: 1, port: 443, flow_info: 1, scope_id: 7 });
    assert_eq!(addr.ip(), Some(IpAddr::V6(1)));
    assert_eq!(addr.port(), Some(443));
    assert_eq!(addr.family(), AddressFamily::Inet6);
}

#[test]
fn trailing_sockaddr_storage_is_ignored() {
    let mut buffer = sockaddr_in6();
    buffer.resize(28 + 128, 0xaa);
    let addr = TdhSocketAddress::from_property_buffer(&buffer).unwrap();
    assert!(matches!(addr, TdhSocketAddress::Ipv6(_)));
}

#[test]
fn unsupported_family_and_short_buffers_keep_raw_bytes() {
    let raw = sockaddr_in();
    let mut other_family = raw.clone();
    other_family[0..2].copy_from_slice(&34u16.to_ne_bytes()); // AF_HYPERV
    let addr = TdhSocketAddress::from_property_buffer(&other_family).unwrap();
    assert!(matches!(
        &addr,
        TdhSocketAddress::Other { family: AddressFamily::Other(34), raw } if *raw == other_family
    ));
    assert_eq!(addr.family(), AddressFamily::Other(34));
    assert_eq!(addr.socket_addr(), None);

    // A recognized family with a truncated sockaddr is kept raw as well
    let truncated = &raw[..8];
    let addr = TdhSocketAddress::from_property_buffer(truncated).unwrap();
    assert!(matches!(
        &addr,
        TdhSocketAddress::Other { family: AddressFamily::Inet, raw } if raw.as_slice() == truncated
    ));
    assert_eq!(addr.ip(), None);
    assert_eq!(addr.port(), None);
}

#[test]
fn buffer_without_family_is_rejected() {
    assert!(TdhSocketAddress::from_property_buffer(&[0]).is_err());
}

#[test]
fn families_round_trip() {
    for raw in 0..=64u16 {
        assert_eq!(AddressFamily::from_u16(raw).as_u16(), raw);
    }
}

#[test]
fn families_have_a_symbol() {
    assert_eq!(AddressFamily::Unspecified.to_text(), "AF_UNSPEC");
    assert_eq!(AddressFamily::Inet.to_text(), "AF_INET");
    assert_eq!(AddressFamily::Inet6.to_text(), "AF_INET6");
    assert_eq!(AddressFamily::Other(34).to_text(), "AF_34");
}

#[test]
fn other_families_are_shown_by_their_size() {
    let addr = TdhSocketAddress::from_property_buffer(&[34, 0, 1, 2, 3]).unwrap();
    assert_eq!(addr.other_text().as_deref(), Some("AF_34 (5 bytes)"));
    let truncated = TdhSocketAddress::from_property_buffer(&[2, 0, 0, 80]).unwrap();
    assert_eq!(truncated.other_text().as_deref(), Some("AF_INET (4 bytes)"));
    let mut v4 = [0u8; 16];
    v4[0] = 2;
    assert_eq!(TdhSocketAddress::from_property_buffer(&v4).unwrap().other_text(), None);
}
