use edge_nal_embassy::{
    to_emb_addr, to_emb_bind_socket, to_emb_socket, to_net_socket, Features, IpAddr, IpAddress,
    IpEndpoint, IpListenEndpoint, SocketAddr,
};

const NONE: Features = Features { proto_ipv4: false, proto_ipv6: false, multicast: false };
const V4: Features = Features { proto_ipv4: true, proto_ipv6: false, multicast: false };
const V6: Features = Features { proto_ipv4: false, proto_ipv6: true, multicast: false };
const BOTH: Features = Features { proto_ipv4: true, proto_ipv6: true, multicast: false };

fn six(last: u8) -> [u8; 16] {
    let mut octets = [0u8; 16];
    octets[15] = last;
    octets
}

#[test]
fn unspecified_addresses() {
    assert!(IpAddr::V4([0, 0, 0, 0]).is_unspecified());
    assert!(IpAddr::V6([0; 16]).is_unspecified());
    assert!(!IpAddr::V4([0, 0, 0, 1]).is_unspecified());
    assert!(!IpAddr::V4([1, 0, 0, 0]).is_unspecified());
    assert!(!IpAddr::V6(six(1)).is_unspecified());
    let mut first = [0u8; 16];
    first[0] = 0x20;
    assert!(!IpAddr::V6(first).is_unspecified());
}

#[test]
fn address_goes_to_the_engine_where_its_family_is_built_in() {
    let a4 = IpAddr::V4([172, 16, 0, 9]);
    let a6 = IpAddr::V6(six(9));
    assert_eq!(to_emb_addr(a4, V4), Some(IpAddress::Ipv4([172, 16, 0, 9])));
    assert_eq!(to_emb_addr(a4, BOTH), Some(IpAddress::Ipv4([172, 16, 0, 9])));
    assert_eq!(to_emb_addr(a4, V6), None);
    assert_eq!(to_emb_addr(a4, NONE), None);
    assert_eq!(to_emb_addr(a6, V6), Some(IpAddress::Ipv6(six(9))));
    assert_eq!(to_emb_addr(a6, BOTH), Some(IpAddress::Ipv6(six(9))));
    assert_eq!(to_emb_addr(a6, V4), None);
    assert_eq!(to_emb_addr(a6, NONE), None);
}

#[test]
fn socket_address_keeps_its_port() {
    let s = SocketAddr { ip: IpAddr::V4([1, 2, 3, 4]), port: 65535 };
    assert_eq!(
        to_emb_socket(s, V4),
        Some(IpEndpoint { addr: IpAddress::Ipv4([1, 2, 3, 4]), port: 65535 })
    );
    assert_eq!(to_emb_socket(s, V6), None);
    // Unlike for a bind, the unspecified address is an address like any other.
    let any = SocketAddr { ip: IpAddr::V6([0; 16]), port: 1 };
    assert_eq!(to_emb_socket(any, V4), None);
    assert_eq!(
        to_emb_socket(any, V6),
        Some(IpEndpoint { addr: IpAddress::Ipv6([0; 16]), port: 1 })
    );
}

#[test]
fn bind_address_unspecified_means_every_address() {
    let any4 = SocketAddr { ip: IpAddr::V4([0; 4]), port: 80 };
    let any6 = SocketAddr { ip: IpAddr::V6([0; 16]), port: 81 };
    for features in [V4, BOTH] {
        assert_eq!(
            to_emb_bind_socket(any4, features),
            Some(IpListenEndpoint { addr: None, port: 80 })
        );
    }
    for features in [V6, BOTH] {
        assert_eq!(
            to_emb_bind_socket(any6, features),
            Some(IpListenEndpoint { addr: None, port: 81 })
        );
    }
}

#[test]
fn bind_address_unspecified_needs_its_family_too() {
    let any4 = SocketAddr { ip: IpAddr::V4([0; 4]), port: 80 };
    let any6 = SocketAddr { ip: IpAddr::V6([0; 16]), port: 81 };
    assert_eq!(to_emb_bind_socket(any4, V6), None);
    assert_eq!(to_emb_bind_socket(any4, NONE), None);
    assert_eq!(to_emb_bind_socket(any6, V4), None);
    assert_eq!(to_emb_bind_socket(any6, NONE), None);
}

#[test]
fn bind_address_specified_needs_its_family() {
    let s4 = SocketAddr { ip: IpAddr::V4([192, 0, 2, 1]), port: 0 };
    let s6 = SocketAddr { ip: IpAddr::V6(six(1)), port: 443 };
    assert_eq!(
        to_emb_bind_socket(s4, V4),
        Some(IpListenEndpoint { addr: Some(IpAddress::Ipv4([192, 0, 2, 1])), port: 0 })
    );
    assert_eq!(to_emb_bind_socket(s4, V6), None);
    assert_eq!(
        to_emb_bind_socket(s6, BOTH),
        Some(IpListenEndpoint { addr: Some(IpAddress::Ipv6(six(1))), port: 443 })
    );
    assert_eq!(to_emb_bind_socket(s6, V4), None);
    assert_eq!(to_emb_bind_socket(s6, NONE), None);
}

#[test]
fn engine_endpoint_comes_back_as_socket_address() {
    let e4 = IpEndpoint { addr: IpAddress::Ipv4([9, 8, 7, 6]), port: 1234 };
    assert_eq!(to_net_socket(e4), SocketAddr { ip: IpAddr::V4([9, 8, 7, 6]), port: 1234 });
    let e6 = IpEndpoint { addr: IpAddress::Ipv6(six(3)), port: 0 };
    assert_eq!(to_net_socket(e6), SocketAddr { ip: IpAddr::V6(six(3)), port: 0 });
}

#[test]
fn address_round_trip() {
    let s = SocketAddr { ip: IpAddr::V6(six(200)), port: 5683 };
    assert_eq!(to_net_socket(to_emb_socket(s, BOTH).unwrap()), s);
    let s = SocketAddr { ip: IpAddr::V4([203, 0, 113, 77]), port: 5684 };
    assert_eq!(to_net_socket(to_emb_socket(s, BOTH).unwrap()), s);
}
