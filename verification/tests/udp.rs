use edge_nal_embassy::{
    Features, IpAddr, IpAddress, IpEndpoint, IpListenEndpoint, Membership, Pool, Signal,
    SocketAddr, Udp, UdpBuffers, UdpError, UdpSlot, UdpSocket,
};
use embassy_net::udp::{BindError, RecvError, SendError};
use embassy_net::MulticastError;
use embedded_io_async::ErrorKind;

const V4_ONLY: Features = Features { proto_ipv4: true, proto_ipv6: false, multicast: true };
const V6_ONLY: Features = Features { proto_ipv4: false, proto_ipv6: true, multicast: true };
const NO_MULTICAST: Features = Features { proto_ipv4: true, proto_ipv6: true, multicast: false };

type Meta = u32;

fn pool2() -> UdpBuffers<Meta, 2, 16, 24, 3> {
    Pool::new(1, UdpSlot::new(0))
}

#[test]
fn bind_takes_slots_in_order_until_none_is_left() {
    let mut pool = pool2();
    let udp = Udp::new(V4_ONLY);
    let local = SocketAddr { ip: IpAddr::V4([10, 0, 0, 5]), port: 5353 };
    let (a, endpoint) = udp.bind(&mut pool, local).unwrap();
    assert_eq!(a.buffer_token().index(), 0);
    assert_eq!(
        endpoint,
        IpListenEndpoint { addr: Some(IpAddress::Ipv4([10, 0, 0, 5])), port: 5353 }
    );
    let (b, _) = udp.bind(&mut pool, local).unwrap();
    assert_eq!(b.buffer_token().index(), 1);
    let err = udp.bind(&mut pool, local).unwrap_err();
    assert_eq!(err, UdpError::NoBuffers);
    assert_eq!(err.kind(), ErrorKind::OutOfMemory);
}

#[test]
fn bind_to_unsupported_family_takes_no_slot() {
    let mut pool = pool2();
    let udp = Udp::new(V4_ONLY);
    let mut octets = [0u8; 16];
    octets[0] = 0xfe;
    octets[1] = 0x80;
    octets[15] = 1;
    let local = SocketAddr { ip: IpAddr::V6(octets), port: 7 };
    let err = udp.bind(&mut pool, local).unwrap_err();
    assert_eq!(err, UdpError::UnsupportedProto);
    assert_eq!(err.kind(), ErrorKind::InvalidInput);
    // The unspecified address of the missing family is refused like any other.
    let any6 = SocketAddr { ip: IpAddr::V6([0; 16]), port: 7 };
    assert_eq!(udp.bind(&mut pool, any6).unwrap_err(), UdpError::UnsupportedProto);
    // Both slots are still to be had, the lower one first.
    let any4 = SocketAddr { ip: IpAddr::V4([0; 4]), port: 7 };
    let (a, endpoint) = udp.bind(&mut pool, any4).unwrap();
    assert_eq!(endpoint, IpListenEndpoint { addr: None, port: 7 });
    assert_eq!(a.buffer_token().index(), 0);
    let (b, _) = udp.bind(&mut pool, any4).unwrap();
    assert_eq!(b.buffer_token().index(), 1);
}

#[test]
fn bind_looks_at_the_address_before_the_pool() {
    let mut pool = pool2();
    let udp = Udp::new(V4_ONLY);
    let any4 = SocketAddr { ip: IpAddr::V4([0; 4]), port: 7 };
    let any6 = SocketAddr { ip: IpAddr::V6([0; 16]), port: 7 };
    let (a, _) = udp.bind(&mut pool, any4).unwrap();
    let (b, _) = udp.bind(&mut pool, any4).unwrap();
    // Every slot is taken: an address of the missing family is still invalid input.
    let err = udp.bind(&mut pool, any6).unwrap_err();
    assert_eq!(err, UdpError::UnsupportedProto);
    assert_eq!(err.kind(), ErrorKind::InvalidInput);
    assert_eq!(udp.bind(&mut pool, any4).unwrap_err(), UdpError::NoBuffers);
    assert!(pool.holds_slot(a.buffer_token()));
    assert!(pool.holds_slot(b.buffer_token()));
}

#[test]
fn udp_teardown_asks_for_close_then_releases() {
    let mut pool = pool2();
    let socket = UdpSocket::new(V4_ONLY, &mut pool).unwrap();
    let teardown = socket.teardown();
    assert_eq!(teardown.signal(), Some(Signal::Close));
    assert!(pool.holds_slot(teardown.buffer_token()));
    teardown.release(&mut pool);
    assert_eq!(UdpSocket::new(V4_ONLY, &mut pool).unwrap().buffer_token().index(), 0);
}

#[test]
fn packet_regions_have_the_pool_s_sizes() {
    let mut pool = pool2();
    let socket = UdpSocket::new(V4_ONLY, &mut pool).unwrap();
    let regions = pool.regions(socket.buffer_token());
    assert_eq!(regions.tx_buf.len(), 16);
    assert_eq!(regions.rx_buf.len(), 24);
    assert_eq!(regions.md_tx_buf.len(), 3);
    assert_eq!(regions.md_rx_buf.len(), 3);
    regions.tx_buf[15] = 1;
    regions.rx_buf[23] = 2;
    regions.md_tx_buf[2] = 3;
    regions.md_rx_buf[0] = 4;
    let slot = pool.slot(socket.buffer_token());
    assert_eq!(slot.tx_buf[15], 1);
    assert_eq!(slot.rx_buf[23], 2);
    assert_eq!(slot.md_tx_buf, [0, 0, 3]);
    assert_eq!(slot.md_rx_buf, [4, 0, 0]);
}

#[test]
fn send_gives_the_engine_s_endpoint() {
    let mut pool = pool2();
    let socket = UdpSocket::new(V4_ONLY, &mut pool).unwrap();
    let remote = SocketAddr { ip: IpAddr::V4([8, 8, 4, 4]), port: 53 };
    assert_eq!(
        socket.send(remote),
        Ok(IpEndpoint { addr: IpAddress::Ipv4([8, 8, 4, 4]), port: 53 })
    );
    let remote6 = SocketAddr { ip: IpAddr::V6([1; 16]), port: 53 };
    assert_eq!(socket.send(remote6), Err(UdpError::UnsupportedProto));
    let socket6 = UdpSocket::new(V6_ONLY, &mut pool).unwrap();
    assert_eq!(
        socket6.send(remote6),
        Ok(IpEndpoint { addr: IpAddress::Ipv6([1; 16]), port: 53 })
    );
    assert_eq!(socket6.send(remote), Err(UdpError::UnsupportedProto));
}

#[test]
fn udp_engine_answers_become_tagged_errors() {
    let mut pool = pool2();
    let mut socket = UdpSocket::new(V4_ONLY, &mut pool).unwrap();
    assert_eq!(socket.bound(Ok(())), Ok(()));
    assert_eq!(socket.bound(Err(BindError::NoRoute)), Err(UdpError::Bind(BindError::NoRoute)));
    assert_eq!(socket.sent(Ok(())), Ok(()));
    assert_eq!(
        socket.sent(Err(SendError::PacketTooLarge)),
        Err(UdpError::Send(SendError::PacketTooLarge))
    );
    let from = IpEndpoint { addr: IpAddress::Ipv4([1, 2, 3, 4]), port: 9000 };
    assert_eq!(
        socket.receive(Ok((100, from))),
        Ok((100, SocketAddr { ip: IpAddr::V4([1, 2, 3, 4]), port: 9000 }))
    );
    assert_eq!(
        socket.receive(Err(RecvError::Truncated)),
        Err(UdpError::Recv(RecvError::Truncated))
    );
    assert_eq!(socket.membership_changed(Ok(())), Ok(()));
    assert_eq!(
        socket.membership_changed(Err(MulticastError::GroupTableFull)),
        Err(UdpError::MulticastGroupTableFull)
    );
    assert_eq!(
        socket.membership_changed(Err(MulticastError::Unaddressable)),
        Err(UdpError::MulticastUnaddressable)
    );
    let (receive, send) = socket.split();
    assert_eq!(receive.buffer_token().index(), 0);
    assert_eq!(send.buffer_token().index(), 0);
}

#[test]
fn udp_errors_convert_from_engine_errors() {
    assert_eq!(UdpError::from(RecvError::Truncated), UdpError::Recv(RecvError::Truncated));
    assert_eq!(UdpError::from(SendError::NoRoute), UdpError::Send(SendError::NoRoute));
    assert_eq!(UdpError::from(BindError::InvalidState), UdpError::Bind(BindError::InvalidState));
    assert_eq!(
        UdpError::from(MulticastError::GroupTableFull),
        UdpError::MulticastGroupTableFull
    );
    assert_eq!(UdpError::from(MulticastError::Unaddressable), UdpError::MulticastUnaddressable);
}

#[test]
fn udp_error_kinds() {
    assert_eq!(UdpError::Recv(RecvError::Truncated).kind(), ErrorKind::Other);
    assert_eq!(UdpError::Send(SendError::SocketNotBound).kind(), ErrorKind::Other);
    assert_eq!(UdpError::Bind(BindError::NoRoute).kind(), ErrorKind::Other);
    assert_eq!(UdpError::MulticastGroupTableFull.kind(), ErrorKind::Other);
    assert_eq!(UdpError::MulticastUnaddressable.kind(), ErrorKind::Other);
    assert_eq!(UdpError::NoBuffers.kind(), ErrorKind::OutOfMemory);
    assert_eq!(UdpError::UnsupportedProto.kind(), ErrorKind::InvalidInput);
}

#[test]
fn multicast_membership_requests() {
    let mut pool = pool2();
    let socket = UdpSocket::new(V4_ONLY, &mut pool).unwrap();
    let group = [224, 0, 0, 251];
    assert_eq!(
        socket.join_v4(group, [0, 0, 0, 0]),
        Ok(Membership::Join(IpAddress::Ipv4(group)))
    );
    assert_eq!(
        socket.leave_v4(group, [0, 0, 0, 0]),
        Ok(Membership::Leave(IpAddress::Ipv4(group)))
    );
    let mut group6 = [0u8; 16];
    group6[0] = 0xff;
    group6[1] = 0x02;
    group6[15] = 0xfb;
    assert_eq!(socket.join_v6(group6, 0), Err(UdpError::UnsupportedProto));
    assert_eq!(socket.leave_v6(group6, 0), Err(UdpError::UnsupportedProto));

    let socket6 = UdpSocket::new(V6_ONLY, &mut pool).unwrap();
    assert_eq!(socket6.join_v6(group6, 2), Ok(Membership::Join(IpAddress::Ipv6(group6))));
    assert_eq!(socket6.leave_v6(group6, 2), Ok(Membership::Leave(IpAddress::Ipv6(group6))));
    assert_eq!(socket6.join_v4(group, [0, 0, 0, 0]), Err(UdpError::UnsupportedProto));
    assert_eq!(socket6.leave_v4(group, [0, 0, 0, 0]), Err(UdpError::UnsupportedProto));
}

#[test]
fn multicast_needs_an_engine_built_with_it() {
    let mut pool = pool2();
    let socket = UdpSocket::new(NO_MULTICAST, &mut pool).unwrap();
    assert_eq!(socket.join_v4([224, 0, 0, 1], [0; 4]), Err(UdpError::UnsupportedProto));
    assert_eq!(socket.leave_v4([224, 0, 0, 1], [0; 4]), Err(UdpError::UnsupportedProto));
    assert_eq!(socket.join_v6([0xff; 16], 0), Err(UdpError::UnsupportedProto));
    assert_eq!(socket.leave_v6([0xff; 16], 0), Err(UdpError::UnsupportedProto));
}

#[test]
fn udp_rings_of_a_live_socket_survive_other_sockets() {
    let mut pool = pool2();
    let a = UdpSocket::new(V4_ONLY, &mut pool).unwrap();
    {
        let regions = pool.regions(a.buffer_token());
        regions.md_rx_buf[2] = 11;
        regions.md_tx_buf[0] = 22;
        regions.tx_buf[0] = 33;
    }
    let b = UdpSocket::new(V4_ONLY, &mut pool).unwrap();
    assert!(UdpSocket::new(V4_ONLY, &mut pool).is_err());
    b.teardown().release(&mut pool);
    let b = UdpSocket::new(V4_ONLY, &mut pool).unwrap();
    pool.regions(b.buffer_token()).md_rx_buf[2] = 99;
    let slot = pool.slot(a.buffer_token());
    assert_eq!(slot.md_rx_buf, [0, 0, 11]);
    assert_eq!(slot.md_tx_buf, [22, 0, 0]);
    assert_eq!(slot.tx_buf[0], 33);
}
