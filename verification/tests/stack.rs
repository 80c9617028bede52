use ya_relay_stack::ya_smoltcp::wire;
use ya_net_gateway::addr::{
    ConnectionMeta, IcmpBinding, IpAddress, IpEndpoint, Protocol, SocketAddr, SocketDesc,
    SocketEndpoint,
};
use ya_net_gateway::error::Error;
use ya_net_gateway::network::stack::{
    connect_stack, create_network, IpCidr, NetworkConfig, StackEvent, StackStep,
    VirtualNetworkConfig,
};

fn v4(last: u32, port: u16) -> IpEndpoint {
    IpEndpoint { addr: IpAddress::Ipv4(0x0900_0d00 + last), port }
}

fn desc(protocol: Protocol) -> SocketDesc {
    SocketDesc {
        protocol,
        local: SocketEndpoint::Ip(v4(1, 5)),
        remote: SocketEndpoint::Ip(v4(2, 1)),
    }
}

fn start(desc: SocketDesc) -> StackStep<u8> {
    connect_stack(desc, StackEvent::Start)
}

#[test]
fn tcp_is_connected_by_the_stack() {
    match start(desc(Protocol::Tcp)) {
        StackStep::Connect { remote, timeout_ms } => {
            assert_eq!((remote, timeout_ms), (v4(2, 1), 2000))
        }
        _ => panic!("the stack connects"),
    }
}

#[test]
fn tcp_needs_an_ip_remote() {
    let other = SocketDesc { remote: SocketEndpoint::Other, ..desc(Protocol::Tcp) };
    match start(other) {
        StackStep::Fail(Error::Stack(reason)) => assert_eq!(reason, "Invalid endpoint: Other"),
        _ => panic!("the remote end is no IP endpoint"),
    }
}

#[test]
fn bound_socket_is_reused() {
    match start(desc(Protocol::Udp)) {
        StackStep::Find { protocol, local } => {
            assert_eq!((protocol, local), (Protocol::Udp, SocketEndpoint::Ip(v4(1, 5))))
        }
        _ => panic!("a bound socket is looked for"),
    }
    match connect_stack(desc(Protocol::Udp), StackEvent::Found(Some(9u8))) {
        StackStep::Open { handle, meta } => {
            assert_eq!(handle, 9);
            let expected =
                ConnectionMeta { protocol: Protocol::Udp, local: v4(1, 5), remote: v4(2, 1) };
            assert_eq!(meta, expected);
        }
        _ => panic!("the connection is open"),
    }
}

#[test]
fn socket_is_bound_where_there_is_none() {
    match connect_stack::<u8>(desc(Protocol::Udp), StackEvent::Found(None)) {
        StackStep::Bind { protocol, local } => {
            assert_eq!((protocol, local), (Protocol::Udp, SocketEndpoint::Ip(v4(1, 5))))
        }
        _ => panic!("a socket is bound"),
    }
    match connect_stack(desc(Protocol::Udp), StackEvent::Bound(Ok(9u8))) {
        StackStep::Open { handle: 9, .. } => {}
        _ => panic!("the connection is open"),
    }
    let refused = Err(Error::Stack("Expected an IP endpoint".to_string()));
    match connect_stack::<u8>(desc(Protocol::Udp), StackEvent::Bound(refused)) {
        StackStep::Fail(Error::Stack(reason)) => assert_eq!(reason, "Expected an IP endpoint"),
        _ => panic!("the socket could not be bound"),
    }
}

#[test]
fn open_connection_has_ip_endpoints() {
    let ident = SocketEndpoint::Icmp(IcmpBinding::Ident(3));
    let local = SocketDesc { local: ident, ..desc(Protocol::Icmp) };
    match connect_stack(local, StackEvent::Found(Some(9u8))) {
        StackStep::Fail(Error::Stack(reason)) => {
            assert_eq!(reason, "Invalid endpoint: Icmp(Ident(3))")
        }
        _ => panic!("the local end is no IP endpoint"),
    }
    let both = SocketDesc { remote: SocketEndpoint::Other, ..local };
    match ConnectionMeta::try_from(both) {
        Err(Error::Stack(reason)) => assert_eq!(reason, "Invalid endpoint: Icmp(Ident(3))"),
        _ => panic!("the local end comes first"),
    }
    let remote = SocketDesc { remote: SocketEndpoint::Other, ..desc(Protocol::Udp) };
    match ConnectionMeta::try_from(remote) {
        Err(Error::Stack(reason)) => assert_eq!(reason, "Invalid endpoint: Other"),
        _ => panic!("the remote end is no IP endpoint"),
    }
}

#[test]
fn plan_follows_the_configuration() {
    let conf = VirtualNetworkConfig {
        mtu: 1280,
        hw_addr: [1, 2, 3, 4, 5, 6],
        ip4_addr: 7,
        ip6_addr: 8,
        capture_ingress: false,
    };
    let plan = create_network(&conf);
    assert_eq!(plan.name, "proxy");
    assert_eq!(plan.config.max_transmission_unit, 1280);
    assert_eq!(plan.config.buffer_size_multiplier, 32);
    assert_eq!(plan.config.buffer_size(), Some(40960));
    let config = NetworkConfig { max_transmission_unit: usize::MAX, buffer_size_multiplier: 2 };
    assert_eq!(config.buffer_size(), None);
    assert_eq!(plan.hw_addr, [1, 2, 3, 4, 5, 6]);
    let addresses = vec![
        IpCidr { addr: IpAddress::Ipv4(7), prefix_len: 0 },
        IpCidr { addr: IpAddress::Ipv6(8), prefix_len: 0 },
    ];
    assert_eq!(plan.addresses, addresses);
}

#[test]
fn protocols_are_found_by_number() {
    for number in 0..=255u8 {
        match Protocol::from_number(number) {
            Some(protocol) => assert_eq!(protocol.to_number(), number),
            None => assert!(ya_relay_stack::Protocol::try_from(number).is_err()),
        }
    }
    assert_eq!(Protocol::from_number(6), Some(Protocol::Tcp));
    assert_eq!(Protocol::Tcp.to_number(), ya_relay_stack::Protocol::Tcp as u8);
    assert_eq!(Protocol::Unassigned.to_number(), ya_relay_stack::Protocol::None as u8);
    assert_eq!(Protocol::from_number(145), None);
}

#[test]
fn description_is_shown_as_the_stack_shows_it() {
    let local = wire::IpEndpoint::new(wire::IpAddress::v4(9, 0, 13, 1), 5);
    let remote = wire::IpEndpoint::new(wire::IpAddress::v4(9, 0, 13, 2), 1);
    let stack = ya_relay_stack::SocketDesc::new(ya_relay_stack::Protocol::Tcp, local, remote);
    assert_eq!(desc(Protocol::Tcp).to_text(), format!("{:?}", stack));

    let v6 = IpEndpoint { addr: IpAddress::Ipv6(0xffff_0900_0d01), port: 5 };
    let other = SocketDesc {
        protocol: Protocol::Ipv6Icmp,
        local: SocketEndpoint::Icmp(IcmpBinding::Udp(v6)),
        remote: SocketEndpoint::Icmp(IcmpBinding::Unspecified),
    };
    let local = wire::IpEndpoint::new(wire::IpAddress::v6(0, 0, 0, 0, 0, 0xffff, 0x0900, 0x0d01), 5);
    let stack = ya_relay_stack::SocketDesc {
        protocol: ya_relay_stack::Protocol::Ipv6Icmp,
        local: ya_relay_stack::ya_smoltcp::socket::IcmpEndpoint::Udp(local).into(),
        remote: ya_relay_stack::ya_smoltcp::socket::IcmpEndpoint::Unspecified.into(),
    };
    assert_eq!(other.to_text(), format!("{:?}", stack));
}

#[test]
fn socket_addresses_become_endpoints() {
    let addr = SocketAddr::V4 { ip4: 0x0900_0d01, port: 5 };
    assert_eq!(addr.to_endpoint(), SocketEndpoint::Ip(v4(1, 5)));
    let addr = SocketAddr::V6 { ip6: 1, port: 5, flowinfo: 2, scope_id: 3 };
    let expected = IpEndpoint { addr: IpAddress::Ipv6(1), port: 5 };
    assert_eq!(addr.to_endpoint(), SocketEndpoint::Ip(expected));
    assert!(matches!(addr.to_endpoint().ip_endpoint(), Ok(e) if e == expected));
}

#[test]
fn errors_are_shown() {
    assert_eq!(Error::Stack("Forbidden".to_string()).to_string(), "Network error: Forbidden");
    assert_eq!(Error::Network("gone".to_string()).to_string(), "gone");
    assert_eq!(Error::Network("gone".to_string()).clone().to_string(), "gone");
}
