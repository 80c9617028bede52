use std::rc::Rc;

use ya_net_gateway::addr::{IpAddress, IpEndpoint, Protocol, SocketDesc, SocketEndpoint};
use ya_net_gateway::error::Error;
use ya_net_gateway::network::channel::{ready_outcome, Channel, ConnectionChannels};
use ya_net_gateway::network::net::{
    waited, Connect, Network, Register, RegisterReply, Unregister,
};
use ya_net_gateway::network::stack::VirtualNetworkConfig;
use ya_net_gateway::network::virt::{
    Connection, ConnectionState, EstablishedConnection, IngressAction, IngressEvent, NewChannel,
    OpenChannel, PendingConnection, RouteEvent, RouteStep, VirtualNetwork,
};

type Net = VirtualNetwork<&'static str, &'static str, u32, u64>;

fn ip(last: u32, port: u16) -> SocketEndpoint {
    SocketEndpoint::Ip(IpEndpoint { addr: IpAddress::Ipv4(0x0900_0d00 + last), port })
}

fn desc(port: u16) -> SocketDesc {
    SocketDesc { protocol: Protocol::Tcp, local: ip(1, port), remote: ip(2, 1) }
}

fn fresh(channels: u32) -> NewChannel<&'static str, &'static str, u32> {
    NewChannel { channels, ready_tx: "tx", ready: "rx" }
}

fn failure(message: &str) -> Error {
    Error::Network(message.to_string())
}

#[test]
fn channel_is_registered_once() {
    let mut net = Net::new();
    assert!(matches!(net.open_channel(desc(5), fresh(7)), OpenChannel::Created(7)));
    assert!(matches!(net.open_channel(desc(5), fresh(8)), OpenChannel::Wait("rx")));
    assert!(matches!(net.open_channel(desc(6), fresh(9)), OpenChannel::Created(9)));
}

#[test]
fn pending_connection_has_no_route() {
    let mut net = Net::new();
    net.open_channel(desc(5), fresh(7));
    assert_eq!(net.get_connection(&desc(5)), None);
    let packet = IngressEvent::Packet { desc: desc(5), payload: vec![1, 2] };
    match net.route_ingress(packet) {
        IngressAction::NoConnection { desc: unknown } => assert_eq!(unknown, desc(5)),
        _ => panic!("a pending connection has no route"),
    }
}

#[test]
fn success_establishes_and_routes_packets() {
    let mut net = Net::new();
    net.open_channel(desc(5), fresh(7));
    let attempt = net.connect(desc(5));
    assert!(attempt.found());
    let done = net.finish_connect(attempt, Ok(40));
    assert!(done.result.is_ok());
    assert!(done.notify.is_none());
    let (established, channels) = done.send.unwrap();
    assert_eq!((established.vconn, channels), (40, 7));

    assert_eq!(net.get_connection(&desc(5)), Some(&7));
    assert!(matches!(net.open_channel(desc(5), fresh(8)), OpenChannel::Ready(7)));
    let packet = IngressEvent::Packet { desc: desc(5), payload: vec![1, 2] };
    match net.route_ingress(packet) {
        IngressAction::Deliver { channels, payload } => {
            assert_eq!((*channels, payload), (7, vec![1, 2]))
        }
        _ => panic!("the packet has a route"),
    }
    let packet = IngressEvent::Packet { desc: desc(6), payload: vec![1] };
    assert!(matches!(net.route_ingress(packet), IngressAction::NoConnection { .. }));
}

#[test]
fn other_reports_of_the_stack_are_ignored() {
    let mut net = Net::new();
    net.open_channel(desc(5), fresh(7));
    let attempt = net.connect(desc(5));
    net.finish_connect(attempt, Ok(40));
    let inbound = IngressEvent::InboundConnection { desc: desc(5) };
    assert!(matches!(net.route_ingress(inbound), IngressAction::Ignore));
    let gone = IngressEvent::Disconnected { desc: desc(5) };
    assert!(matches!(net.route_ingress(gone), IngressAction::Ignore));
    assert_eq!(net.get_connection(&desc(5)), Some(&7));
}

#[test]
fn failure_unregisters_and_tells_who_waits() {
    let mut net = Net::new();
    net.open_channel(desc(5), fresh(7));
    net.open_channel(desc(6), fresh(9));
    let attempt = net.connect(desc(5));
    let done = net.finish_connect(attempt, Err(Error::Stack("Connection timed out".to_string())));
    match done.result {
        Err(Error::Stack(reason)) => assert_eq!(reason, "Connection timed out"),
        _ => panic!("the error of the stack is the result"),
    }
    assert!(done.send.is_none());
    match done.notify {
        Some(("tx", Err(Error::Network(message)))) => {
            assert_eq!(message, "Connection failed: Network error: Connection timed out")
        }
        _ => panic!("those who wait are told"),
    }
    assert!(matches!(net.open_channel(desc(5), fresh(8)), OpenChannel::Created(8)));
    assert!(matches!(net.open_channel(desc(6), fresh(8)), OpenChannel::Wait("rx")));
}

#[test]
fn attempt_without_connection_fails() {
    let mut net = Net::new();
    let attempt = net.connect(desc(5));
    assert!(!attempt.found());
    // registered while the attempt is under way: the failure takes it along
    net.open_channel(desc(5), fresh(7));
    let done = net.finish_connect(attempt, Ok(40));
    let expected = format!("Connection unexpectedly removed: {}", desc(5).to_text());
    match done.result {
        Err(Error::Network(message)) => assert_eq!(message, expected),
        _ => panic!("there was no connection"),
    }
    match done.notify {
        Some((_, Err(Error::Network(message)))) => {
            assert_eq!(message, format!("Connection failed: {}", expected))
        }
        _ => panic!("those who wait are told"),
    }
    assert!(matches!(net.open_channel(desc(5), fresh(8)), OpenChannel::Created(8)));
}

#[test]
fn first_success_stays() {
    let mut net = Net::new();
    net.open_channel(desc(5), fresh(7));
    let first = net.connect(desc(5));
    let second = net.connect(desc(5));
    net.finish_connect(first, Ok(40));
    let done = net.finish_connect(second, Ok(41));
    let (established, channels) = done.send.unwrap();
    assert_eq!((established.vconn, channels), (40, 7));
}

#[test]
fn attempt_keeps_a_connection_that_was_removed() {
    let mut net = Net::new();
    net.open_channel(desc(5), fresh(7));
    let first = net.connect(desc(5));
    let second = net.connect(desc(5));
    net.finish_connect(first, Err(failure("refused")));
    assert!(matches!(net.open_channel(desc(5), fresh(8)), OpenChannel::Created(8)));
    // the second attempt still has the connection that it found
    let done = net.finish_connect(second, Ok(41));
    let (established, channels) = done.send.unwrap();
    assert_eq!((established.vconn, channels), (41, 7));
    assert!(matches!(net.open_channel(desc(5), fresh(9)), OpenChannel::Wait("rx")));
}

#[test]
fn late_failure_removes_an_established_connection() {
    let mut net = Net::new();
    net.open_channel(desc(5), fresh(7));
    let first = net.connect(desc(5));
    let second = net.connect(desc(5));
    net.finish_connect(first, Ok(40));
    let done = net.finish_connect(second, Err(failure("refused")));
    assert!(done.notify.is_none());
    assert_eq!(net.get_connection(&desc(5)), None);
}

#[test]
fn many_connections_come_and_go() {
    let mut net = Net::new();
    for round in 0..3u32 {
        for port in 1..20u16 {
            let channels = round * 100 + port as u32;
            assert!(matches!(net.open_channel(desc(port), fresh(channels)), OpenChannel::Created(_)));
        }
        for port in 1..20u16 {
            let attempt = net.connect(desc(port));
            net.finish_connect(attempt, Ok(port as u64));
            assert_eq!(net.get_connection(&desc(port)), Some(&(round * 100 + port as u32)));
        }
        for port in 1..20u16 {
            let attempt = net.connect(desc(port));
            net.finish_connect(attempt, Err(failure("reset")));
            assert_eq!(net.get_connection(&desc(port)), None);
        }
    }
}

#[test]
fn connection_state_moves_once() {
    let mut conn: Connection<u8, u8, u32, u64> = Connection {
        state: ConnectionState::Pending(PendingConnection { ready_tx: 1, ready: 2 }, 7),
    };
    assert_eq!(conn.ready_tx(), Some(1));
    assert_eq!(conn.channels(), 7);
    conn.establish(40);
    assert_eq!(conn.ready_tx(), None);
    assert_eq!(conn.channels(), 7);
    conn.establish(41);
    match conn.state {
        ConnectionState::Established(EstablishedConnection { vconn }, 7) => assert_eq!(vconn, 40),
        _ => panic!("the connection is established"),
    }
}

#[test]
fn messages_drive_the_network() {
    let conf = VirtualNetworkConfig {
        mtu: 1500,
        hw_addr: [0xb0, 1, 1, 1, 1, 1],
        ip4_addr: 1,
        ip6_addr: 2,
        capture_ingress: false,
    };
    let (mut net, channels, to_route) =
        Network::<u8, &'static str, u32, u64>::spawn(&conf, "ingress", "egress", "receive");
    assert_eq!(channels.ingress, None);
    assert_eq!((channels.egress, channels.receive), ("egress", "receive"));
    assert_eq!(to_route, Some("ingress"));
    let fresh = |channels| NewChannel { channels, ready_tx: 1u8, ready: "rx" };
    match net.register(Register { desc: desc(5) }, fresh(7)) {
        RegisterReply::Now { result: Ok(7), pending: false } => {}
        _ => panic!("the connection is new"),
    }
    match net.register(Register { desc: desc(5) }, fresh(8)) {
        RegisterReply::Later("rx") => {}
        _ => panic!("the connection is pending"),
    }
    let attempt = net.connect(Connect { desc: desc(5) });
    assert!(net.finish_connect(attempt, Ok(40)).result.is_ok());
    match net.register(Register { desc: desc(5) }, fresh(8)) {
        RegisterReply::Now { result: Ok(7), pending: true } => {}
        _ => panic!("the connection is established"),
    }
    assert_eq!(net.vnet().get_connection(&desc(5)), Some(&7));
    assert_eq!(
        net.bind(Protocol::Udp, IpAddress::Ipv4(9), 53),
        (Protocol::Udp, SocketEndpoint::Ip(IpEndpoint { addr: IpAddress::Ipv4(9), port: 53 }))
    );
    assert!(matches!(waited::<u32>(Ok(7)), (Ok(7), true)));
}

#[test]
fn captured_ingress_goes_to_the_caller() {
    let conf = VirtualNetworkConfig {
        mtu: 1500,
        hw_addr: [0xb0, 1, 1, 1, 1, 1],
        ip4_addr: 1,
        ip6_addr: 2,
        capture_ingress: true,
    };
    let (_, channels, to_route) = Net::spawn(&conf, 1, 2, 3);
    assert_eq!((channels.ingress, channels.egress, channels.receive), (Some(1), 2, 3));
    assert_eq!(to_route, None);
    let packet = IngressEvent::Packet { desc: desc(5), payload: vec![4] };
    assert_eq!(packet.captured(), Some(vec![4]));
    assert_eq!(IngressEvent::Disconnected { desc: desc(5) }.captured(), None);
    assert_eq!(IngressEvent::InboundConnection { desc: desc(5) }.captured(), None);
}

#[test]
fn receiver_is_taken_once() {
    let mut channel = Channel::new("tx", "rx");
    assert_eq!(channel.sender(), "tx");
    assert_eq!(channel.receiver(), Some("rx"));
    assert_eq!(channel.receiver(), None);
    assert_eq!(channel.sender(), "tx");
}

#[test]
fn waiting_ends_with_what_was_told() {
    assert!(matches!(ready_outcome(Some(Ok(7))), Ok(7)));
    match ready_outcome::<u32>(Some(Err(failure("refused")))) {
        Err(Error::Network(message)) => assert_eq!(message, "refused"),
        _ => panic!("the error is passed on"),
    }
    match ready_outcome::<u32>(None) {
        Err(Error::Network(message)) => assert_eq!(message, "Failed to finalize connection"),
        _ => panic!("nobody is left to tell"),
    }
}

#[test]
fn registration_can_overwrite_an_entry() {
    let mut net = Net::new();
    net.open_channel(desc(5), fresh(7));
    net.open_channel(desc(6), fresh(9));
    assert_eq!(net.replace(desc(5), fresh(8)), 8);
    let attempt = net.connect(desc(5));
    net.finish_connect(attempt, Ok(40));
    assert_eq!(net.get_connection(&desc(5)), Some(&8));
    assert_eq!(net.replace(desc(5), fresh(10)), 10);
    assert_eq!(net.get_connection(&desc(5)), None);
    assert!(matches!(net.open_channel(desc(5), fresh(11)), OpenChannel::Wait("rx")));
    assert!(matches!(net.open_channel(desc(6), fresh(11)), OpenChannel::Wait("rx")));
    assert_eq!(net.replace(desc(7), fresh(12)), 12);
}

#[test]
fn attempt_on_an_overwritten_entry_leaves_the_new_one_pending() {
    let mut net = Net::new();
    net.open_channel(desc(5), fresh(7));
    let attempt = net.connect(desc(5));
    net.replace(desc(5), fresh(8));
    let done = net.finish_connect(attempt, Ok(40));
    assert!(matches!(done.send, Some((_, 7))));
    assert!(matches!(net.open_channel(desc(5), fresh(9)), OpenChannel::Wait("rx")));
}

#[test]
fn network_closes_connections() {
    let mut net = Net::new();
    assert!(net.close_channel(desc(5)).is_ok());
    net.open_channel(desc(5), fresh(7));
    net.open_channel(desc(6), fresh(9));
    let attempt = net.connect(desc(5));
    net.finish_connect(attempt, Ok(40));
    assert!(net.close_channel(desc(5)).is_ok());
    assert_eq!(net.get_connection(&desc(5)), None);
    assert!(matches!(net.open_channel(desc(6), fresh(8)), OpenChannel::Wait("rx")));
}

#[test]
fn messages_overwrite_and_close() {
    let conf = VirtualNetworkConfig {
        mtu: 1500,
        hw_addr: [1, 2, 3, 4, 5, 6],
        ip4_addr: 1,
        ip6_addr: 1,
        capture_ingress: true,
    };
    let (mut net, _, _) =
        Network::<&'static str, &'static str, u32, u64>::spawn(&conf, 1u8, 2u8, 3u8);
    net.register(Register { desc: desc(5) }, fresh(7));
    assert_eq!(net.replace(Register { desc: desc(5) }, fresh(8)), 8);
    let attempt = net.connect(Connect { desc: desc(5) });
    net.finish_connect(attempt, Ok(40));
    assert_eq!(net.vnet().get_connection(&desc(5)), Some(&8));
    assert!(net.unregister(Unregister { desc: desc(5) }).is_ok());
    let reply = net.register(Register { desc: desc(5) }, fresh(9));
    assert!(matches!(reply, RegisterReply::Now { result: Ok(9), pending: false }));
}

#[test]
fn nobody_waits_in_vain() {
    for outcome in [Ok(40), Err(failure("refused"))] {
        let mut net = Net::new();
        net.open_channel(desc(5), fresh(7));
        assert!(matches!(net.open_channel(desc(5), fresh(8)), OpenChannel::Wait("rx")));
        let opened = outcome.is_ok();
        let attempt = net.connect(desc(5));
        let done = net.finish_connect(attempt, outcome);
        match done.notify {
            // the pending part is gone, and so is whoever would tell
            None => assert!(opened && ready_outcome::<u32>(None).is_err()),
            Some((tx, told)) => {
                assert!(!opened && tx == "tx");
                let message = ready_outcome(Some(told)).map_err(|e| e.to_string());
                assert_eq!(message, Err("Connection failed: refused".to_string()));
            }
        }
        let again = net.open_channel(desc(5), fresh(9));
        assert!(!matches!(again, OpenChannel::Wait(_)));
    }
}

#[test]
fn states_are_cloned_part_by_part() {
    let state: ConnectionState<u8, u16, u32, u64> =
        ConnectionState::Pending(PendingConnection { ready_tx: 1, ready: 2 }, 3);
    match state.clone() {
        ConnectionState::Pending(pending, channels) => {
            assert_eq!((pending.ready_tx, pending.ready, channels), (1, 2, 3))
        }
        _ => panic!("a clone of a pending state is pending"),
    }
    let state: ConnectionState<u8, u16, u32, u64> =
        ConnectionState::Established(EstablishedConnection { vconn: 4 }, 3);
    match state.clone() {
        ConnectionState::Established(established, channels) => {
            assert_eq!((established.vconn, channels), (4, 3))
        }
        _ => panic!("a clone of an established state is established"),
    }
    let state: ConnectionState<u8, u16, u32, u64> = ConnectionState::Poisoned;
    assert!(matches!(state.clone(), ConnectionState::Poisoned));
}

#[test]
fn registration_goes_by_its_flag() {
    let conf = VirtualNetworkConfig {
        mtu: 1500,
        hw_addr: [1, 2, 3, 4, 5, 6],
        ip4_addr: 1,
        ip6_addr: 1,
        capture_ingress: true,
    };
    let (mut net, _, _) =
        Network::<&'static str, &'static str, u32, u64>::spawn(&conf, 1u8, 2u8, 3u8);
    let register = Register { desc: desc(5) };
    let reply = net.register_as(register, false, fresh(7));
    assert!(matches!(reply, RegisterReply::Now { result: Ok(7), pending: false }));
    assert!(matches!(net.register_as(register, false, fresh(8)), RegisterReply::Later("rx")));
    let reply = net.register_as(register, true, fresh(9));
    assert!(matches!(reply, RegisterReply::Now { result: Ok(9), pending: false }));
    let attempt = net.connect(Connect { desc: desc(5) });
    net.finish_connect(attempt, Ok(40));
    let reply = net.register_as(register, false, fresh(10));
    assert!(matches!(reply, RegisterReply::Now { result: Ok(9), pending: true }));
    let reply = net.register_as(register, true, fresh(11));
    assert!(matches!(reply, RegisterReply::Now { result: Ok(11), pending: false }));
    let attempt = net.connect(Connect { desc: desc(5) });
    net.abandon(attempt);
    assert!(matches!(net.register_as(register, false, fresh(8)), RegisterReply::Later("rx")));
}

#[test]
fn attempt_can_be_given_up() {
    let tx = Rc::new(());
    let fresh = || NewChannel { channels: 7u32, ready_tx: tx.clone(), ready: 1u8 };
    let mut net = VirtualNetwork::<Rc<()>, u8, u32, u64>::new();
    net.open_channel(desc(5), fresh());
    let attempt = net.connect(desc(5));
    net.abandon(attempt);
    assert_eq!(Rc::strong_count(&tx), 2);
    let attempt = net.connect(desc(5));
    assert!(net.close_channel(desc(5)).is_ok());
    assert_eq!(Rc::strong_count(&tx), 2);
    net.abandon(attempt);
    assert_eq!(Rc::strong_count(&tx), 1);
}

#[test]
fn routing_outlasts_a_failed_delivery() {
    let mut net = Net::new();
    net.open_channel(desc(5), fresh(7));
    let attempt = net.connect(desc(5));
    net.finish_connect(attempt, Ok(40));
    let packet = |port: u16| {
        let event = IngressEvent::Packet { desc: desc(port), payload: vec![1, 2] };
        RouteEvent::Received(Some(event))
    };
    match net.handle_stack_ingress(packet(5)) {
        RouteStep::Deliver { channels, payload } => {
            assert_eq!((*channels, payload), (7, vec![1, 2]))
        }
        _ => panic!("the packet has a route"),
    }
    match net.handle_stack_ingress(packet(6)) {
        RouteStep::ReportAndReceive { desc: unknown } => assert_eq!(unknown, desc(6)),
        _ => panic!("the packet has no route"),
    }
    let gone = RouteEvent::Received(Some(IngressEvent::Disconnected { desc: desc(5) }));
    assert!(matches!(net.handle_stack_ingress(gone), RouteStep::Receive));
    assert!(matches!(net.handle_stack_ingress(RouteEvent::Delivered(true)), RouteStep::Receive));
    assert!(matches!(net.handle_stack_ingress(RouteEvent::Delivered(false)), RouteStep::Receive));
    assert!(matches!(net.handle_stack_ingress(RouteEvent::Received(None)), RouteStep::Stop));
}

#[test]
fn channels_of_a_connection_keep_their_sides() {
    let mut channels = ConnectionChannels::new((1u8, 2u16), (3u8, 4u16));
    assert_eq!(channels.ingress_sender(), 3);
    assert_eq!(channels.send_receiver(), Some(2));
    assert_eq!(channels.send_receiver(), None);
    assert_eq!(channels.ends(), (1, Some(4)));
    assert_eq!(channels.ends(), (1, None));
}
