use ya_net_gateway::api::{ManagementApi, Request};
use ya_net_gateway::control::{
    control_network, forwarder, metrics, tcp_delete, tcp_post, ConnectionManager, StreamEvent,
    StreamStep,
};
use ya_net_gateway::model::{next_id, CreateProbe, CreateTcpUdp, Probe, TcpUdp, FIRST_ID};
use ya_net_gateway::text::{join, strip_newlines, to_decimal};

fn forwarding() -> CreateTcpUdp {
    CreateTcpUdp { listen: "0.0.0.0:80".to_string(), remote: "9.0.13.2:1".to_string() }
}

#[test]
fn forwardings_are_created() {
    let api = ManagementApi::new("client");
    assert_eq!(*api.get_client(), "client");
    match api.create_tcp(&forwarding()) {
        Request::Post { path, body } => assert_eq!((path.as_str(), body), ("tcp", forwarding())),
        _ => panic!("a forwarding is posted"),
    }
    match api.create_udp(&forwarding()) {
        Request::Post { path, body } => assert_eq!((path.as_str(), body), ("udp", forwarding())),
        _ => panic!("a forwarding is posted"),
    }
}

#[test]
fn forwardings_are_deleted() {
    let api = ManagementApi::new(());
    match api.delete_tcp(407) {
        Request::Delete { path } => assert_eq!(path, "tcp/407"),
        _ => panic!("a forwarding is deleted"),
    }
    match api.delete_udp(0) {
        Request::Delete { path } => assert_eq!(path, "udp/0"),
        _ => panic!("a forwarding is deleted"),
    }
    match api.delete_udp(u32::MAX) {
        Request::Delete { path } => assert_eq!(path, "udp/4294967295"),
        _ => panic!("a forwarding is deleted"),
    }
}

#[test]
fn ids_count_up_and_start_over() {
    let mut counter: u32 = 0;
    assert_eq!(next_id(&mut counter), 0);
    assert_eq!(next_id(&mut counter), 1);
    assert_eq!(counter, 2);
    counter = u32::MAX;
    assert_eq!(next_id(&mut counter), u32::MAX);
    assert_eq!(next_id(&mut counter), 0);
}

#[test]
fn model_is_compared_by_value() {
    let probe = CreateProbe { token: [1; 32], listen: "0.0.0.0:80".to_string() };
    assert_eq!(probe.clone(), probe);
    assert_eq!(forwarding().clone(), forwarding());
    assert_ne!(TcpUdp { id: 1 }, TcpUdp { id: 2 });
    assert_eq!(Probe { id: 1 }, Probe { id: 1 });
}

#[test]
fn control_interface_answers() {
    let mut manager = ConnectionManager::new();
    assert_eq!(tcp_delete(&manager), "Hello, world! 0");
    assert_eq!(tcp_post(&mut manager), "id 1");
    assert_eq!(tcp_post(&mut manager), "id 2");
    assert_eq!(manager.create(), 3);
    assert_eq!(manager.prev_id(), 3);
    assert_eq!(tcp_delete(&manager), "Hello, world! 3");
    assert_eq!(metrics(), "TODO_metrics{iface=\"1\"} 1\nTODO_metrics{iface=\"2\"} 2\n");
}

#[test]
fn control_interface_has_its_own_network() {
    let plan = control_network();
    assert_eq!(plan.name, "proxy");
    assert_eq!(plan.config.max_transmission_unit, 1280);
    assert_eq!(plan.config.buffer_size_multiplier, 32);
    assert_eq!(plan.hw_addr, [0xb0, 0xa5, 0xa5, 0xa5, 0xa5, 0xa5]);
    assert!(plan.addresses.is_empty());
}

#[test]
fn stream_is_read_to_its_end() {
    let ready = StreamEvent::<u8>::Ready { readable: true };
    assert!(matches!(forwarder(ready), StreamStep::Read));
    let not_ready = StreamEvent::<u8>::Ready { readable: false };
    assert!(matches!(forwarder(not_ready), StreamStep::AwaitReady));
    assert!(matches!(forwarder(StreamEvent::<u8>::Read(10)), StreamStep::Report));
    assert!(matches!(forwarder(StreamEvent::<u8>::Read(0)), StreamStep::Stop));
    assert!(matches!(forwarder(StreamEvent::<u8>::WouldBlock), StreamStep::AwaitReady));
    assert!(matches!(forwarder(StreamEvent::Failed(3u8)), StreamStep::Fail(3)));
}

#[test]
fn text_is_put_together() {
    assert_eq!(to_decimal(0), "0");
    assert_eq!(to_decimal(1090), "1090");
    assert_eq!(join("a", "b"), "ab");
    assert_eq!(strip_newlines("\na\n\nb\r\n"), "ab\r");
    assert_eq!(strip_newlines("ab\r"), "ab\r");
}

#[test]
fn client_goes_along_with_a_clone() {
    let api = ManagementApi::new("client".to_string());
    assert_eq!(api.clone().get_client(), "client");
}

#[test]
fn first_id_is_zero() {
    let mut counter = FIRST_ID;
    assert_eq!([next_id(&mut counter), next_id(&mut counter), next_id(&mut counter)], [0, 1, 2]);
}
