use std::cell::RefCell;
use std::rc::Rc;

use ya_net_gateway::addr::{IpAddress, IpEndpoint, Protocol, SocketAddr, SocketDesc, SocketEndpoint};
use ya_net_gateway::error::Error;
use ya_net_gateway::gateway::{
    net_connect, net_register, net_unregister, proxy_config, service_config, service_line,
    service_routes, tcp_acceptor, tcp_forwarder, to_ipv6_mapped, AcceptStep, ForwarderEvent,
    ForwarderStep,
};
use ya_net_gateway::network::channel::ConnectionChannels;
use ya_net_gateway::network::net::{
    Connect, Network, Register, RegisterReply, Routes, Unregister,
};
use ya_net_gateway::network::virt::{EstablishedConnection, NewChannel};
use ya_net_gateway::probe::{probe, ProbeEvent, ProbeStep};
use ya_net_gateway::pump::{
    aux_forward, aux_reader_to_sink, handle_conn_send, handle_stack_receive, next_chunk,
    ChunkWriter, ForwardEvent, ForwardStep, ReaderEvent, ReaderStep, ReceiveStep, SendStep,
    WriterStep,
};

const LISTEN: SocketAddr = SocketAddr::V4 { ip4: 0, port: 12345 };
const CLIENT: SocketAddr = SocketAddr::V4 { ip4: 0x7f00_0001, port: 40000 };

fn endpoint(ip4: u32, port: u16) -> SocketEndpoint {
    SocketEndpoint::Ip(IpEndpoint { addr: IpAddress::Ipv4(ip4), port })
}

fn desc() -> SocketDesc {
    SocketDesc {
        protocol: Protocol::Tcp,
        local: endpoint(0x7f00_0001, 40000),
        remote: endpoint(0x0900_0d02, 1),
    }
}

fn text(result: Result<(), Error>) -> String {
    match result {
        Err(Error::Network(message)) => message,
        _ => panic!("an error of the gateway is expected"),
    }
}

#[test]
fn accepted_connection_is_forwarded_to_the_service() {
    let routes = service_routes(LISTEN);
    match tcp_acceptor::<u8>(&routes, LISTEN, Ok(CLIENT)) {
        AcceptStep::Forward(forwarded) => assert_eq!(forwarded, desc()),
        _ => panic!("there is a route"),
    }
}

#[test]
fn accepted_connection_without_route_is_dropped() {
    let routes = Routes::default();
    assert!(matches!(tcp_acceptor::<u8>(&routes, LISTEN, Ok(CLIENT)), AcceptStep::NoRoute));
    assert!(matches!(tcp_acceptor(&routes, LISTEN, Err(3u8)), AcceptStep::Stop(3)));
}

#[test]
fn routes_are_set_and_removed() {
    let to = SocketAddr::V4 { ip4: 1, port: 1 };
    let then_to = SocketAddr::V6 { ip6: 1, port: 1, flowinfo: 0, scope_id: 0 };
    let mut routes = Routes::default();
    assert_eq!(routes.get(LISTEN), None);
    routes.add(LISTEN, to);
    routes.add(CLIENT, to);
    assert_eq!(routes.get(LISTEN), Some(to));
    routes.add(LISTEN, then_to);
    assert_eq!(routes.get(LISTEN), Some(then_to));
    assert_eq!(routes.remove(LISTEN), Some(then_to));
    assert_eq!(routes.remove(LISTEN), None);
    assert_eq!(routes.get(LISTEN), None);
    assert_eq!(routes.get(CLIENT), Some(to));
}

type Event = ForwarderEvent<u8, u16, u32>;
type Step = ForwarderStep<u8, u16, u32>;

#[test]
fn forwarding_goes_step_by_step() {
    let step: Step = tcp_forwarder(desc(), ForwarderEvent::Start);
    assert!(matches!(step, ForwarderStep::Register { desc: d, overwrite: true } if d == desc()));
    let registered: Event = ForwarderEvent::Registered(Ok((7, false)));
    match tcp_forwarder(desc(), registered) {
        ForwarderStep::Connect(d, channels) => assert_eq!((d, channels), (desc(), 7)),
        _ => panic!("a registered connection is connected"),
    }
    let connected: Event = ForwarderEvent::Connected(7, Ok(()));
    assert!(matches!(tcp_forwarder(desc(), connected), ForwarderStep::TakeEnds(7)));
    let taken: Event = ForwarderEvent::Taken { sink: 8, ingress: Some(9) };
    assert!(matches!(tcp_forwarder(desc(), taken), ForwarderStep::Pump { sink: 8, ingress: 9 }));
    let done: Event = ForwarderEvent::ReaderDone;
    assert!(matches!(tcp_forwarder(desc(), done), ForwarderStep::Unregister(d) if d == desc()));
}

#[test]
fn existing_entries_are_overwritten_for_tcp() {
    let existing = || -> Event { ForwarderEvent::Registered(Ok((7, true))) };
    let step = tcp_forwarder(desc(), existing());
    assert!(matches!(step, ForwarderStep::Register { desc: d, overwrite: true } if d == desc()));
    let udp = SocketDesc { protocol: Protocol::Udp, ..desc() };
    assert!(matches!(tcp_forwarder(udp, existing()), ForwarderStep::Connect(d, 7) if d == udp));
    let step: Step = tcp_forwarder(udp, ForwarderEvent::Start);
    assert!(matches!(step, ForwarderStep::Register { desc: d, overwrite: false } if d == udp));
}

#[test]
fn forwarding_starts_on_an_overwritten_entry() {
    type Channels = Rc<RefCell<ConnectionChannels<u8, u16>>>;
    let channels = |n: u8| -> Channels {
        let (send, ingress) = ((n, 10 + u16::from(n)), (20 + n, 30 + u16::from(n)));
        Rc::new(RefCell::new(ConnectionChannels::new(send, ingress)))
    };
    let fresh = |n: u8| NewChannel { channels: channels(n), ready_tx: n, ready: n };
    let (mut net, _, _) =
        Network::<u8, u8, Channels, u64>::spawn(&proxy_config(), 1u8, 2u8, 3u8);

    let earlier = net.replace(Register { desc: desc() }, fresh(1));
    assert!(matches!(earlier.borrow_mut().ends(), (1, Some(31))));
    assert!(matches!(earlier.borrow_mut().ends(), (1, None)));

    let mut event = ForwarderEvent::Start;
    loop {
        event = match tcp_forwarder(desc(), event) {
            ForwarderStep::Register { desc, overwrite } => {
                let reply = match net.register_as(Register { desc }, overwrite, fresh(2)) {
                    RegisterReply::Now { result, pending } => (result, pending),
                    RegisterReply::Later(_) => panic!("there is nothing to wait for"),
                };
                ForwarderEvent::Registered(net_register(desc, Some(reply)))
            }
            ForwarderStep::Connect(desc, channels) => {
                let attempt = net.connect(Connect { desc });
                let done = net.finish_connect(attempt, Ok(40));
                ForwarderEvent::Connected(channels, net_connect(desc, Some(done.result)))
            }
            ForwarderStep::TakeEnds(channels) => {
                let (sink, ingress) = channels.borrow_mut().ends();
                ForwarderEvent::Taken { sink, ingress }
            }
            ForwarderStep::Pump { sink, ingress } => {
                assert_eq!((sink, ingress), (2, 32));
                ForwarderEvent::ReaderDone
            }
            ForwarderStep::Unregister(desc) => {
                assert!(net.vnet().get_connection(&desc).is_some());
                let reply = net.unregister(Unregister { desc });
                assert!(net_unregister(desc, Some(reply)).is_ok());
                assert!(net.vnet().get_connection(&desc).is_none());
                break;
            }
            ForwarderStep::Fail(error) => panic!("{}", error.to_string()),
        };
    }
}

#[test]
fn forwarding_fails_at_every_step() {
    let refused = || Error::Network("refused".to_string());
    let events: Vec<Event> = vec![
        ForwarderEvent::Registered(Err(refused())),
        ForwarderEvent::Connected(7, Err(refused())),
    ];
    for event in events {
        match tcp_forwarder(desc(), event) {
            ForwarderStep::Fail(error) => assert_eq!(error.to_string(), "refused"),
            _ => panic!("the error ends the forwarding"),
        }
    }
    let taken: Event = ForwarderEvent::Taken { sink: 8, ingress: None };
    match tcp_forwarder(desc(), taken) {
        ForwarderStep::Fail(error) => {
            assert_eq!(error.to_string(), "Ingress TCP channel already taken")
        }
        _ => panic!("the channel is taken"),
    }
}

#[test]
fn answers_of_the_network_are_read() {
    let shown = desc().to_text();
    let refused = || Error::Stack("refused".to_string());
    assert!(matches!(net_register(desc(), Some((Ok(7), true))), Ok((7, true))));
    assert_eq!(
        text(net_register::<u8>(desc(), Some((Err(refused()), false))).map(|_| ())),
        format!("Error adding connection {}: Network error: refused", shown)
    );
    assert_eq!(
        text(net_register::<u8>(desc(), None).map(|_| ())),
        format!("Cannot add connection {}: virtual network not started", shown)
    );
    assert!(net_unregister(desc(), Some(Ok(()))).is_ok());
    assert_eq!(
        text(net_unregister(desc(), Some(Err(refused())))),
        format!("Error disconnecting from {}: Network error: refused", shown)
    );
    assert_eq!(
        text(net_unregister(desc(), None)),
        format!("Cannot disconnect from {}: virtual network not started", shown)
    );
    assert!(net_connect(desc(), Some(Ok(()))).is_ok());
    assert_eq!(
        text(net_connect(desc(), Some(Err(refused())))),
        format!("Error connecting to {}: Network error: refused", shown)
    );
    assert_eq!(
        text(net_connect(desc(), None)),
        format!("Cannot connect to {}: virtual network not started", shown)
    );
}

#[test]
fn networks_have_their_own_addresses() {
    let service = service_config();
    let proxy = proxy_config();
    assert_eq!(to_ipv6_mapped(0x0900_0d02), 0xffff_0900_0d02);
    assert_eq!((service.mtu, proxy.mtu), (1500, 1500));
    assert_eq!(service.hw_addr, [0xb0, 0x01, 0x01, 0x01, 0x01, 0x01]);
    assert_eq!(proxy.hw_addr, [0xb0, 0x02, 0x02, 0x02, 0x02, 0x02]);
    assert_eq!((service.ip4_addr, proxy.ip4_addr), (0x0900_0d02, 0x0900_0d01));
    assert_eq!((service.ip6_addr, proxy.ip6_addr), (0xffff_0900_0d02, 0xffff_0900_0d01));
    assert!(service.capture_ingress);
    assert!(!proxy.capture_ingress);
}

#[test]
fn service_logs_one_line() {
    assert_eq!(service_line(b"GET /\r\nHost: a\n\n"), "GET /\rHost: a");
    assert_eq!(service_line("za\u{17c}\u{f3}\u{142}\u{107}\n".as_bytes()), "za\u{17c}\u{f3}\u{142}\u{107}");
    assert_eq!(service_line(&[0x61, 0xff, 0x62]), "a\u{fffd}b");
    assert_eq!(service_line(&[]), "");
}

#[test]
fn reads_become_chunks() {
    let buf = [1u8, 2, 3, 4];
    match aux_reader_to_sink::<u8>(&buf, ReaderEvent::Read(Ok(3))) {
        ReaderStep::Send(chunk) => assert_eq!(chunk, vec![1, 2, 3]),
        _ => panic!("what was read is sent"),
    }
    match aux_reader_to_sink::<u8>(&buf, ReaderEvent::Read(Ok(4))) {
        ReaderStep::Send(chunk) => assert_eq!(chunk, vec![1, 2, 3, 4]),
        _ => panic!("what was read is sent"),
    }
    assert!(matches!(aux_reader_to_sink::<u8>(&buf, ReaderEvent::Read(Ok(0))), ReaderStep::Stop));
    assert!(matches!(aux_reader_to_sink(&buf, ReaderEvent::Read(Err(5u8))), ReaderStep::Fail(5)));
    assert!(matches!(aux_reader_to_sink::<u8>(&buf, ReaderEvent::Sent(true)), ReaderStep::Read));
    assert!(matches!(aux_reader_to_sink::<u8>(&buf, ReaderEvent::Sent(false)), ReaderStep::Stop));
}

#[test]
fn chunk_is_written_in_pieces() {
    let mut writer = ChunkWriter::new(vec![1, 2, 3, 4, 5]);
    let mut socket: Vec<u8> = Vec::new();
    for count in [2usize, 1, 2] {
        socket.extend_from_slice(&writer.rest()[..count]);
        let step = writer.aux_stream_to_writer::<u8>(Ok(count));
        assert_eq!(matches!(step, WriterStep::Write), socket.len() < 5);
    }
    assert_eq!(socket, vec![1, 2, 3, 4, 5]);
    assert!(writer.rest().is_empty());
}

#[test]
fn socket_that_takes_nothing_costs_the_rest() {
    let mut writer = ChunkWriter::new(vec![1, 2, 3]);
    assert!(matches!(writer.aux_stream_to_writer::<u8>(Ok(1)), WriterStep::Write));
    assert!(matches!(writer.aux_stream_to_writer::<u8>(Ok(0)), WriterStep::Next(None)));
    assert_eq!(writer.rest(), &[2, 3]);
    assert!(matches!(writer.aux_stream_to_writer(Err(7u8)), WriterStep::Next(Some(7))));
    let mut empty = ChunkWriter::new(vec![]);
    assert!(matches!(empty.aux_stream_to_writer::<u8>(Ok(0)), WriterStep::Next(None)));
}

#[test]
fn items_are_forwarded_until_one_fails() {
    let items = [10, 20, 30, 40];
    let mut sent = Vec::new();
    let mut source = items.iter();
    let mut step = aux_forward(ForwardEvent::Sent(true));
    loop {
        step = match step {
            ForwardStep::Receive => aux_forward(ForwardEvent::Received(source.next())),
            ForwardStep::Send(item) => {
                sent.push(*item);
                aux_forward(ForwardEvent::Sent(*item != 30))
            }
            ForwardStep::Stop => break,
        };
    }
    assert_eq!(sent, vec![10, 20, 30]);
    assert!(matches!(aux_forward::<u8>(ForwardEvent::Received(None)), ForwardStep::Stop));
}

#[test]
fn sending_on_a_connection_ends_with_a_poll() {
    let to = EstablishedConnection { vconn: 40 };
    let step = |event: ForwardEvent<u8>| handle_conn_send(&to, event);
    let received = step(ForwardEvent::Received(Some(3)));
    assert!(matches!(received, SendStep::Send { item: 3, to: 40 }));
    assert!(matches!(step(ForwardEvent::Sent(true)), SendStep::Receive));
    assert!(matches!(step(ForwardEvent::Sent(false)), SendStep::PollAndStop));
    assert!(matches!(step(ForwardEvent::Received(None)), SendStep::PollAndStop));
}

#[test]
fn frames_are_handed_to_the_stack() {
    assert!(matches!(handle_stack_receive(Some(3)), ReceiveStep::HandOverAndPoll(3)));
    assert!(matches!(handle_stack_receive::<u8>(None), ReceiveStep::Stop));
}

#[test]
fn reads_are_sent_one_by_one() {
    let reads: [&[u8]; 4] = [&[1, 2], &[3], &[4, 5, 6], &[]];
    let mut source = reads.iter();
    let mut buf = [0u8; 8];
    let mut items: Vec<Vec<u8>> = Vec::new();
    let mut step: ReaderStep<u8> = ReaderStep::Read;
    loop {
        step = match step {
            ReaderStep::Read => {
                let read = source.next().unwrap();
                buf[..read.len()].copy_from_slice(read);
                aux_reader_to_sink(&buf, ReaderEvent::Read(Ok(read.len())))
            }
            ReaderStep::Send(item) => {
                items.push(item);
                aux_reader_to_sink(&buf, ReaderEvent::Sent(true))
            }
            ReaderStep::Stop => break,
            ReaderStep::Fail(_) => panic!("no read failed"),
        };
    }
    assert_eq!(items, vec![vec![1, 2], vec![3], vec![4, 5, 6]]);
    assert_eq!(items.concat(), vec![1, 2, 3, 4, 5, 6]);
}

#[test]
fn failed_write_costs_its_own_chunk_only() {
    let chunks = vec![vec![1, 2, 3], vec![4, 5], vec![], vec![6, 7, 8], vec![9]];
    let mut writes =
        vec![Ok(2), Ok(1), Ok(1), Err(7u8), Ok(0), Ok(1), Ok(0), Ok(1)].into_iter();
    let mut source = chunks.into_iter();
    let mut socket: Vec<u8> = Vec::new();
    while let Some(mut chunk) = next_chunk(source.next()) {
        loop {
            let write = writes.next().unwrap();
            if let Ok(count) = write {
                socket.extend_from_slice(&chunk.rest()[..count]);
            }
            match chunk.aux_stream_to_writer(write) {
                WriterStep::Write => {}
                WriterStep::Next(_) => break,
            }
        }
    }
    assert_eq!(socket, vec![1, 2, 3, 4, 6, 9]);
    assert!(writes.next().is_none());
}

#[test]
fn probe_gives_its_token() {
    let token = [7u8; 32];
    assert!(matches!(probe::<u8>(token, ProbeEvent::Bound(Ok(()))), ProbeStep::Accept));
    assert!(matches!(probe::<u8>(token, ProbeEvent::Accepted(Ok(()))), ProbeStep::AwaitWritable));
    match probe::<u8>(token, ProbeEvent::Writable(Ok(()))) {
        ProbeStep::Write(written) => assert_eq!(written, token),
        _ => panic!("the token is written"),
    }
    assert!(matches!(probe::<u8>(token, ProbeEvent::Written(Ok(()))), ProbeStep::CloseClient));
    assert!(matches!(probe::<u8>(token, ProbeEvent::ClientClosed), ProbeStep::Accept));
    assert!(matches!(probe::<u8>(token, ProbeEvent::Closed), ProbeStep::Stop));
}

#[test]
fn probe_stops_on_errors() {
    let token = [7u8; 32];
    assert!(matches!(probe(token, ProbeEvent::Bound(Err(1u8))), ProbeStep::Fail(1)));
    assert!(matches!(probe(token, ProbeEvent::Accepted(Err(2u8))), ProbeStep::StopAccepting(2)));
    assert!(matches!(probe(token, ProbeEvent::Writable(Err(3u8))), ProbeStep::Fail(3)));
    assert!(matches!(probe(token, ProbeEvent::Written(Err(4u8))), ProbeStep::Fail(4)));
}
