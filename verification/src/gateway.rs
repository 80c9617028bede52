//! The gateway: it accepts connections on a local socket and forwards each into the
//! virtual network, where a service listens.
use vstd::prelude::*;
use vstd::utf8::{decode_utf8, valid_utf8};
use crate::addr::{IpAddress, Protocol, SocketAddr, SocketDesc, SocketEndpoint};
use crate::error::{Error, Result};
use crate::network::channel::ConnectionChannels;
use crate::network::laws::overwriting_leaves_the_new_one;
use crate::network::net::{fresh_state, overwrites, registers, RegisterReply, Routes};
use crate::network::stack::VirtualNetworkConfig;
use crate::network::virt::{NetworkView, NewChannel};
use crate::text::{
    from_utf8_lossy, join, strip_newlines, stripped_text_is_one_line, utf8_lossy, without_newlines,
};

verus! {

/// 9.0.13.1
pub const IP4_PROXY_ADDRESS: u32 = 0x0900_0d01;

/// 9.0.13.2
pub const IP4_SERVICE_ADDRESS: u32 = 0x0900_0d02;

pub const SERVICE_PORT: u16 = 1;

/// The maximum transmission unit of both networks.
pub const MTU: usize = 1500;

/// How long a network may take to start, in milliseconds.
pub const NET_SPAWN_TIMEOUT_MS: u64 = 2000;

/// The IPv6 address that an IPv4 address is mapped to: `::ffff:a.b.c.d`.
pub open spec fn ipv6_mapped(ip4: u32) -> u128 {
    (0xffff_0000_0000 + ip4) as u128
}

pub fn to_ipv6_mapped(ip4: u32) -> (ip6: u128)
    ensures
        ip6 == ipv6_mapped(ip4),
{
    0xffff_0000_0000u128 + ip4 as u128
}

/// The network that the service listens in. It captures what its sockets receive.
pub fn service_config() -> (conf: VirtualNetworkConfig)
    ensures
        conf.mtu == MTU,
        conf.hw_addr@ == seq![0xb0u8, 0x01u8, 0x01u8, 0x01u8, 0x01u8, 0x01u8],
        conf.ip4_addr == IP4_SERVICE_ADDRESS,
        conf.ip6_addr == ipv6_mapped(IP4_SERVICE_ADDRESS),
        conf.capture_ingress,
{
    VirtualNetworkConfig {
        mtu: MTU,
        hw_addr: [0xb0, 0x01, 0x01, 0x01, 0x01, 0x01],
        ip4_addr: IP4_SERVICE_ADDRESS,
        ip6_addr: to_ipv6_mapped(IP4_SERVICE_ADDRESS),
        capture_ingress: true,
    }
}

/// The network that the proxy connects from. It routes what its sockets receive to
/// the connections.
pub fn proxy_config() -> (conf: VirtualNetworkConfig)
    ensures
        conf.mtu == MTU,
        conf.hw_addr@ == seq![0xb0u8, 0x02u8, 0x02u8, 0x02u8, 0x02u8, 0x02u8],
        conf.ip4_addr == IP4_PROXY_ADDRESS,
        conf.ip6_addr == ipv6_mapped(IP4_PROXY_ADDRESS),
        !conf.capture_ingress,
{
    VirtualNetworkConfig {
        mtu: MTU,
        hw_addr: [0xb0, 0x02, 0x02, 0x02, 0x02, 0x02],
        ip4_addr: IP4_PROXY_ADDRESS,
        ip6_addr: to_ipv6_mapped(IP4_PROXY_ADDRESS),
        capture_ingress: false,
    }
}

/// Two IPv4 addresses that are mapped to one IPv6 address are the same.
pub proof fn mapped_addresses_are_distinct(a: u32, b: u32)
    requires
        ipv6_mapped(a) == ipv6_mapped(b),
    ensures
        a == b,
{
}

/// The one route of a gateway: what comes in at `listen` goes to the service.
pub fn service_routes(listen: SocketAddr) -> (routes: Routes)
    ensures
        routes.wf(),
        routes@ == Map::<SocketAddr, SocketAddr>::empty().insert(
            listen,
            SocketAddr::V4 { ip4: IP4_SERVICE_ADDRESS, port: SERVICE_PORT },
        ),
{
    let mut routes = Routes::default();
    routes.add(listen, SocketAddr::V4 { ip4: IP4_SERVICE_ADDRESS, port: SERVICE_PORT });
    routes
}

/// What becomes of an accepted connection: it is forwarded under a description, or
/// dropped for want of a route. An error ends the accepting.
pub enum AcceptStep<E> {
    Forward(SocketDesc),
    NoRoute,
    Stop(E),
}

/// Decides on a connection that the socket at `local` accepted, by the address that
/// it came from.
pub fn tcp_acceptor<E>(
    routes: &Routes,
    local: SocketAddr,
    accepted: core::result::Result<SocketAddr, E>,
) -> (step: AcceptStep<E>)
    requires
        routes.wf(),
    ensures
        match accepted {
            Ok(from) => if routes@.contains_key(local) {
                step == AcceptStep::<E>::Forward(
                    SocketDesc {
                        protocol: Protocol::Tcp,
                        local: from.endpoint(),
                        remote: routes@[local].endpoint(),
                    },
                )
            } else {
                step is NoRoute
            },
            Err(error) => step == AcceptStep::Stop(error),
        },
{
    let from = match accepted {
        Ok(from) => from,
        Err(error) => return AcceptStep::Stop(error),
    };
    match routes.get(local) {
        Some(remote) => AcceptStep::Forward(
            SocketDesc {
                protocol: Protocol::Tcp,
                local: from.to_endpoint(),
                remote: remote.to_endpoint(),
            },
        ),
        None => AcceptStep::NoRoute,
    }
}

/// How far the forwarding of a connection has come. `C` are the channels of the
/// connection, `S` and `R` the two ends that the forwarding takes of them: `S` sends
/// into the connection, `R` receives from it.
pub enum ForwarderEvent<C, S, R> {
    Start,
    Registered(Result<(C, bool)>),
    Connected(C, Result<()>),
    Taken { sink: S, ingress: Option<R> },
    ReaderDone,
}

/// What the forwarding of a connection takes next: register it, in place of an earlier
/// entry where `overwrite` says so; have it connected; take the two ends of its
/// channels; move bytes both ways, those read to `sink` and those of `ingress` to be
/// written; or unregister it.
pub enum ForwarderStep<C, S, R> {
    Register { desc: SocketDesc, overwrite: bool },
    Connect(SocketDesc, C),
    TakeEnds(C),
    Pump { sink: S, ingress: R },
    Unregister(SocketDesc),
    Fail(Error),
}

/// Whether a registration gave the channels of an earlier entry where a new one is
/// wanted. Existing entries are overwritten for TCP.
pub open spec fn to_overwrite(desc: SocketDesc, existing: bool) -> bool {
    existing && desc.protocol == Protocol::Tcp
}

/// Whether `step` follows `event`.
pub open spec fn forwards<C, S, R>(
    desc: SocketDesc,
    event: ForwarderEvent<C, S, R>,
    step: ForwarderStep<C, S, R>,
) -> bool {
    match event {
        ForwarderEvent::Start => step == (ForwarderStep::<C, S, R>::Register {
            desc,
            overwrite: desc.protocol == Protocol::Tcp,
        }),
        ForwarderEvent::Registered(Ok((channels, existing))) => if to_overwrite(desc, existing) {
            step == (ForwarderStep::<C, S, R>::Register { desc, overwrite: true })
        } else {
            step == ForwarderStep::<C, S, R>::Connect(desc, channels)
        },
        ForwarderEvent::Registered(Err(error)) => step == ForwarderStep::<C, S, R>::Fail(error),
        ForwarderEvent::Connected(channels, Ok(())) => step == ForwarderStep::<C, S, R>::TakeEnds(
            channels,
        ),
        ForwarderEvent::Connected(_, Err(error)) => step == ForwarderStep::<C, S, R>::Fail(error),
        ForwarderEvent::Taken { sink, ingress: Some(ingress) } => step == (ForwarderStep::<
            C,
            S,
            R,
        >::Pump { sink, ingress }),
        ForwarderEvent::Taken { ingress: None, .. } => step matches ForwarderStep::Fail(error)
            && error.says("Ingress TCP channel already taken"@),
        ForwarderEvent::ReaderDone => step == ForwarderStep::<C, S, R>::Unregister(desc),
    }
}

/// Forwards an accepted connection, step by step.
pub fn tcp_forwarder<C, S, R>(desc: SocketDesc, event: ForwarderEvent<C, S, R>) -> (step:
    ForwarderStep<C, S, R>)
    ensures
        forwards(desc, event, step),
{
    match event {
        ForwarderEvent::Start => ForwarderStep::Register {
            desc,
            overwrite: desc.protocol == Protocol::Tcp,
        },
        ForwarderEvent::Registered(Ok((channels, existing))) => {
            if existing && desc.protocol == Protocol::Tcp {
                ForwarderStep::Register { desc, overwrite: true }
            } else {
                ForwarderStep::Connect(desc, channels)
            }
        },
        ForwarderEvent::Registered(Err(error)) => ForwarderStep::Fail(error),
        ForwarderEvent::Connected(channels, Ok(())) => ForwarderStep::TakeEnds(channels),
        ForwarderEvent::Connected(_, Err(error)) => ForwarderStep::Fail(error),
        ForwarderEvent::Taken { sink, ingress: Some(ingress) } => ForwarderStep::Pump {
            sink,
            ingress,
        },
        ForwarderEvent::Taken { ingress: None, .. } => ForwarderStep::Fail(
            Error::Network("Ingress TCP channel already taken".to_owned()),
        ),
        ForwarderEvent::ReaderDone => ForwarderStep::Unregister(desc),
    }
}

/// Each step comes after the one that it needs: bytes move only once the two ends of
/// the connection's channels were had, they are asked for only after the connecting
/// succeeded, and the connecting only after the registration did. The connection is
/// unregistered after the reading ended, and only then.
pub proof fn forwards_only_what_is_connected<C, S, R>(
    desc: SocketDesc,
    event: ForwarderEvent<C, S, R>,
    step: ForwarderStep<C, S, R>,
)
    requires
        forwards(desc, event, step),
    ensures
        step matches ForwarderStep::Pump { sink, ingress } ==> event == (ForwarderEvent::<
            C,
            S,
            R,
        >::Taken { sink, ingress: Some(ingress) }),
        step matches ForwarderStep::TakeEnds(channels) ==> event matches ForwarderEvent::Connected(
            connected,
            Ok(_),
        ) && connected == channels,
        step matches ForwarderStep::Connect(_, channels) ==> event matches ForwarderEvent::Registered(
            Ok((registered, _)),
        ) && registered == channels,
        step is Unregister <==> event is ReaderDone,
{
}

/// A TCP forwarding registers its connection in place of an earlier entry, and never
/// connects with the channels of one.
pub proof fn tcp_forwarding_overwrites<C, S, R>(
    desc: SocketDesc,
    event: ForwarderEvent<C, S, R>,
    step: ForwarderStep<C, S, R>,
)
    requires
        desc.protocol == Protocol::Tcp,
        forwards(desc, event, step),
    ensures
        event is Start ==> step == (ForwarderStep::<C, S, R>::Register { desc, overwrite: true }),
        step matches ForwarderStep::Register { overwrite, .. } ==> overwrite,
        step matches ForwarderStep::Connect(_, channels) ==> event
            == ForwarderEvent::<C, S, R>::Registered(Ok((channels, false))),
{
}

/// A TCP forwarding whose registration the network answers connects with the channels
/// that were made for it, whatever was registered before, and is then the one that is
/// registered.
pub proof fn tcp_forwarding_gets_fresh_channels<T, F: Clone, C: Clone, V, S, R>(
    desc: SocketDesc,
    before: NetworkView<T, F, C, V>,
    fresh: NewChannel<T, F, C>,
    reply: RegisterReply<F, C>,
    after: NetworkView<T, F, C, V>,
    first: ForwarderStep<C, S, R>,
    second: ForwarderStep<C, S, R>,
)
    requires
        before.wf(),
        desc.protocol == Protocol::Tcp,
        forwards(desc, ForwarderEvent::Start, first),
        first matches ForwarderStep::Register { desc: of, overwrite } ==> (if overwrite {
            overwrites(before, of, fresh, reply, after)
        } else {
            registers(before, of, fresh, reply, after)
        }),
        reply matches RegisterReply::Now { result, pending } ==> result matches Ok(channels)
            ==> forwards(desc, ForwarderEvent::Registered(Ok((channels, pending))), second),
    ensures
        reply matches RegisterReply::Now { result: Ok(channels), .. } && cloned(
            fresh.channels,
            channels,
        ) && second == ForwarderStep::<C, S, R>::Connect(desc, channels),
        after.state(desc) == Some(fresh_state::<T, F, C, V>(fresh)),
{
    overwriting_leaves_the_new_one(before, desc, fresh_state(fresh), desc);
}

/// A forwarding whose steps are answered in turn by `registered`, `connected` and the
/// two ends of its channels comes to move bytes exactly if it was registered, with
/// channels of its own where it overwrites, and connected, and nobody had taken the
/// receiving channel. Then what it reads goes to the sending side of the channels that
/// it was registered with, and what it writes comes from their receiving side. It
/// registers, connects and unregisters no other connection than its own.
pub proof fn forwarding_uses_the_registered_channels<S: Clone, R>(
    desc: SocketDesc,
    registered: Result<(ConnectionChannels<S, R>, bool)>,
    connected: Result<()>,
    sink: S,
    ingress: Option<R>,
    first: ForwarderStep<ConnectionChannels<S, R>, S, R>,
    second: ForwarderStep<ConnectionChannels<S, R>, S, R>,
    third: ForwarderStep<ConnectionChannels<S, R>, S, R>,
    fourth: ForwarderStep<ConnectionChannels<S, R>, S, R>,
    last: ForwarderStep<ConnectionChannels<S, R>, S, R>,
)
    requires
        forwards(desc, ForwarderEvent::Start, first),
        forwards(desc, ForwarderEvent::Registered(registered), second),
        second matches ForwarderStep::Connect(_, channels) ==> forwards(
            desc,
            ForwarderEvent::Connected(channels, connected),
            third,
        ),
        third matches ForwarderStep::TakeEnds(channels) ==> channels.gives(sink, ingress)
            && forwards(desc, (ForwarderEvent::Taken { sink, ingress }), fourth),
        forwards(desc, ForwarderEvent::ReaderDone, last),
    ensures
        first matches ForwarderStep::Register { desc: of, .. } && of == desc,
        last == ForwarderStep::<ConnectionChannels<S, R>, S, R>::Unregister(desc),
        second matches ForwarderStep::Register { desc: of, .. } ==> of == desc,
        second matches ForwarderStep::Connect(to, _) ==> to == desc,
        second is Connect && third is TakeEnds && fourth is Pump <==> registered is Ok
            && !to_overwrite(desc, registered->Ok_0.1) && connected is Ok
            && registered->Ok_0.0.ingress.rx() is Some,
        second is Connect && third is TakeEnds ==> match fourth {
            ForwarderStep::Pump { sink: to, ingress: from } => cloned(
                registered->Ok_0.0.send.tx(),
                to,
            ) && registered->Ok_0.0.ingress.rx() == Some(from),
            _ => registered->Ok_0.0.ingress.rx() is None,
        },
{
}

/// What is said of `desc` in a message between `before` and `after`.
pub open spec fn about(before: Seq<char>, desc: SocketDesc, after: Seq<char>) -> Seq<char> {
    before + desc.text() + after
}

fn message(before: &str, desc: SocketDesc, middle: &str, after: &str) -> (error: Error)
    ensures
        error.says(about(before@, desc, middle@ + after@)),
{
    let mut text = join(before, desc.to_text().as_str());
    text.append(middle);
    text.append(after);
    assert(text@ =~= about(before@, desc, middle@ + after@));
    Error::Network(text)
}

/// Reads the network's answer to a registration: the channels, and whether the
/// connection was there before. There is no answer where the network is not
/// running.
pub fn net_register<C>(desc: SocketDesc, reply: Option<(Result<C>, bool)>) -> (result: Result<
    (C, bool),
>)
    ensures
        match reply {
            Some((Ok(channels), pending)) => result == Ok::<(C, bool), Error>((channels, pending)),
            Some((Err(error), _)) => result matches Err(told) && told.says(
                about("Error adding connection "@, desc, ": "@ + error.text()),
            ),
            None => result matches Err(told) && told.says(
                about("Cannot add connection "@, desc, ": "@ + "virtual network not started"@),
            ),
        },
{
    match reply {
        Some((Ok(channels), pending)) => Ok((channels, pending)),
        Some((Err(error), _)) => Err(
            message("Error adding connection ", desc, ": ", error.to_string().as_str()),
        ),
        None => Err(message("Cannot add connection ", desc, ": ", "virtual network not started")),
    }
}

/// Reads the network's answer to the closing of a connection.
pub fn net_unregister(desc: SocketDesc, reply: Option<Result<()>>) -> (result: Result<()>)
    ensures
        match reply {
            Some(Ok(())) => result == Ok::<(), Error>(()),
            Some(Err(error)) => result matches Err(told) && told.says(
                about("Error disconnecting from "@, desc, ": "@ + error.text()),
            ),
            None => result matches Err(told) && told.says(
                about("Cannot disconnect from "@, desc, ": "@ + "virtual network not started"@),
            ),
        },
{
    match reply {
        Some(Ok(())) => Ok(()),
        Some(Err(error)) => Err(
            message("Error disconnecting from ", desc, ": ", error.to_string().as_str()),
        ),
        None => Err(message("Cannot disconnect from ", desc, ": ", "virtual network not started")),
    }
}

/// Reads the network's answer to the establishing of a connection.
pub fn net_connect(desc: SocketDesc, reply: Option<Result<()>>) -> (result: Result<()>)
    ensures
        match reply {
            Some(Ok(())) => result == Ok::<(), Error>(()),
            Some(Err(error)) => result matches Err(told) && told.says(
                about("Error connecting to "@, desc, ": "@ + error.text()),
            ),
            None => result matches Err(told) && told.says(
                about("Cannot connect to "@, desc, ": "@ + "virtual network not started"@),
            ),
        },
{
    match reply {
        Some(Ok(())) => Ok(()),
        Some(Err(error)) => Err(
            message("Error connecting to ", desc, ": ", error.to_string().as_str()),
        ),
        None => Err(message("Cannot connect to ", desc, ": ", "virtual network not started")),
    }
}

/// The line that the service logs for a payload: the payload as text, on one line.
pub fn service_line(payload: &[u8]) -> (line: String)
    ensures
        line@ == without_newlines(utf8_lossy(payload@)),
        valid_utf8(payload@) ==> line@ == without_newlines(decode_utf8(payload@)),
{
    let text = from_utf8_lossy(payload);
    strip_newlines(text.as_str())
}

/// A mapped address holds the IPv4 address in its last four octets and the mark of a
/// mapped one before them.
pub proof fn mapped_addresses_hold_the_address(ip4: u32, ip6: u128)
    requires
        call_ensures(to_ipv6_mapped, (ip4,), ip6),
    ensures
        ip6 % 0x1_0000_0000 == ip4,
        ip6 / 0x1_0000_0000 == 0xffff,
{
}

/// The two networks of the gateway: the service's captures what it receives and has
/// 9.0.13.2, the proxy's routes it and has 9.0.13.1, each mapped to IPv6 too and with an
/// Ethernet address of its own. What comes in where the gateway listens is routed to the
/// service, and nothing else is routed anywhere.
pub proof fn gateways_lead_to_the_service(
    service: VirtualNetworkConfig,
    proxy: VirtualNetworkConfig,
    service_ip6: u128,
    proxy_ip6: u128,
    listen: SocketAddr,
    routes: Routes,
    asked: SocketAddr,
    to: Option<SocketAddr>,
)
    requires
        call_ensures(service_config, (), service),
        call_ensures(proxy_config, (), proxy),
        call_ensures(to_ipv6_mapped, (0x0900_0d02u32,), service_ip6),
        call_ensures(to_ipv6_mapped, (0x0900_0d01u32,), proxy_ip6),
        call_ensures(service_routes, (listen,), routes),
        call_ensures(Routes::get, (&routes, asked), to),
    ensures
        service.mtu == 1500 && service.capture_ingress,
        service.ip4_addr == 0x0900_0d02 && service.ip6_addr == service_ip6,
        service.hw_addr@ == seq![0xb0u8, 0x01u8, 0x01u8, 0x01u8, 0x01u8, 0x01u8],
        proxy.mtu == 1500 && !proxy.capture_ingress,
        proxy.ip4_addr == 0x0900_0d01 && proxy.ip6_addr == proxy_ip6,
        proxy.hw_addr@ == seq![0xb0u8, 0x02u8, 0x02u8, 0x02u8, 0x02u8, 0x02u8],
        routes.wf(),
        to is Some <==> asked == listen,
        to matches Some(to) ==> (to matches SocketAddr::V4 { ip4, port } && ip4 == 0x0900_0d02
            && port == 1),
        NET_SPAWN_TIMEOUT_MS == 2000,
{
}

/// An accepted connection is forwarded exactly if the socket that accepted it has a
/// route: over TCP, from exactly the IP and port that the client came from to exactly
/// those of the route, whatever they are. Without a route it is dropped, and only an
/// error ends the accepting.
pub proof fn accepted_connections_keep_their_ends<E>(
    routes: Routes,
    local: SocketAddr,
    to: Option<SocketAddr>,
    accepted: core::result::Result<SocketAddr, E>,
    step: AcceptStep<E>,
)
    requires
        routes.wf(),
        call_ensures(Routes::get, (&routes, local), to),
        call_ensures(tcp_acceptor::<E>, (&routes, local, accepted), step),
    ensures
        step is Forward <==> accepted is Ok && to is Some,
        step is NoRoute <==> accepted is Ok && to is None,
        step is Stop <==> accepted is Err,
        step matches AcceptStep::Stop(error) ==> accepted == Err::<SocketAddr, E>(error),
        step matches AcceptStep::Forward(desc) ==> {
            &&& desc.protocol is Tcp
            &&& match accepted->Ok_0 {
                SocketAddr::V4 { ip4, port } => {
                    &&& desc.local matches SocketEndpoint::Ip(end)
                    &&& end.addr == IpAddress::Ipv4(ip4) && end.port == port
                },
                SocketAddr::V6 { ip6, port, .. } => {
                    &&& desc.local matches SocketEndpoint::Ip(end)
                    &&& end.addr == IpAddress::Ipv6(ip6) && end.port == port
                },
            }
            &&& match to->0 {
                SocketAddr::V4 { ip4, port } => {
                    &&& desc.remote matches SocketEndpoint::Ip(end)
                    &&& end.addr == IpAddress::Ipv4(ip4) && end.port == port
                },
                SocketAddr::V6 { ip6, port, .. } => {
                    &&& desc.remote matches SocketEndpoint::Ip(end)
                    &&& end.addr == IpAddress::Ipv6(ip6) && end.port == port
                },
            }
        },
{
}

/// Two clients that a socket forwards at once are told apart by their IP and port.
pub proof fn clients_are_told_apart<E>(
    routes: Routes,
    local: SocketAddr,
    a: SocketAddr,
    b: SocketAddr,
    of_a: SocketDesc,
    of_b: SocketDesc,
)
    requires
        routes.wf(),
        call_ensures(
            tcp_acceptor::<E>,
            (&routes, local, Ok::<SocketAddr, E>(a)),
            AcceptStep::Forward(of_a),
        ),
        call_ensures(
            tcp_acceptor::<E>,
            (&routes, local, Ok::<SocketAddr, E>(b)),
            AcceptStep::Forward(of_b),
        ),
    ensures
        of_a.remote == of_b.remote,
        of_a == of_b ==> match (a, b) {
            (SocketAddr::V4 { .. }, SocketAddr::V4 { .. }) => a == b,
            (
                SocketAddr::V6 { ip6, port, .. },
                SocketAddr::V6 { ip6: other_ip6, port: other_port, .. },
            ) => ip6 == other_ip6 && port == other_port,
            _ => false,
        },
{
}

/// What a forwarding does, by what it was answered. It registers its own connection
/// first, to overwrite for TCP, and again to overwrite where a TCP registration gave
/// channels that were there; connects with the channels of any other registration; takes
/// the ends of the channels that were connected; moves bytes between exactly the ends
/// that it got, if the receiving one was to be had; and unregisters its own connection
/// when the reading ended. An error ends it, and is the one that it fails with.
pub proof fn forwardings_go_step_by_step<C, S, R>(
    desc: SocketDesc,
    event: ForwarderEvent<C, S, R>,
    step: ForwarderStep<C, S, R>,
)
    requires
        call_ensures(tcp_forwarder::<C, S, R>, (desc, event), step),
    ensures
        step is Register <==> event is Start || (event matches ForwarderEvent::Registered(
            Ok((_, existing)),
        ) && existing && desc.protocol is Tcp),
        step matches ForwarderStep::Register { desc: of, overwrite } ==> of == desc && overwrite == (
        desc.protocol is Tcp),
        step is Connect <==> (event matches ForwarderEvent::Registered(Ok((_, existing))) && !(existing
            && desc.protocol is Tcp)),
        step matches ForwarderStep::Connect(to, channels) ==> to == desc && (
        event matches ForwarderEvent::Registered(Ok((registered, _))) && registered == channels),
        step is TakeEnds <==> event matches ForwarderEvent::Connected(_, Ok(_)),
        step matches ForwarderStep::TakeEnds(channels) ==> event->Connected_0 == channels,
        step is Pump <==> (event matches ForwarderEvent::Taken { ingress, .. } && ingress is Some),
        step matches ForwarderStep::Pump { sink, ingress } ==> (
        event matches ForwarderEvent::Taken { sink: to, ingress: from } && to == sink && from
            == Some(ingress)),
        step is Unregister <==> event is ReaderDone,
        step matches ForwarderStep::Unregister(of) ==> of == desc,
        step matches ForwarderStep::Fail(error) ==> match event {
            ForwarderEvent::Registered(Err(reason)) => error == reason,
            ForwarderEvent::Connected(_, Err(reason)) => error == reason,
            ForwarderEvent::Taken { .. } => error matches Error::Network(text) && text@
                == "Ingress TCP channel already taken"@,
            _ => false,
        },
{
}

/// How the answers of the network are read: a success as it came, an error of the network
/// with what was asked, the connection it was about and the reason, and no answer as a
/// network that is not running.
pub proof fn answers_are_read<C>(
    desc: SocketDesc,
    shown: String,
    register: Option<(Result<C>, bool)>,
    registered: Result<(C, bool)>,
    reply: Option<Result<()>>,
    unregistered: Result<()>,
    connected: Result<()>,
    register_reason: String,
    reason: String,
)
    requires
        call_ensures(SocketDesc::to_text, (desc,), shown),
        call_ensures(net_register::<C>, (desc, register), registered),
        call_ensures(net_unregister, (desc, reply), unregistered),
        call_ensures(net_connect, (desc, reply), connected),
        register matches Some((Err(error), _)) ==> call_ensures(
            Error::to_string,
            (&error,),
            register_reason,
        ),
        reply matches Some(Err(error)) ==> call_ensures(Error::to_string, (&error,), reason),
    ensures
        match register {
            Some((Ok(channels), existing)) => registered == Ok::<(C, bool), Error>(
                (channels, existing),
            ),
            Some((Err(_), _)) => registered matches Err(Error::Network(text)) && text@
                == "Error adding connection "@ + shown@ + (": "@ + register_reason@),
            None => registered matches Err(Error::Network(text)) && text@
                == "Cannot add connection "@ + shown@ + ": virtual network not started"@,
        },
        match reply {
            Some(Ok(_)) => unregistered is Ok && connected is Ok,
            Some(Err(_)) => {
                &&& unregistered matches Err(Error::Network(text))
                &&& text@ == "Error disconnecting from "@ + shown@ + (": "@ + reason@)
                &&& connected matches Err(Error::Network(other))
                &&& other@ == "Error connecting to "@ + shown@ + (": "@ + reason@)
            },
            None => {
                &&& unregistered matches Err(Error::Network(text))
                &&& text@ == "Cannot disconnect from "@ + shown@ + ": virtual network not started"@
                &&& connected matches Err(Error::Network(other))
                &&& other@ == "Cannot connect to "@ + shown@ + ": virtual network not started"@
            },
        },
{
    reveal_strlit(": ");
    reveal_strlit("virtual network not started");
    reveal_strlit(": virtual network not started");
    assert(": "@ + "virtual network not started"@ =~= ": virtual network not started"@);
}

/// What the service logs of a payload that is text is that text without its newlines.
pub proof fn service_logs_the_text(payload: &[u8], line: String, text: &str, stripped: String)
    requires
        call_ensures(service_line, (payload,), line),
        valid_utf8(payload@),
        text@ == decode_utf8(payload@),
        call_ensures(strip_newlines, (text,), stripped),
    ensures
        line@ == stripped@,
{
}

/// What the service logs is one line, of whatever payload.
pub proof fn service_logs_one_line(payload: &[u8], line: String)
    requires
        call_ensures(service_line, (payload,), line),
    ensures
        !line@.contains('\n'),
        line@ == without_newlines(utf8_lossy(payload@)),
{
    stripped_text_is_one_line(utf8_lossy(payload@));
}

} // verus!
