//! What the calls on a network give, by their arguments and results: of one call, and of
//! calls that follow each other.
use vstd::prelude::*;
use crate::addr::{IpAddress, Protocol, SocketDesc, SocketEndpoint};
use crate::error::{Error, Result};
use crate::network::channel::NetworkChannels;
use crate::network::laws::{
    abandoning_changes_no_registration, closing_removes_one, failure_removes_one,
    overwriting_leaves_the_new_one, registering_adds_one, success_establishes_what_was_found,
};
use crate::network::net::{waited, Connect, Network, Register, RegisterReply, Unregister};
use crate::network::stack::VirtualNetworkConfig;
use crate::network::virt::{
    lemma_first_free, ConnectAttempt, ConnectDone, Connection, ConnectionState,
    EstablishedConnection, IngressAction, IngressEvent, NetworkView, NewChannel, OpenChannel,
    PendingConnection, RouteEvent, RouteStep, VirtualNetwork,
};

verus! {

/// What is registered under `desc`.
pub open spec fn entry<T, F, C, V>(net: NetworkView<T, F, C, V>, desc: SocketDesc) -> Option<
    ConnectionState<T, F, C, V>,
> {
    if net.conns.contains_key(desc) {
        Some(net.cells[net.conns[desc] as int]->0.state)
    } else {
        None
    }
}

/// Whether nothing but the entry of `desc` differs between the two.
pub open spec fn others_stay<T, F, C, V>(
    before: NetworkView<T, F, C, V>,
    after: NetworkView<T, F, C, V>,
    desc: SocketDesc,
) -> bool {
    forall|other: SocketDesc| other != desc ==> #[trigger] entry(after, other) == entry(before, other)
}

/// Whether every connection that an attempt holds is as it was.
pub open spec fn held_stay<T, F, C, V>(
    before: NetworkView<T, F, C, V>,
    after: NetworkView<T, F, C, V>,
) -> bool {
    &&& after.held == before.held
    &&& forall|id: usize| #[trigger] before.held.count(id) > 0 ==> after.cells[id as int]
        == before.cells[id as int]
}

/// Opening the channels of a connection: those who find it pending wait with what it was
/// registered with, those who find it established get its channels, and where there is
/// none it is registered, pending, with what was given. Nothing else changes.
pub proof fn opening_finds_or_registers<T, F: Clone, C: Clone, V>(
    net: &mut VirtualNetwork<T, F, C, V>,
    desc: SocketDesc,
    fresh: NewChannel<T, F, C>,
    opened: OpenChannel<F, C>,
)
    requires
        old(net).wf(),
        call_ensures(VirtualNetwork::<T, F, C, V>::open_channel, (net, desc, fresh), opened),
    ensures
        final(net).wf(),
        opened is Wait <==> entry(old(net)@, desc) matches Some(ConnectionState::Pending(..)),
        opened is Ready <==> entry(old(net)@, desc) matches Some(ConnectionState::Established(..)),
        opened is Created <==> entry(old(net)@, desc) is None,
        opened matches OpenChannel::Wait(ready) ==> cloned(
            entry(old(net)@, desc)->0->Pending_0.ready,
            ready,
        ),
        opened matches OpenChannel::Ready(channels) ==> cloned(
            entry(old(net)@, desc)->0->Established_1,
            channels,
        ),
        opened matches OpenChannel::Created(channels) ==> {
            &&& cloned(fresh.channels, channels)
            &&& entry(final(net)@, desc) matches Some(ConnectionState::Pending(pending, of))
            &&& pending.ready_tx == fresh.ready_tx && pending.ready == fresh.ready
            &&& of == fresh.channels
        },
        opened !is Created ==> entry(final(net)@, desc) == entry(old(net)@, desc),
        others_stay(old(net)@, final(net)@, desc),
        held_stay(old(net)@, final(net)@),
{
    let before = old(net)@;
    let state = ConnectionState::Pending(
        PendingConnection { ready_tx: fresh.ready_tx, ready: fresh.ready },
        fresh.channels,
    );
    lemma_first_free(before.cells, 0);
    if before.conns.contains_key(desc) {
        assert(before.live(before.conns[desc]));
    }
    assert forall|other: SocketDesc| other != desc implies #[trigger] entry(final(net)@, other)
        == entry(before, other) by {
        registering_adds_one(before, desc, state, other);
    }
    assert forall|id: usize| #[trigger] before.held.count(id) > 0 implies final(net)@.cells[id as int]
        == before.cells[id as int] by {
        assert(before.live(id));
    }
}

/// Registering in place of an earlier connection: whatever was there, what is registered
/// now is pending with what was given, and its channels are the answer. Nothing else
/// changes, and the attempts that hold the earlier one still do.
pub proof fn replacing_registers_what_was_given<T, F, C: Clone, V>(
    net: &mut VirtualNetwork<T, F, C, V>,
    desc: SocketDesc,
    fresh: NewChannel<T, F, C>,
    channels: C,
)
    requires
        old(net).wf(),
        call_ensures(VirtualNetwork::<T, F, C, V>::replace, (net, desc, fresh), channels),
    ensures
        final(net).wf(),
        cloned(fresh.channels, channels),
        entry(final(net)@, desc) matches Some(ConnectionState::Pending(pending, of))
            && pending.ready_tx == fresh.ready_tx && pending.ready == fresh.ready && of
            == fresh.channels,
        others_stay(old(net)@, final(net)@, desc),
        held_stay(old(net)@, final(net)@),
{
    let before = old(net)@;
    let state = ConnectionState::Pending(
        PendingConnection { ready_tx: fresh.ready_tx, ready: fresh.ready },
        fresh.channels,
    );
    lemma_first_free(before.unregister(desc).cells, 0);
    overwriting_leaves_the_new_one(before, desc, state, desc);
    assert forall|other: SocketDesc| other != desc implies #[trigger] entry(final(net)@, other)
        == entry(before, other) by {
        overwriting_leaves_the_new_one(before, desc, state, other);
    }
    assert forall|id: usize| #[trigger] before.held.count(id) > 0 implies final(net)@.cells[id as int]
        == before.cells[id as int] by {
        assert(before.live(id));
    }
}

/// Closing a connection succeeds, leaves nothing under its description and changes
/// nothing else.
pub proof fn closing_leaves_nothing<T, F, C, V>(
    net: &mut VirtualNetwork<T, F, C, V>,
    desc: SocketDesc,
    result: Result<()>,
)
    requires
        old(net).wf(),
        call_ensures(VirtualNetwork::<T, F, C, V>::close_channel, (net, desc), result),
    ensures
        final(net).wf(),
        result is Ok,
        entry(final(net)@, desc) is None,
        others_stay(old(net)@, final(net)@, desc),
        held_stay(old(net)@, final(net)@),
{
    let before = old(net)@;
    closing_removes_one(before, desc, desc);
    assert forall|other: SocketDesc| other != desc implies #[trigger] entry(final(net)@, other)
        == entry(before, other) by {
        closing_removes_one(before, desc, other);
    }
}

/// An attempt finds a connection exactly if one is registered under its description, and
/// holds that one from then on. Nothing else changes.
pub proof fn attempts_find_what_is_registered<T, F, C, V>(
    net: &mut VirtualNetwork<T, F, C, V>,
    desc: SocketDesc,
    attempt: ConnectAttempt,
    found: bool,
)
    requires
        old(net).wf(),
        call_ensures(VirtualNetwork::<T, F, C, V>::connect, (net, desc), attempt),
        call_ensures(ConnectAttempt::found, (&attempt,), found),
    ensures
        final(net).wf(),
        attempt.desc() == desc,
        found == (entry(old(net)@, desc) is Some),
        found == (attempt.conn() is Some),
        found ==> attempt.conn() == Some(old(net)@.conns[desc]),
        final(net)@.conns == old(net)@.conns,
        final(net)@.cells == old(net)@.cells,
        final(net)@.held == if found {
            old(net)@.held.insert(old(net)@.conns[desc])
        } else {
            old(net)@.held
        },
        final(net)@.holds(attempt.desc(), attempt.conn()),
{
}

/// An attempt that found a connection and had it opened by the stack, whatever its
/// number: it succeeds, what is to be sent is sent from the channels of that connection
/// and by the connection of the stack that it is established with, the first that was
/// opened for it. Nobody is told. Where the connection is still registered, it is
/// established from then on. Nothing else changes.
pub proof fn opened_connections_are_sent_from<T: Clone, F, C: Clone, V: Clone>(
    net: &mut VirtualNetwork<T, F, C, V>,
    attempt: ConnectAttempt,
    vconn: V,
    done: ConnectDone<T, C, V>,
)
    requires
        old(net).wf(),
        old(net)@.holds(attempt.desc(), attempt.conn()),
        attempt.conn() is Some,
        call_ensures(
            VirtualNetwork::<T, F, C, V>::finish_connect,
            (net, attempt, Ok::<V, Error>(vconn)),
            done,
        ),
    ensures
        final(net).wf(),
        done.result is Ok,
        done.notify is None,
        done.send is Some,
        ({
            let send = done.send->0;
            match old(net)@.cells[attempt.conn()->0 as int]->0.state {
                ConnectionState::Pending(_, channels) => cloned(vconn, send.0.vconn) && cloned(
                    channels,
                    send.1,
                ),
                ConnectionState::Established(first, channels) => cloned(first.vconn, send.0.vconn)
                    && cloned(channels, send.1),
                ConnectionState::Poisoned => false,
            }
        }),
        old(net)@.conns.contains_key(attempt.desc()) && old(net)@.conns[attempt.desc()]
            == attempt.conn()->0 ==> match entry(old(net)@, attempt.desc())->0 {
            ConnectionState::Pending(_, channels) => {
                &&& entry(final(net)@, attempt.desc()) matches Some(
                    ConnectionState::Established(now, of),
                )
                &&& now.vconn == vconn && of == channels
            },
            stays => entry(final(net)@, attempt.desc()) == Some(stays),
        },
        !(old(net)@.conns.contains_key(attempt.desc()) && old(net)@.conns[attempt.desc()]
            == attempt.conn()->0) ==> entry(final(net)@, attempt.desc()) == entry(
            old(net)@,
            attempt.desc(),
        ),
        others_stay(old(net)@, final(net)@, attempt.desc()),
        final(net)@.held == old(net)@.held.remove(attempt.conn()->0),
{
    let before = old(net)@;
    let desc = attempt.desc();
    let id = attempt.conn()->0;
    assert(before.held.count(id) > 0);
    assert(before.live(id));
    success_establishes_what_was_found(before, desc, id, vconn, desc);
    assert forall|other: SocketDesc| other != desc implies #[trigger] entry(final(net)@, other)
        == entry(before, other) by {
        if before.conns.contains_key(other) {
            assert(before.live(before.conns[other]));
        }
        success_establishes_what_was_found(before, desc, id, vconn, other);
    }
}

/// An attempt that failed, or found no connection: its result is the stack's error, or
/// that the connection was removed, and nothing is sent. Whoever waits under its
/// description is told that the connection failed, and why. Nothing is registered there
/// any more, and nothing else changes.
pub proof fn failed_attempts_tell_those_who_wait<T: Clone, F, C: Clone, V: Clone>(
    net: &mut VirtualNetwork<T, F, C, V>,
    attempt: ConnectAttempt,
    outcome: Result<V>,
    done: ConnectDone<T, C, V>,
    removed: String,
    reason: String,
)
    requires
        old(net).wf(),
        old(net)@.holds(attempt.desc(), attempt.conn()),
        attempt.conn() is None || outcome is Err,
        call_ensures(
            VirtualNetwork::<T, F, C, V>::finish_connect,
            (net, attempt, outcome),
            done,
        ),
        call_ensures(SocketDesc::to_text, (attempt.desc(),), removed),
        done.result matches Err(error) ==> call_ensures(Error::to_string, (&error,), reason),
    ensures
        final(net).wf(),
        done.send is None,
        attempt.conn() is Some ==> (done.result matches Err(error) && outcome == Err::<V, Error>(
            error,
        )),
        attempt.conn() is None ==> (done.result matches Err(Error::Network(message)) && message@
            == "Connection unexpectedly removed: "@ + removed@),
        match entry(old(net)@, attempt.desc()) {
            Some(ConnectionState::Pending(pending, _)) => {
                &&& done.notify matches Some((tx, Err(Error::Network(message))))
                &&& cloned(pending.ready_tx, tx)
                &&& message@ == "Connection failed: "@ + reason@
            },
            _ => done.notify is None,
        },
        entry(final(net)@, attempt.desc()) is None,
        others_stay(old(net)@, final(net)@, attempt.desc()),
        final(net)@.held == match attempt.conn() {
            Some(id) => old(net)@.held.remove(id),
            None => old(net)@.held,
        },
{
    let before = old(net)@;
    let desc = attempt.desc();
    failure_removes_one(before, desc, attempt.conn(), desc);
    assert forall|other: SocketDesc| other != desc implies #[trigger] entry(final(net)@, other)
        == entry(before, other) by {
        failure_removes_one(before, desc, attempt.conn(), other);
    }
}

/// Giving an attempt up changes nothing that is registered.
pub proof fn abandoning_changes_no_entry<T, F, C, V>(
    net: &mut VirtualNetwork<T, F, C, V>,
    attempt: ConnectAttempt,
)
    requires
        old(net).wf(),
        old(net)@.holds(attempt.desc(), attempt.conn()),
        call_ensures(VirtualNetwork::<T, F, C, V>::abandon, (net, attempt), ()),
    ensures
        final(net).wf(),
        forall|desc: SocketDesc| #[trigger] entry(final(net)@, desc) == entry(old(net)@, desc),
        final(net)@.held == match attempt.conn() {
            Some(id) => old(net)@.held.remove(id),
            None => old(net)@.held,
        },
{
    let before = old(net)@;
    assert forall|desc: SocketDesc| #[trigger] entry(final(net)@, desc) == entry(before, desc) by {
        abandoning_changes_no_registration(before, attempt.desc(), attempt.conn(), desc);
    }
}

/// The channels of a connection are found exactly if it is registered and established.
pub proof fn established_connections_are_found<T, F, C, V>(
    net: VirtualNetwork<T, F, C, V>,
    desc: SocketDesc,
    found: Option<&C>,
)
    requires
        net.wf(),
        call_ensures(VirtualNetwork::<T, F, C, V>::get_connection, (&net, &desc), found),
    ensures
        found is Some <==> entry(net@, desc) matches Some(ConnectionState::Established(..)),
        found matches Some(channels) ==> *channels == entry(net@, desc)->0->Established_1,
{
}

/// A packet of whatever length goes with its payload to the channels of the established
/// connection under its description, exactly if there is one; without one the routing
/// says so. No other report goes anywhere. The routing ends with the reports and no
/// sooner, however a delivery went.
pub proof fn packets_reach_their_connection<T, F, C, V>(
    net: VirtualNetwork<T, F, C, V>,
    desc: SocketDesc,
    payload: Vec<u8>,
    action: IngressAction<'_, C>,
    step: RouteStep<'_, C>,
)
    requires
        net.wf(),
        call_ensures(
            VirtualNetwork::<T, F, C, V>::route_ingress,
            (&net, IngressEvent::Packet { desc, payload }),
            action,
        ),
        call_ensures(
            VirtualNetwork::<T, F, C, V>::handle_stack_ingress,
            (&net, RouteEvent::Received(Some(IngressEvent::Packet { desc, payload }))),
            step,
        ),
    ensures
        match entry(net@, desc) {
            Some(ConnectionState::Established(_, channels)) => {
                &&& action matches IngressAction::Deliver { channels: to, payload: what }
                &&& *to == channels && what == payload
                &&& step matches RouteStep::Deliver { channels: to, payload: what }
                &&& *to == channels && what == payload
            },
            _ => {
                &&& action matches IngressAction::NoConnection { desc: of }
                &&& of == desc
                &&& step matches RouteStep::ReportAndReceive { desc: of }
                &&& of == desc
            },
        },
{
}

/// Of the reports of the stack only packets go anywhere, and only packets are captured,
/// with their whole payload. The routing ends with the reports and no sooner, however a
/// delivery went.
pub proof fn only_packets_are_passed_on<T, F, C, V>(
    net: VirtualNetwork<T, F, C, V>,
    report: IngressEvent,
    captured: Option<Vec<u8>>,
    action: IngressAction<'_, C>,
    event: RouteEvent,
    step: RouteStep<'_, C>,
)
    requires
        net.wf(),
        call_ensures(IngressEvent::captured, (report,), captured),
        call_ensures(VirtualNetwork::<T, F, C, V>::route_ingress, (&net, report), action),
        call_ensures(VirtualNetwork::<T, F, C, V>::handle_stack_ingress, (&net, event), step),
    ensures
        captured is Some <==> report is Packet,
        captured matches Some(payload) ==> payload == report->payload,
        action is Ignore <==> report !is Packet,
        step is Stop <==> event == RouteEvent::Received(None),
        step is Receive <==> event is Delivered || (event matches RouteEvent::Received(Some(other))
            && other !is Packet),
        step is Deliver || step is ReportAndReceive <==> event matches RouteEvent::Received(
            Some(IngressEvent::Packet { .. }),
        ),
{
}

/// A new network has nothing registered and no attempt under way; what its stack is to
/// listen on is what was asked for. What it receives goes to the caller exactly if the
/// configuration captures it, else it is to be routed; the other channels are handed
/// out as they came.
pub proof fn new_networks_are_empty<T, F, C, V, I, E, R>(
    net: VirtualNetwork<T, F, C, V>,
    conf: VirtualNetworkConfig,
    ingress: I,
    egress: E,
    receive: R,
    spawned: (VirtualNetwork<T, F, C, V>, NetworkChannels<I, E, R>, Option<I>),
    desc: SocketDesc,
    protocol: Protocol,
    addr: IpAddress,
    port: u16,
    socket: (Protocol, SocketEndpoint),
)
    requires
        call_ensures(VirtualNetwork::<T, F, C, V>::new, (), net),
        call_ensures(
            VirtualNetwork::<T, F, C, V>::spawn::<I, E, R>,
            (&conf, ingress, egress, receive),
            spawned,
        ),
        call_ensures(
            VirtualNetwork::<T, F, C, V>::bind,
            (&net, protocol, addr, port),
            socket,
        ),
    ensures
        net.wf() && entry(net@, desc) is None && net@.held.len() == 0,
        spawned.0.wf() && entry(spawned.0@, desc) is None && spawned.0@.held.len() == 0,
        spawned.1.egress == egress && spawned.1.receive == receive,
        spawned.1.ingress == (if conf.capture_ingress {
            Some(ingress)
        } else {
            None
        }),
        spawned.2 == (if conf.capture_ingress {
            None
        } else {
            Some(ingress)
        }),
        socket.0 == protocol,
        socket.1 matches SocketEndpoint::Ip(endpoint) && endpoint.addr == addr && endpoint.port
            == port,
{
}

/// A connection by itself: a pending one that the stack opened is established with its
/// own channels, any other stays as it is; its channels are those that it holds, and it
/// can tell those who wait exactly while it is pending. A clone has the same parts.
pub proof fn connections_keep_their_channels<T: Clone, F: Clone, C: Clone, V: Clone>(
    conn: &mut Connection<T, F, C, V>,
    vconn: V,
    before: Connection<T, F, C, V>,
    channels: C,
    ready_tx: Option<T>,
    copy: ConnectionState<T, F, C, V>,
)
    requires
        call_ensures(Connection::<T, F, C, V>::establish, (conn, vconn), ()),
        before == *old(conn),
        before.state !is Poisoned,
        call_ensures(Connection::<T, F, C, V>::channels, (&before,), channels),
        call_ensures(Connection::<T, F, C, V>::ready_tx, (&before,), ready_tx),
        cloned(before.state, copy),
    ensures
        match before.state {
            ConnectionState::Pending(pending, of) => {
                &&& final(conn).state matches ConnectionState::Established(now, still)
                &&& now.vconn == vconn && still == of
                &&& cloned(of, channels)
                &&& ready_tx matches Some(tx) && cloned(pending.ready_tx, tx)
                &&& copy matches ConnectionState::Pending(same, with)
                &&& cloned(pending.ready_tx, same.ready_tx) && cloned(pending.ready, same.ready)
                    && cloned(of, with)
            },
            ConnectionState::Established(now, of) => {
                &&& final(conn).state == before.state
                &&& cloned(of, channels)
                &&& ready_tx is None
                &&& copy matches ConnectionState::Established(same, with)
                &&& cloned(now.vconn, same.vconn) && cloned(of, with)
            },
            ConnectionState::Poisoned => true,
        },
{
}

/// The network answers a registration at once or later: later exactly if the connection
/// is pending, and then with what it was registered with. At once it answers with the
/// channels of an established connection, which it says was there, or with those given,
/// under which the connection is then registered; to overwrite, always with those given.
/// Nothing else changes.
pub proof fn registrations_are_answered<T, F: Clone, C: Clone, V>(
    net: &mut Network<T, F, C, V>,
    desc: SocketDesc,
    overwrite: bool,
    fresh: NewChannel<T, F, C>,
    reply: RegisterReply<F, C>,
)
    requires
        old(net).wf(),
        call_ensures(
            Network::<T, F, C, V>::register_as,
            (net, Register { desc }, overwrite, fresh),
            reply,
        ) || !overwrite && call_ensures(
            Network::<T, F, C, V>::register,
            (net, Register { desc }, fresh),
            reply,
        ),
    ensures
        final(net).wf(),
        match reply {
            RegisterReply::Later(ready) => {
                &&& !overwrite
                &&& entry(old(net)@, desc) matches Some(ConnectionState::Pending(pending, _))
                &&& cloned(pending.ready, ready)
                &&& entry(final(net)@, desc) == entry(old(net)@, desc)
            },
            RegisterReply::Now { result: Ok(opened), pending: true } => {
                &&& !overwrite
                &&& entry(old(net)@, desc) matches Some(ConnectionState::Established(_, channels))
                &&& cloned(channels, opened)
                &&& entry(final(net)@, desc) == entry(old(net)@, desc)
            },
            RegisterReply::Now { result: Ok(opened), pending: false } => {
                &&& overwrite || entry(old(net)@, desc) is None
                &&& cloned(fresh.channels, opened)
                &&& entry(final(net)@, desc) matches Some(ConnectionState::Pending(pending, of))
                &&& pending.ready_tx == fresh.ready_tx && pending.ready == fresh.ready && of
                    == fresh.channels
            },
            RegisterReply::Now { result: Err(_), .. } => false,
        },
        others_stay(old(net)@, final(net)@, desc),
        held_stay(old(net)@, final(net)@),
{
    let before = old(net)@;
    let state = ConnectionState::Pending(
        PendingConnection { ready_tx: fresh.ready_tx, ready: fresh.ready },
        fresh.channels,
    );
    lemma_first_free(before.cells, 0);
    lemma_first_free(before.unregister(desc).cells, 0);
    overwriting_leaves_the_new_one(before, desc, state, desc);
    if before.conns.contains_key(desc) {
        assert(before.live(before.conns[desc]));
    }
    assert forall|other: SocketDesc| other != desc implies #[trigger] entry(final(net)@, other)
        == entry(before, other) by {
        registering_adds_one(before, desc, state, other);
        overwriting_leaves_the_new_one(before, desc, state, other);
    }
    assert forall|id: usize| #[trigger] before.held.count(id) > 0 implies final(net)@.cells[id as int]
        == before.cells[id as int] by {
        assert(before.live(id));
    }
}

/// The network replaces and closes connections by their description, and changes nothing
/// else.
pub proof fn messages_replace_and_close<T, F, C: Clone, V>(
    replaced: &mut Network<T, F, C, V>,
    closed: &mut Network<T, F, C, V>,
    desc: SocketDesc,
    fresh: NewChannel<T, F, C>,
    channels: C,
    result: Result<()>,
)
    requires
        old(replaced).wf(),
        old(closed).wf(),
        call_ensures(
            Network::<T, F, C, V>::replace,
            (replaced, Register { desc }, fresh),
            channels,
        ),
        call_ensures(Network::<T, F, C, V>::unregister, (closed, Unregister { desc }), result),
    ensures
        final(replaced).wf(),
        cloned(fresh.channels, channels),
        entry(final(replaced)@, desc) matches Some(ConnectionState::Pending(pending, of))
            && pending.ready_tx == fresh.ready_tx && pending.ready == fresh.ready && of
            == fresh.channels,
        others_stay(old(replaced)@, final(replaced)@, desc),
        final(closed).wf(),
        result is Ok,
        entry(final(closed)@, desc) is None,
        others_stay(old(closed)@, final(closed)@, desc),
{
    let state = ConnectionState::Pending(
        PendingConnection { ready_tx: fresh.ready_tx, ready: fresh.ready },
        fresh.channels,
    );
    overwriting_leaves_the_new_one(old(replaced)@, desc, state, desc);
    assert forall|other: SocketDesc| other != desc implies #[trigger] entry(final(replaced)@, other)
        == entry(old(replaced)@, other) by {
        overwriting_leaves_the_new_one(old(replaced)@, desc, state, other);
    }
    closing_removes_one(old(closed)@, desc, desc);
    assert forall|other: SocketDesc| other != desc implies #[trigger] entry(final(closed)@, other)
        == entry(old(closed)@, other) by {
        closing_removes_one(old(closed)@, desc, other);
    }
}

/// The network behind its messages is the network that it holds: its attempts find what
/// is registered, are given up without a change to it, and it starts empty.
pub proof fn messages_reach_the_network<T, F, C, V, I, E, R>(
    begun: &mut Network<T, F, C, V>,
    given_up: &mut Network<T, F, C, V>,
    net: Network<T, F, C, V>,
    vnet: &VirtualNetwork<T, F, C, V>,
    desc: SocketDesc,
    attempt: ConnectAttempt,
    other_attempt: ConnectAttempt,
    conf: VirtualNetworkConfig,
    ingress: I,
    egress: E,
    receive: R,
    spawned: (Network<T, F, C, V>, NetworkChannels<I, E, R>, Option<I>),
    protocol: Protocol,
    addr: IpAddress,
    port: u16,
    socket: (Protocol, SocketEndpoint),
    outcome: Result<C>,
    reply: (Result<C>, bool),
)
    requires
        old(begun).wf(),
        old(given_up).wf(),
        old(given_up)@.holds(other_attempt.desc(), other_attempt.conn()),
        net.wf(),
        call_ensures(Network::<T, F, C, V>::connect, (begun, Connect { desc }), attempt),
        call_ensures(Network::<T, F, C, V>::abandon, (given_up, other_attempt), ()),
        call_ensures(Network::<T, F, C, V>::vnet, (&net,), vnet),
        call_ensures(
            Network::<T, F, C, V>::spawn::<I, E, R>,
            (&conf, ingress, egress, receive),
            spawned,
        ),
        call_ensures(Network::<T, F, C, V>::bind, (&net, protocol, addr, port), socket),
        call_ensures(waited::<C>, (outcome,), reply),
    ensures
        final(begun).wf(),
        attempt.desc() == desc,
        attempt.conn() is Some <==> entry(old(begun)@, desc) is Some,
        attempt.conn() matches Some(id) ==> id == old(begun)@.conns[desc],
        final(begun)@.holds(attempt.desc(), attempt.conn()),
        final(begun)@.conns == old(begun)@.conns,
        final(begun)@.cells == old(begun)@.cells,
        final(given_up).wf(),
        entry(final(given_up)@, desc) == entry(old(given_up)@, desc),
        vnet.wf(),
        vnet@ == net@,
        spawned.0.wf() && entry(spawned.0@, desc) is None && spawned.0@.held.len() == 0,
        spawned.1.egress == egress && spawned.1.receive == receive,
        spawned.1.ingress == (if conf.capture_ingress {
            Some(ingress)
        } else {
            None
        }),
        spawned.2 == (if conf.capture_ingress {
            None
        } else {
            Some(ingress)
        }),
        socket.0 == protocol,
        socket.1 matches SocketEndpoint::Ip(endpoint) && endpoint.addr == addr && endpoint.port
            == port,
        reply.0 == outcome && reply.1,
{
    abandoning_changes_no_registration(
        old(given_up)@,
        other_attempt.desc(),
        other_attempt.conn(),
        desc,
    );
}

/// What becomes of an attempt behind the messages: as for
/// [`opened_connections_are_sent_from`] where the stack opened the connection that it
/// found, else as for [`failed_attempts_tell_those_who_wait`].
pub proof fn messages_end_attempts<T: Clone, F, C: Clone, V: Clone>(
    net: &mut Network<T, F, C, V>,
    attempt: ConnectAttempt,
    outcome: Result<V>,
    done: ConnectDone<T, C, V>,
    removed: String,
    reason: String,
)
    requires
        old(net).wf(),
        old(net)@.holds(attempt.desc(), attempt.conn()),
        call_ensures(
            Network::<T, F, C, V>::finish_connect,
            (net, attempt, outcome),
            done,
        ),
        call_ensures(SocketDesc::to_text, (attempt.desc(),), removed),
        done.result matches Err(error) ==> call_ensures(Error::to_string, (&error,), reason),
    ensures
        final(net).wf(),
        done.result is Ok <==> attempt.conn() is Some && outcome is Ok,
        done.send is Some <==> done.result is Ok,
        done.result is Ok ==> done.notify is None && match old(
            net,
        )@.cells[attempt.conn()->0 as int]->0.state {
            ConnectionState::Pending(_, channels) => cloned(outcome->Ok_0, (done.send->0).0.vconn)
                && cloned(channels, (done.send->0).1),
            ConnectionState::Established(first, channels) => cloned(
                first.vconn,
                (done.send->0).0.vconn,
            ) && cloned(channels, (done.send->0).1),
            ConnectionState::Poisoned => false,
        },
        done.result is Ok ==> entry(final(net)@, attempt.desc()) == match entry(
            old(net)@,
            attempt.desc(),
        ) {
            Some(ConnectionState::Pending(_, channels)) if old(net)@.conns[attempt.desc()]
                == attempt.conn()->0 => Some(
                ConnectionState::Established(
                    EstablishedConnection { vconn: outcome->Ok_0 },
                    channels,
                ),
            ),
            stays => stays,
        },
        final(net)@.held == match attempt.conn() {
            Some(id) => old(net)@.held.remove(id),
            None => old(net)@.held,
        },
        done.result matches Err(error) ==> {
            &&& attempt.conn() is Some ==> outcome == Err::<V, Error>(error)
            &&& attempt.conn() is None ==> (error matches Error::Network(message) && message@
                == "Connection unexpectedly removed: "@ + removed@)
            &&& entry(final(net)@, attempt.desc()) is None
            &&& match entry(old(net)@, attempt.desc()) {
                Some(ConnectionState::Pending(pending, _)) => {
                    &&& done.notify matches Some((tx, Err(Error::Network(message))))
                    &&& cloned(pending.ready_tx, tx)
                    &&& message@ == "Connection failed: "@ + reason@
                },
                _ => done.notify is None,
            }
        },
        others_stay(old(net)@, final(net)@, attempt.desc()),
{
    let before = old(net)@;
    let desc = attempt.desc();
    failure_removes_one(before, desc, attempt.conn(), desc);
    if let Some(id) = attempt.conn() {
        assert(before.held.count(id) > 0);
        assert(before.live(id));
        if let Ok(vconn) = outcome {
            success_establishes_what_was_found(before, desc, id, vconn, desc);
        }
    }
    assert forall|other: SocketDesc| other != desc implies #[trigger] entry(final(net)@, other)
        == entry(before, other) by {
        failure_removes_one(before, desc, attempt.conn(), other);
        if before.conns.contains_key(other) {
            assert(before.live(before.conns[other]));
        }
        if let Some(id) = attempt.conn() {
            if let Ok(vconn) = outcome {
                success_establishes_what_was_found(before, desc, id, vconn, other);
            }
        }
    }
}

/// From a registration to the first packet: whatever the network held, a connection that
/// is registered to overwrite, connected, and opened by the stack is sent from the
/// channels that were given, and a packet of whatever length that comes in for it goes
/// to those channels.
pub proof fn packets_reach_the_channels_that_were_given<T: Clone, F: Clone, C: Clone, V: Clone>(
    first: &mut Network<T, F, C, V>,
    second: &mut Network<T, F, C, V>,
    third: &mut Network<T, F, C, V>,
    fourth: Network<T, F, C, V>,
    vnet: &VirtualNetwork<T, F, C, V>,
    desc: SocketDesc,
    fresh: NewChannel<T, F, C>,
    reply: RegisterReply<F, C>,
    attempt: ConnectAttempt,
    found: bool,
    vconn: V,
    done: ConnectDone<T, C, V>,
    payload: Vec<u8>,
    step: RouteStep<'_, C>,
)
    requires
        old(first).wf(),
        call_ensures(
            Network::<T, F, C, V>::register_as,
            (first, Register { desc }, true, fresh),
            reply,
        ),
        *old(second) == *final(first),
        call_ensures(Network::<T, F, C, V>::connect, (second, Connect { desc }), attempt),
        call_ensures(ConnectAttempt::found, (&attempt,), found),
        *old(third) == *final(second),
        call_ensures(
            Network::<T, F, C, V>::finish_connect,
            (third, attempt, Ok::<V, Error>(vconn)),
            done,
        ),
        fourth == *final(third),
        call_ensures(Network::<T, F, C, V>::vnet, (&fourth,), vnet),
        call_ensures(
            VirtualNetwork::<T, F, C, V>::handle_stack_ingress,
            (vnet, RouteEvent::Received(Some(IngressEvent::Packet { desc, payload }))),
            step,
        ),
    ensures
        reply matches RegisterReply::Now { result: Ok(opened), pending } && !pending && cloned(
            fresh.channels,
            opened,
        ),
        found,
        done.result is Ok,
        done.send matches Some((to, channels)) && cloned(vconn, to.vconn) && cloned(
            fresh.channels,
            channels,
        ),
        step matches RouteStep::Deliver { channels, payload: what } && *channels == fresh.channels
            && what == payload,
{
    registrations_are_answered(first, desc, true, fresh, reply);
    lemma_first_free(old(first)@.unregister(desc).cells, 0);
    let id = old(second)@.conns[desc];
    assert(old(second)@.live(id));
    assert(final(second)@.live(id));
    success_establishes_what_was_found(old(third)@, desc, id, vconn, desc);
}

/// From a registration to a failure: those who wait for a connection that is registered
/// anew are told by what was given for that, the result is the stack's error, and the
/// next to register gets what they give.
pub proof fn failures_make_room<T: Clone, F: Clone, C: Clone, V: Clone>(
    first: &mut Network<T, F, C, V>,
    second: &mut Network<T, F, C, V>,
    third: &mut Network<T, F, C, V>,
    fourth: &mut Network<T, F, C, V>,
    desc: SocketDesc,
    fresh: NewChannel<T, F, C>,
    reply: RegisterReply<F, C>,
    attempt: ConnectAttempt,
    error: Error,
    reason: String,
    done: ConnectDone<T, C, V>,
    next: NewChannel<T, F, C>,
    next_reply: RegisterReply<F, C>,
)
    requires
        old(first).wf(),
        call_ensures(
            Network::<T, F, C, V>::register_as,
            (first, Register { desc }, true, fresh),
            reply,
        ),
        *old(second) == *final(first),
        call_ensures(Network::<T, F, C, V>::connect, (second, Connect { desc }), attempt),
        *old(third) == *final(second),
        call_ensures(
            Network::<T, F, C, V>::finish_connect,
            (third, attempt, Err::<V, Error>(error)),
            done,
        ),
        call_ensures(Error::to_string, (&error,), reason),
        *old(fourth) == *final(third),
        call_ensures(
            Network::<T, F, C, V>::register,
            (fourth, Register { desc }, next),
            next_reply,
        ),
    ensures
        done.result matches Err(told) && told == error,
        done.send is None,
        done.notify matches Some((tx, Err(Error::Network(message)))) && cloned(fresh.ready_tx, tx)
            && message@ == "Connection failed: "@ + reason@,
        next_reply matches RegisterReply::Now { result: Ok(opened), pending } && !pending && cloned(
            next.channels,
            opened,
        ),
{
    registrations_are_answered(first, desc, true, fresh, reply);
    failure_removes_one(old(third)@, desc, attempt.conn(), desc);
}

/// Who registers while a connection is pending waits with what it was registered with;
/// once it is closed, the next to register gets what they give, and an attempt in
/// between finds nothing and fails.
pub proof fn waiting_and_closing<T: Clone, F: Clone, C: Clone, V: Clone>(
    first: &mut Network<T, F, C, V>,
    second: &mut Network<T, F, C, V>,
    third: &mut Network<T, F, C, V>,
    fourth: &mut Network<T, F, C, V>,
    fifth: &mut Network<T, F, C, V>,
    desc: SocketDesc,
    fresh: NewChannel<T, F, C>,
    reply: RegisterReply<F, C>,
    other: NewChannel<T, F, C>,
    other_reply: RegisterReply<F, C>,
    closed: Result<()>,
    attempt: ConnectAttempt,
    found: bool,
    next: NewChannel<T, F, C>,
    next_reply: RegisterReply<F, C>,
)
    requires
        old(first).wf(),
        call_ensures(
            Network::<T, F, C, V>::register_as,
            (first, Register { desc }, true, fresh),
            reply,
        ),
        *old(second) == *final(first),
        call_ensures(
            Network::<T, F, C, V>::register,
            (second, Register { desc }, other),
            other_reply,
        ),
        *old(third) == *final(second),
        call_ensures(Network::<T, F, C, V>::unregister, (third, Unregister { desc }), closed),
        *old(fourth) == *final(third),
        call_ensures(Network::<T, F, C, V>::connect, (fourth, Connect { desc }), attempt),
        call_ensures(ConnectAttempt::found, (&attempt,), found),
        *old(fifth) == *final(fourth),
        call_ensures(
            Network::<T, F, C, V>::register,
            (fifth, Register { desc }, next),
            next_reply,
        ),
    ensures
        other_reply matches RegisterReply::Later(ready) && cloned(fresh.ready, ready),
        closed is Ok,
        !found,
        next_reply matches RegisterReply::Now { result: Ok(opened), pending } && !pending && cloned(
            next.channels,
            opened,
        ),
{
    registrations_are_answered(first, desc, true, fresh, reply);
    registrations_are_answered(second, desc, false, other, other_reply);
    closing_removes_one(old(third)@, desc, desc);
}

/// Connections are kept apart: whatever is asked of the network about one description,
/// a packet for another goes where it went before.
pub proof fn connections_are_kept_apart<T: Clone, F: Clone, C: Clone, V: Clone>(
    net: &mut Network<T, F, C, V>,
    desc: SocketDesc,
    overwrite: bool,
    fresh: NewChannel<T, F, C>,
    reply: RegisterReply<F, C>,
    closed: Result<()>,
    attempt: ConnectAttempt,
    outcome: Result<V>,
    done: ConnectDone<T, C, V>,
    before: Network<T, F, C, V>,
    vnet_before: &VirtualNetwork<T, F, C, V>,
    after: Network<T, F, C, V>,
    vnet_after: &VirtualNetwork<T, F, C, V>,
    other: SocketDesc,
    payload: Vec<u8>,
    step_before: RouteStep<'_, C>,
    step_after: RouteStep<'_, C>,
)
    requires
        old(net).wf(),
        other != desc,
        before == *old(net),
        after == *final(net),
        ({
            ||| call_ensures(
                Network::<T, F, C, V>::register_as,
                (net, Register { desc }, overwrite, fresh),
                reply,
            )
            ||| call_ensures(Network::<T, F, C, V>::unregister, (net, Unregister { desc }), closed)
            ||| call_ensures(Network::<T, F, C, V>::connect, (net, Connect { desc }), attempt)
            ||| attempt.desc() == desc && old(net)@.holds(desc, attempt.conn()) && call_ensures(
                Network::<T, F, C, V>::finish_connect,
                (net, attempt, outcome),
                done,
            )
            ||| attempt.desc() == desc && old(net)@.holds(desc, attempt.conn()) && call_ensures(
                Network::<T, F, C, V>::abandon,
                (net, attempt),
                (),
            )
        }),
        call_ensures(Network::<T, F, C, V>::vnet, (&before,), vnet_before),
        call_ensures(Network::<T, F, C, V>::vnet, (&after,), vnet_after),
        call_ensures(
            VirtualNetwork::<T, F, C, V>::handle_stack_ingress,
            (vnet_before, RouteEvent::Received(Some(IngressEvent::Packet { desc: other, payload }))),
            step_before,
        ),
        call_ensures(
            VirtualNetwork::<T, F, C, V>::handle_stack_ingress,
            (vnet_after, RouteEvent::Received(Some(IngressEvent::Packet { desc: other, payload }))),
            step_after,
        ),
    ensures
        after.wf(),
        step_before is Deliver <==> step_after is Deliver,
        step_before matches RouteStep::Deliver { channels, payload: packet } ==> {
            &&& step_after matches RouteStep::Deliver { channels: same, payload: again }
            &&& *same == *channels && again == packet
        },
{
    let state = ConnectionState::Pending(
        PendingConnection { ready_tx: fresh.ready_tx, ready: fresh.ready },
        fresh.channels,
    );
    let view = before@;
    registering_adds_one(view, desc, state, other);
    overwriting_leaves_the_new_one(view, desc, state, other);
    closing_removes_one(view, desc, other);
    if view.conns.contains_key(other) {
        assert(view.live(view.conns[other]));
    }
    if view.holds(desc, attempt.conn()) {
        failure_removes_one(view, desc, attempt.conn(), other);
        abandoning_changes_no_registration(view, desc, attempt.conn(), other);
        if let Some(id) = attempt.conn() {
            assert(view.held.count(id) > 0);
            assert(view.live(id));
            if let Ok(vconn) = outcome {
                success_establishes_what_was_found(view, desc, id, vconn, other);
            }
        }
    }
}

} // verus!
