//! What holds of the virtual network's connections from one call to the next.
use vstd::prelude::*;
use crate::addr::SocketDesc;
use crate::error::Result;
use crate::network::virt::{
    ends, failed_message, lemma_first_free, routes, ConnectDone, ConnectionState,
    EstablishedConnection, IngressEvent, NetworkView, PendingConnection, RouteEvent, RouteStep,
};

verus! {

/// Whether an attempt that found the connection `id` can still be ended after
/// another attempt was.
pub open spec fn holds_apart_from<T, F, C, V>(
    net: NetworkView<T, F, C, V>,
    desc: SocketDesc,
    conn: Option<usize>,
    other: Option<usize>,
) -> bool {
    &&& net.holds(desc, conn)
    &&& conn is Some && conn == other ==> net.held.count(conn->0) > 1
}

/// Registering a connection leaves it under its description and changes no other.
pub proof fn registering_adds_one<T, F, C, V>(
    net: NetworkView<T, F, C, V>,
    desc: SocketDesc,
    state: ConnectionState<T, F, C, V>,
    other: SocketDesc,
)
    requires
        net.wf(),
    ensures
        net.create(desc, state).state(desc) == Some(state),
        other != desc ==> net.create(desc, state).state(other) == net.state(other),
{
    lemma_first_free(net.cells, 0);
    if net.conns.contains_key(other) {
        assert(net.live(net.conns[other]));
    }
}

/// Beginning an attempt changes no connection.
pub proof fn beginning_changes_nothing<T, F, C, V>(
    net: NetworkView<T, F, C, V>,
    desc: SocketDesc,
    other: SocketDesc,
)
    ensures
        net.begin(desc).state(other) == net.state(other),
{
}

/// An attempt that succeeds establishes the connection that it found, under its
/// description if it is still registered there, and changes no other.
pub proof fn success_establishes_what_was_found<T, F, C, V>(
    net: NetworkView<T, F, C, V>,
    desc: SocketDesc,
    id: usize,
    vconn: V,
    other: SocketDesc,
)
    requires
        net.wf(),
        net.holds(desc, Some(id)),
    ensures
        net.conns.contains_key(desc) && net.conns[desc] == id ==> net.establish(id, vconn).release(
            Some(id),
        ).state(desc) == Some(net.state(desc)->0.establish(vconn)),
        !(net.conns.contains_key(other) && net.conns[other] == id) ==> net.establish(
            id,
            vconn,
        ).release(Some(id)).state(other) == net.state(other),
{
    assert(net.held.count(id) > 0);
    assert(net.live(id));
    if net.conns.contains_key(desc) {
        assert(net.live(net.conns[desc]));
    }
    if net.conns.contains_key(other) {
        assert(net.live(net.conns[other]));
    }
}

/// After an attempt that failed nothing is registered under its description, and
/// no other connection has changed.
pub proof fn failure_removes_one<T, F, C, V>(
    net: NetworkView<T, F, C, V>,
    desc: SocketDesc,
    conn: Option<usize>,
    other: SocketDesc,
)
    requires
        net.wf(),
        net.holds(desc, conn),
    ensures
        net.unregister(desc).release(conn).state(desc) is None,
        other != desc ==> net.unregister(desc).release(conn).state(other) == net.state(other),
{
    if net.conns.contains_key(other) {
        assert(net.live(net.conns[other]));
    }
    if net.conns.contains_key(desc) {
        assert(net.live(net.conns[desc]));
    }
    if let Some(id) = conn {
        assert(net.held.count(id) > 0);
        assert(net.live(id));
    }
}

/// Registering a connection in place of an earlier one leaves the new one under the
/// description, whatever was there, and changes no other.
pub proof fn overwriting_leaves_the_new_one<T, F, C, V>(
    net: NetworkView<T, F, C, V>,
    desc: SocketDesc,
    state: ConnectionState<T, F, C, V>,
    other: SocketDesc,
)
    requires
        net.wf(),
    ensures
        net.unregister(desc).create(desc, state).state(desc) == Some(state),
        other != desc ==> net.unregister(desc).create(desc, state).state(other) == net.state(other),
{
    lemma_first_free(net.unregister(desc).cells, 0);
    if net.conns.contains_key(desc) {
        assert(net.live(net.conns[desc]));
    }
    if net.conns.contains_key(other) {
        assert(net.live(net.conns[other]));
    }
}

/// After a connection was closed nothing is registered under its description, and no
/// other connection has changed. It is dropped, and with it what those who wait for it
/// would be told by, unless an attempt still holds it.
pub proof fn closing_removes_one<T, F, C, V>(
    net: NetworkView<T, F, C, V>,
    desc: SocketDesc,
    other: SocketDesc,
)
    requires
        net.wf(),
    ensures
        net.unregister(desc).state(desc) is None,
        other != desc ==> net.unregister(desc).state(other) == net.state(other),
        net.conns.contains_key(desc) ==> net.unregister(desc).live(net.conns[desc]) == (
        net.held.count(net.conns[desc]) > 0),
{
    if net.conns.contains_key(desc) {
        assert(net.live(net.conns[desc]));
    }
    if net.conns.contains_key(other) {
        assert(net.live(net.conns[other]));
    }
}

/// Giving an attempt up changes no registered connection; the one that it held is
/// dropped if it is not registered and no other attempt holds it.
pub proof fn abandoning_changes_no_registration<T, F, C, V>(
    net: NetworkView<T, F, C, V>,
    desc: SocketDesc,
    conn: Option<usize>,
    other: SocketDesc,
)
    requires
        net.wf(),
        net.holds(desc, conn),
    ensures
        net.release(conn).state(other) == net.state(other),
        conn matches Some(id) ==> net.release(conn).live(id) == (net.held.count(id) > 1 || (
        net.conns.contains_key(desc) && net.conns[desc] == id)),
{
    if let Some(id) = conn {
        assert(net.held.count(id) > 0);
        assert(net.live(id));
    }
    if net.conns.contains_key(other) {
        assert(net.live(net.conns[other]));
    }
}

/// A connection that is registered, in place of an earlier one or not, found by an
/// attempt and opened by the stack is established, with the channels that it was
/// registered with.
pub proof fn registered_channels_are_the_established_ones<T, F, C, V>(
    net: NetworkView<T, F, C, V>,
    desc: SocketDesc,
    pending: PendingConnection<T, F>,
    channels: C,
    vconn: V,
)
    requires
        net.wf(),
    ensures
        ({
            let registered = net.unregister(desc).create(
                desc,
                ConnectionState::Pending(pending, channels),
            );
            let begun = registered.begin(desc);
            let id = registered.conns[desc];
            begun.establish(id, vconn).release(Some(id)).state(desc) == Some(
                ConnectionState::<T, F, C, V>::Established(EstablishedConnection { vconn }, channels),
            )
        }),
{
    let cleared = net.unregister(desc);
    lemma_first_free(cleared.cells, 0);
    let registered = cleared.create(desc, ConnectionState::Pending(pending, channels));
    let id = registered.conns[desc];
    let done = registered.begin(desc).establish(id, vconn).release(Some(id));
    assert(registered.cells[id as int] is Some);
    assert(done.conns[desc] == id);
}

/// An established connection stays as it is: a later success on it changes
/// neither the stack's connection nor the channels.
pub proof fn first_success_wins<T, F, C, V>(
    state: ConnectionState<T, F, C, V>,
    first: V,
    second: V,
)
    ensures
        state.establish(first).establish(second) == state.establish(first),
        state is Established ==> state.establish(first) == state,
{
}

/// Establishing a connection keeps its channels.
pub proof fn establishing_keeps_channels<T, F, C, V>(state: ConnectionState<T, F, C, V>, vconn: V)
    requires
        state !is Poisoned,
    ensures
        state.establish(vconn) is Established,
        state.establish(vconn).channels() == state.channels(),
{
}

/// While no attempt is under way, every connection that is kept is registered.
pub proof fn nothing_outlives_its_registration<T, F, C, V>(
    net: NetworkView<T, F, C, V>,
    id: usize,
)
    requires
        net.wf(),
        forall|other: usize| net.held.count(other) == 0,
        net.live(id),
    ensures
        exists|desc: SocketDesc| #[trigger]
            net.conns.contains_key(desc) && net.conns[desc] == id,
{
    assert(net.referred(id));
    assert(net.held.count(id) == 0);
    assert(net.conns.contains_key(net.cells[id as int]->0.desc));
}

/// No two descriptions lead to one connection.
pub proof fn connections_are_not_shared<T, F, C, V>(
    net: NetworkView<T, F, C, V>,
    a: SocketDesc,
    b: SocketDesc,
)
    requires
        net.wf(),
        net.conns.contains_key(a),
        net.conns.contains_key(b),
        net.conns[a] == net.conns[b],
    ensures
        a == b,
{
}

/// An attempt under way keeps its connection, whatever else happens: another
/// connection is registered, overwritten or closed, or another attempt begins,
/// succeeds, fails or is given up.
pub proof fn attempts_keep_their_connection<T, F, C, V>(
    net: NetworkView<T, F, C, V>,
    desc: SocketDesc,
    conn: Option<usize>,
    other: SocketDesc,
    other_conn: Option<usize>,
    state: ConnectionState<T, F, C, V>,
    vconn: V,
)
    requires
        net.wf(),
        holds_apart_from(net, desc, conn, other_conn),
        net.holds(other, other_conn),
    ensures
        net.create(other, state).holds(desc, conn),
        net.begin(other).holds(desc, conn),
        other_conn matches Some(id) ==> net.establish(id, vconn).release(other_conn).holds(
            desc,
            conn,
        ),
        net.unregister(other).release(other_conn).holds(desc, conn),
        net.unregister(other).holds(desc, conn),
        net.unregister(other).create(other, state).holds(desc, conn),
        net.release(other_conn).holds(desc, conn),
{
    lemma_first_free(net.cells, 0);
    lemma_first_free(net.unregister(other).cells, 0);
    if let Some(id) = conn {
        assert(net.held.count(id) > 0);
        assert(net.live(id));
    }
    if let Some(id) = other_conn {
        assert(net.held.count(id) > 0);
        assert(net.live(id));
    }
    if net.conns.contains_key(other) {
        assert(net.live(net.conns[other]));
    }
}

/// What those who wait for the connection wait with, while it is pending.
pub open spec fn waiting<T, F, C, V>(net: NetworkView<T, F, C, V>, id: usize) -> Option<
    PendingConnection<T, F>,
> {
    if net.live(id) {
        match net.cells[id as int]->0.state {
            ConnectionState::Pending(pending, _) => Some(pending),
            _ => None,
        }
    } else {
        None
    }
}

/// All who wait for a connection wait with the same: whatever happens, it stays as it
/// was registered for as long as the connection is pending. So all of them see one
/// outcome.
pub proof fn all_wait_with_the_same<T, F, C, V>(
    net: NetworkView<T, F, C, V>,
    id: usize,
    desc: SocketDesc,
    conn: Option<usize>,
    state: ConnectionState<T, F, C, V>,
    vconn: V,
)
    requires
        net.wf(),
        net.live(id),
        net.holds(desc, conn),
    ensures
        waiting(net.create(desc, state), id) == waiting(net, id),
        waiting(net.begin(desc), id) == waiting(net, id),
        ({
            let after = net.release(conn);
            waiting(after, id) is Some ==> waiting(after, id) == waiting(net, id)
        }),
        ({
            let after = net.unregister(desc);
            waiting(after, id) is Some ==> waiting(after, id) == waiting(net, id)
        }),
        ({
            let after = net.unregister(desc).release(conn);
            waiting(after, id) is Some ==> waiting(after, id) == waiting(net, id)
        }),
        conn matches Some(found) ==> ({
            let after = net.establish(found, vconn).release(conn);
            waiting(after, id) is Some ==> waiting(after, id) == waiting(net, id)
        }),
{
    lemma_first_free(net.cells, 0);
    if let Some(found) = conn {
        assert(net.held.count(found) > 0);
        assert(net.live(found));
    }
    if net.conns.contains_key(desc) {
        assert(net.live(net.conns[desc]));
    }
}

/// Whether the connection is registered under `desc`, and is waited for with `pending`.
pub open spec fn awaited<T, F, C, V>(
    net: NetworkView<T, F, C, V>,
    desc: SocketDesc,
    id: usize,
    pending: PendingConnection<T, F>,
) -> bool {
    &&& net.conns.contains_key(desc)
    &&& net.conns[desc] == id
    &&& waiting(net, id) == Some(pending)
}

/// A connection that is waited for stays registered and pending until its own time
/// comes: neither the attempts that begin or are given up, nor what is registered, closed or fails under
/// another description, nor the success of an attempt that found another connection
/// changes that.
pub proof fn waiting_lasts_until_its_end<T, F, C, V>(
    net: NetworkView<T, F, C, V>,
    desc: SocketDesc,
    id: usize,
    pending: PendingConnection<T, F>,
    other: SocketDesc,
    conn: Option<usize>,
    state: ConnectionState<T, F, C, V>,
    vconn: V,
)
    requires
        net.wf(),
        awaited(net, desc, id, pending),
        net.holds(other, conn),
    ensures
        awaited(net.begin(other), desc, id, pending),
        awaited(net.release(conn), desc, id, pending),
        other != desc ==> {
            &&& awaited(net.create(other, state), desc, id, pending)
            &&& awaited(net.unregister(other), desc, id, pending)
            &&& awaited(net.unregister(other).create(other, state), desc, id, pending)
            &&& awaited(net.unregister(other).release(conn), desc, id, pending)
        },
        conn matches Some(found) ==> found != id ==> awaited(
            net.establish(found, vconn).release(conn),
            desc,
            id,
            pending,
        ),
{
    lemma_first_free(net.cells, 0);
    lemma_first_free(net.unregister(other).cells, 0);
    if let Some(found) = conn {
        assert(net.held.count(found) > 0);
        assert(net.live(found));
    }
    if net.conns.contains_key(other) {
        assert(net.live(net.conns[other]));
    }
}

/// Nobody waits in vain. Once an attempt has ended:
/// - if the stack opened the connection that it found, that one is pending no more, and
///   nobody is told, so that all who waited learn that there is nobody left to tell
///   them; what is to be sent is then sent from its channels, and only then;
/// - if it failed, all who wait for the connection under its description are told of
///   the failure, by what was registered for that;
/// - the connection that it found is not registered as pending any more, and is pending
///   at all only while another attempt holds it.
pub proof fn ended_attempts_resolve_those_who_wait<T: Clone, F, C: Clone, V: Clone>(
    before: NetworkView<T, F, C, V>,
    desc: SocketDesc,
    conn: Option<usize>,
    outcome: Result<V>,
    done: ConnectDone<T, C, V>,
    after: NetworkView<T, F, C, V>,
    id: usize,
    pending: PendingConnection<T, F>,
)
    requires
        before.wf(),
        before.holds(desc, conn),
        ends(before, desc, conn, outcome, done, after),
    ensures
        done.result is Ok <==> conn is Some && outcome is Ok,
        done.result is Ok ==> waiting(after, conn->0) is None && done.notify is None,
        done.result is Ok <==> done.send is Some,
        done.send matches Some((to, from)) ==> match before.cells[conn->0 as int]->0.state {
            ConnectionState::Pending(_, channels) => cloned(outcome->Ok_0, to.vconn) && cloned(
                channels,
                from,
            ),
            ConnectionState::Established(first, channels) => cloned(first.vconn, to.vconn) && cloned(
                channels,
                from,
            ),
            ConnectionState::Poisoned => false,
        },
        done.result matches Err(error) ==> awaited(before, desc, id, pending) ==> {
            &&& done.notify matches Some(notify)
            &&& cloned(pending.ready_tx, notify.0)
            &&& notify.1 matches Err(told)
            &&& told.says(failed_message(error))
        },
        conn matches Some(found) ==> waiting(after, found) is Some ==> {
            &&& !after.conns.contains_key(desc)
            &&& after.held.count(found) > 0
            &&& before.held.count(found) > 1
        },
{
    if let Some(found) = conn {
        assert(before.held.count(found) > 0);
        assert(before.live(found));
    }
    if before.conns.contains_key(desc) {
        assert(before.live(before.conns[desc]));
    }
}

/// Routing ends with its source and no sooner, whatever became of a packet. A packet goes
/// to the established connection under its description, exactly if there is one.
pub proof fn routing_lasts_as_long_as_its_source<T, F, C, V>(
    net: NetworkView<T, F, C, V>,
    event: RouteEvent,
    step: RouteStep<'_, C>,
)
    requires
        routes(net, event, step),
    ensures
        step is Stop <==> event == RouteEvent::Received(None),
        event is Delivered ==> step is Receive,
        step matches RouteStep::Deliver { channels, payload } ==> {
            &&& event matches RouteEvent::Received(Some(IngressEvent::Packet { desc, payload: packet }))
            &&& packet == payload
            &&& net.state(desc) matches Some(ConnectionState::Established(_, of))
            &&& of == *channels
        },
        event matches RouteEvent::Received(Some(IngressEvent::Packet { desc, payload })) ==> match net.state(
            desc,
        ) {
            Some(ConnectionState::Established(_, of)) => {
                &&& step matches RouteStep::Deliver { channels, payload: packet }
                &&& *channels == of && packet == payload
            },
            _ => step matches RouteStep::ReportAndReceive { desc: unknown } && unknown == desc,
        },
{
}

} // verus!
