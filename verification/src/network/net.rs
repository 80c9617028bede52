//! The messages that drive the virtual network, and the routes into it.
use vstd::prelude::*;
use crate::addr::{IpAddress, IpEndpoint, Protocol, SocketAddr, SocketDesc, SocketEndpoint};
use crate::error::{Error, Result};
use crate::network::channel::NetworkChannels;
use crate::network::stack::VirtualNetworkConfig;
use crate::network::virt::{
    ends, ConnectAttempt, ConnectDone, ConnectionState, NetworkView, NewChannel, OpenChannel,
    PendingConnection, VirtualNetwork,
};
use crate::table::Table;

verus! {

/// Asks for the channels of a connection, before it is connected.
#[derive(Clone, Copy, Debug)]
pub struct Register {
    pub desc: SocketDesc,
}

/// Asks to close a connection.
#[derive(Clone, Copy, Debug)]
pub struct Unregister {
    pub desc: SocketDesc,
}

/// Asks to establish a connection.
#[derive(Clone, Copy, Debug)]
pub struct Connect {
    pub desc: SocketDesc,
}

/// The answer to [`Register`]: the channels, and whether the connection was there
/// before; at once, or when the waiting is over.
pub enum RegisterReply<F, C> {
    Now { result: Result<C>, pending: bool },
    Later(F),
}

/// The answer to [`Register`] when the waiting is over.
pub fn waited<C>(outcome: Result<C>) -> (reply: (Result<C>, bool))
    ensures
        reply == (outcome, true),
{
    (outcome, true)
}

/// The state that a connection is registered with.
pub open spec fn fresh_state<T, F, C, V>(fresh: NewChannel<T, F, C>) -> ConnectionState<T, F, C, V> {
    ConnectionState::Pending(
        PendingConnection { ready_tx: fresh.ready_tx, ready: fresh.ready },
        fresh.channels,
    )
}

/// Whether `reply` is the answer to a registration, which takes the connections from
/// `before` to `after`. Of a connection that is known already, established or not, the
/// answer says so; a new one is registered with the channels given, which are the answer.
pub open spec fn registers<T, F: Clone, C: Clone, V>(
    before: NetworkView<T, F, C, V>,
    desc: SocketDesc,
    fresh: NewChannel<T, F, C>,
    reply: RegisterReply<F, C>,
    after: NetworkView<T, F, C, V>,
) -> bool {
    match before.state(desc) {
        Some(ConnectionState::Pending(waiting, _)) => {
            &&& after == before
            &&& reply matches RegisterReply::Later(ready) && cloned(waiting.ready, ready)
        },
        Some(ConnectionState::Established(_, channels)) => {
            &&& after == before
            &&& reply matches RegisterReply::Now { result: Ok(opened), pending }
            &&& pending && cloned(channels, opened)
        },
        Some(ConnectionState::Poisoned) => false,
        None => {
            &&& after == before.create(desc, fresh_state(fresh))
            &&& reply matches RegisterReply::Now { result: Ok(opened), pending }
            &&& !pending && cloned(fresh.channels, opened)
        },
    }
}

/// Whether `reply` is the answer to a registration that overwrites: whatever was under
/// the description gives way to a connection with the channels given, which are the
/// answer, and are none of an earlier connection.
pub open spec fn overwrites<T, F, C: Clone, V>(
    before: NetworkView<T, F, C, V>,
    desc: SocketDesc,
    fresh: NewChannel<T, F, C>,
    reply: RegisterReply<F, C>,
    after: NetworkView<T, F, C, V>,
) -> bool {
    &&& after == before.unregister(desc).create(desc, fresh_state(fresh))
    &&& reply matches RegisterReply::Now { result: Ok(opened), pending }
    &&& !pending && cloned(fresh.channels, opened)
}

/// The network behind its messages.
pub struct Network<T, F, C, V> {
    vnet: VirtualNetwork<T, F, C, V>,
}

impl<T, F, C, V> View for Network<T, F, C, V> {
    type V = NetworkView<T, F, C, V>;

    closed spec fn view(&self) -> NetworkView<T, F, C, V> {
        self.vnet@
    }
}

impl<T, F, C, V> Network<T, F, C, V> {
    pub closed spec fn table_wf(&self) -> bool {
        self.vnet.table_wf()
    }

    pub open spec fn wf(&self) -> bool {
        self.table_wf() && self@.wf()
    }

    /// A network without connections, and its channels. The received packets go to
    /// the caller where the configuration captures them; else they are returned
    /// beside the channels, to be routed to the connections.
    pub fn spawn<I, E, R>(
        conf: &VirtualNetworkConfig,
        ingress: I,
        egress: E,
        receive: R,
    ) -> (spawned: (Self, NetworkChannels<I, E, R>, Option<I>))
        ensures
            spawned.0.wf(),
            spawned.0@ == NetworkView::<T, F, C, V>::empty(),
            spawned.1.egress == egress,
            spawned.1.receive == receive,
            conf.capture_ingress ==> spawned.1.ingress == Some(ingress) && spawned.2 is None,
            !conf.capture_ingress ==> spawned.1.ingress is None && spawned.2 == Some(ingress),
    {
        let (vnet, channels, to_route) = VirtualNetwork::spawn(conf, ingress, egress, receive);
        (Network { vnet }, channels, to_route)
    }

    /// The protocol and the endpoint that the stack is to listen on.
    pub fn bind(&self, protocol: Protocol, addr: IpAddress, port: u16) -> (socket: (
        Protocol,
        SocketEndpoint,
    ))
        ensures
            socket == (
                protocol,
                SocketEndpoint::Ip(IpEndpoint { addr, port }),
            ),
    {
        self.vnet.bind(protocol, addr, port)
    }

    /// The connections.
    pub fn vnet(&self) -> (vnet: &VirtualNetwork<T, F, C, V>)
        ensures
            vnet@ == self@,
            self.wf() ==> vnet.wf(),
    {
        &self.vnet
    }

    /// Answers [`Register`].
    pub fn register(&mut self, msg: Register, fresh: NewChannel<T, F, C>) -> (reply: RegisterReply<
        F,
        C,
    >) where F: Clone, C: Clone
        requires
            old(self).wf(),
        ensures
            final(self).wf(),
            registers(old(self)@, msg.desc, fresh, reply, final(self)@),
    {
        match self.vnet.open_channel(msg.desc, fresh) {
            OpenChannel::Wait(ready) => RegisterReply::Later(ready),
            OpenChannel::Ready(channels) => RegisterReply::Now { result: Ok(channels), pending: true },
            OpenChannel::Created(channels) => RegisterReply::Now {
                result: Ok(channels),
                pending: false,
            },
        }
    }

    /// Answers [`Register`] where an earlier connection is to be overwritten: whatever
    /// was under the description gives way to a connection with the channels given,
    /// which are the answer.
    pub fn replace(&mut self, msg: Register, fresh: NewChannel<T, F, C>) -> (channels: C) where
        C: Clone,

        requires
            old(self).wf(),
        ensures
            final(self).wf(),
            final(self)@ == old(self)@.unregister(msg.desc).create(msg.desc, fresh_state(fresh)),
            cloned(fresh.channels, channels),
    {
        self.vnet.replace(msg.desc, fresh)
    }

    /// Answers [`Register`], in place of an earlier connection where `overwrite` says so.
    pub fn register_as(&mut self, msg: Register, overwrite: bool, fresh: NewChannel<T, F, C>) -> (reply:
        RegisterReply<F, C>) where F: Clone, C: Clone
        requires
            old(self).wf(),
        ensures
            final(self).wf(),
            overwrite ==> overwrites(old(self)@, msg.desc, fresh, reply, final(self)@),
            !overwrite ==> registers(old(self)@, msg.desc, fresh, reply, final(self)@),
    {
        if overwrite {
            RegisterReply::Now { result: Ok(self.replace(msg, fresh)), pending: false }
        } else {
            self.register(msg, fresh)
        }
    }

    /// Answers [`Unregister`]: the connection is closed, if there is one.
    pub fn unregister(&mut self, msg: Unregister) -> (result: Result<()>)
        requires
            old(self).wf(),
        ensures
            final(self).wf(),
            final(self)@ == old(self)@.unregister(msg.desc),
            result == Ok::<(), Error>(()),
    {
        self.vnet.close_channel(msg.desc)
    }

    /// Begins what [`Connect`] asks for.
    pub fn connect(&mut self, msg: Connect) -> (attempt: ConnectAttempt)
        requires
            old(self).wf(),
        ensures
            final(self).wf(),
            final(self)@ == old(self)@.begin(msg.desc),
            attempt.desc() == msg.desc,
            attempt.conn() == if old(self)@.conns.contains_key(msg.desc) {
                Some(old(self)@.conns[msg.desc])
            } else {
                None
            },
            final(self)@.holds(attempt.desc(), attempt.conn()),
    {
        self.vnet.connect(msg.desc)
    }

    /// Ends what [`Connect`] asked for; see [`VirtualNetwork::finish_connect`].
    pub fn finish_connect(&mut self, attempt: ConnectAttempt, outcome: Result<V>) -> (done:
        ConnectDone<T, C, V>) where T: Clone, C: Clone, V: Clone
        requires
            old(self).wf(),
            old(self)@.holds(attempt.desc(), attempt.conn()),
        ensures
            final(self).wf(),
            ends(old(self)@, attempt.desc(), attempt.conn(), outcome, done, final(self)@),
    {
        self.vnet.finish_connect(attempt, outcome)
    }
}

impl<T, F, C, V> Network<T, F, C, V> {
    /// Gives up what [`Connect`] asked for; see [`VirtualNetwork::abandon`].
    pub fn abandon(&mut self, attempt: ConnectAttempt)
        requires
            old(self).wf(),
            old(self)@.holds(attempt.desc(), attempt.conn()),
        ensures
            final(self).wf(),
            final(self)@ == old(self)@.release(attempt.conn()),
    {
        self.vnet.abandon(attempt)
    }
}

/// Where the connections to a local socket are forwarded to.
pub struct Routes {
    routes: Table<SocketAddr, SocketAddr>,
}

impl View for Routes {
    type V = Map<SocketAddr, SocketAddr>;

    closed spec fn view(&self) -> Map<SocketAddr, SocketAddr> {
        self.routes@
    }
}

impl Default for Routes {
    fn default() -> (routes: Self)
        ensures
            routes.wf(),
            routes@ == Map::<SocketAddr, SocketAddr>::empty(),
    {
        Routes { routes: Table::new() }
    }
}

impl Routes {
    pub closed spec fn wf(&self) -> bool {
        self.routes.wf()
    }

    /// Where the connections to `listen` go.
    pub fn get(&self, listen: SocketAddr) -> (to: Option<SocketAddr>)
        requires
            self.wf(),
        ensures
            to == if self@.contains_key(listen) {
                Some(self@[listen])
            } else {
                None
            },
    {
        match self.routes.get(&listen) {
            Some(to) => Some(*to),
            None => None,
        }
    }

    /// Forwards the connections to `listen` from now on to `to`.
    pub fn add(&mut self, listen: SocketAddr, to: SocketAddr)
        requires
            old(self).wf(),
        ensures
            final(self).wf(),
            final(self)@ == old(self)@.insert(listen, to),
    {
        self.routes.insert(listen, to);
    }

    /// Forwards the connections to `listen` no longer. Returns where they went.
    pub fn remove(&mut self, listen: SocketAddr) -> (to: Option<SocketAddr>)
        requires
            old(self).wf(),
        ensures
            final(self).wf(),
            final(self)@ == old(self)@.remove(listen),
            to == if old(self)@.contains_key(listen) {
                Some(old(self)@[listen])
            } else {
                None
            },
    {
        self.routes.remove(&listen)
    }
}

/// A route leads where it was last set to lead, other routes stay, and a route
/// that was removed leads nowhere.
pub proof fn routes_lead_where_they_were_set(
    routes: Map<SocketAddr, SocketAddr>,
    listen: SocketAddr,
    first: SocketAddr,
    to: SocketAddr,
    other: SocketAddr,
)
    ensures
        routes.insert(listen, first).insert(listen, to)[listen] == to,
        routes.insert(listen, to).contains_key(listen),
        !routes.insert(listen, to).remove(listen).contains_key(listen),
        other != listen ==> routes.insert(listen, to).contains_key(other) == routes.contains_key(
            other,
        ) && routes.insert(listen, to).remove(listen).contains_key(other) == routes.contains_key(
            other,
        ),
        other != listen && routes.contains_key(other) ==> routes.insert(listen, to)[other]
            == routes[other] && routes.remove(listen)[other] == routes[other],
{
}

/// What routes give, call by call: none at first; after a route was set it leads where it
/// was set to, and any other where it led before; and after one was removed, which gives
/// where it led, it leads nowhere, and any other where it led before.
pub proof fn routes_give_what_was_set(
    empty: Routes,
    set: &mut Routes,
    cut: &mut Routes,
    listen: SocketAddr,
    to: SocketAddr,
    removed: Option<SocketAddr>,
    asked: SocketAddr,
    of_empty: Option<SocketAddr>,
    before: Routes,
    of_before: Option<SocketAddr>,
    after_set: Routes,
    of_set: Option<SocketAddr>,
    after_cut: Routes,
    of_cut: Option<SocketAddr>,
)
    requires
        call_ensures(Routes::default, (), empty),
        call_ensures(Routes::get, (&empty, asked), of_empty),
        before.wf(),
        before == *old(set),
        before == *old(cut),
        call_ensures(Routes::get, (&before, asked), of_before),
        call_ensures(Routes::add, (set, listen, to), ()),
        after_set == *final(set),
        call_ensures(Routes::get, (&after_set, asked), of_set),
        call_ensures(Routes::remove, (cut, listen), removed),
        after_cut == *final(cut),
        call_ensures(Routes::get, (&after_cut, asked), of_cut),
    ensures
        empty.wf() && of_empty is None,
        after_set.wf() && after_cut.wf(),
        asked == listen ==> of_set == Some(to) && of_cut is None && removed == of_before,
        asked != listen ==> of_set == of_before && of_cut == of_before,
{
}

} // verus!
