//! The virtual network's connections.
//!
//! A connection is registered under its socket description before it is
//! established, so that traffic of the link layer can pass first. The channels,
//! the sockets and the waiting are left to the caller, in the types `T` (tells
//! those who wait that a connection is ready), `F` (waits for it), `C` (the
//! channels of a connection) and `V` (a connection of the network stack).
use vstd::prelude::*;
use vstd::multiset::Multiset;
use crate::addr::{IpAddress, IpEndpoint, Protocol, SocketDesc, SocketEndpoint};
use crate::error::{Error, Result};
use crate::network::channel::{network_channels, NetworkChannels};
use crate::network::stack::VirtualNetworkConfig;
use crate::table::Table;
use crate::text::join;

verus! {

broadcast use vstd::seq_lib::group_to_multiset_ensures;

/// A connection that is registered and not yet established.
pub struct PendingConnection<T, F> {
    pub ready_tx: T,
    pub ready: F,
}

/// A connection that the network stack has opened.
pub struct EstablishedConnection<V> {
    pub vconn: V,
}

/// Where a connection stands. `Poisoned` is what is left behind while the state
/// changes hands.
pub enum ConnectionState<T, F, C, V> {
    Pending(PendingConnection<T, F>, C),
    Established(EstablishedConnection<V>, C),
    Poisoned,
}

pub struct Connection<T, F, C, V> {
    pub state: ConnectionState<T, F, C, V>,
}

impl<T: Clone, F: Clone> Clone for PendingConnection<T, F> {
    fn clone(&self) -> (copy: Self)
        ensures
            cloned(self.ready_tx, copy.ready_tx),
            cloned(self.ready, copy.ready),
    {
        PendingConnection { ready_tx: self.ready_tx.clone(), ready: self.ready.clone() }
    }
}

impl<V: Clone> Clone for EstablishedConnection<V> {
    fn clone(&self) -> (copy: Self)
        ensures
            cloned(self.vconn, copy.vconn),
    {
        EstablishedConnection { vconn: self.vconn.clone() }
    }
}

impl<T: Clone, F: Clone, C: Clone, V: Clone> Clone for ConnectionState<T, F, C, V> {
    fn clone(&self) -> (copy: Self)
        ensures
            match *self {
                ConnectionState::Pending(pending, channels) => {
                    &&& copy matches ConnectionState::Pending(to, with)
                    &&& cloned(pending, to) && cloned(channels, with)
                },
                ConnectionState::Established(established, channels) => {
                    &&& copy matches ConnectionState::Established(to, with)
                    &&& cloned(established, to) && cloned(channels, with)
                },
                ConnectionState::Poisoned => copy is Poisoned,
            },
    {
        match self {
            ConnectionState::Pending(pending, channels) => ConnectionState::Pending(
                pending.clone(),
                channels.clone(),
            ),
            ConnectionState::Established(established, channels) => ConnectionState::Established(
                established.clone(),
                channels.clone(),
            ),
            ConnectionState::Poisoned => ConnectionState::Poisoned,
        }
    }
}

impl<T, F, C, V> ConnectionState<T, F, C, V> {
    /// The state after the stack opened `vconn`: a pending connection becomes
    /// established with its channels, any other state stays.
    pub open spec fn establish(self, vconn: V) -> Self {
        match self {
            ConnectionState::Pending(_, channels) => ConnectionState::Established(
                EstablishedConnection { vconn },
                channels,
            ),
            state => state,
        }
    }

    /// The channels of a connection that is not poisoned.
    pub open spec fn channels(self) -> C
        recommends
            self !is Poisoned,
    {
        match self {
            ConnectionState::Pending(_, channels) => channels,
            ConnectionState::Established(_, channels) => channels,
            ConnectionState::Poisoned => arbitrary(),
        }
    }
}

impl<T, F, C, V> Connection<T, F, C, V> {
    /// The channels of the connection.
    pub fn channels(&self) -> (channels: C) where C: Clone
        requires
            self.state !is Poisoned,
        ensures
            cloned(self.state.channels(), channels),
    {
        match &self.state {
            ConnectionState::Pending(_, channels) => channels.clone(),
            ConnectionState::Established(_, channels) => channels.clone(),
            ConnectionState::Poisoned => vstd::pervasive::unreached(),
        }
    }

    /// What tells those who wait for the connection; only a pending one has it.
    pub fn ready_tx(&self) -> (ready_tx: Option<T>) where T: Clone
        ensures
            match self.state {
                ConnectionState::Pending(pending, _) => {
                    ready_tx matches Some(tx) && cloned(pending.ready_tx, tx)
                },
                _ => ready_tx is None,
            },
    {
        match &self.state {
            ConnectionState::Pending(pending, _) => Some(pending.ready_tx.clone()),
            _ => None,
        }
    }

    /// Establishes a pending connection.
    pub fn establish(&mut self, vconn: V)
        ensures
            final(self).state == old(self).state.establish(vconn),
    {
        let mut state = ConnectionState::Poisoned;
        core::mem::swap(&mut state, &mut self.state);
        self.state = match state {
            ConnectionState::Pending(_, channels) => ConnectionState::Established(
                EstablishedConnection { vconn },
                channels,
            ),
            state => state,
        };
    }
}

/// A connection beside the description that it was registered under.
struct Cell<T, F, C, V> {
    desc: SocketDesc,
    conn: Connection<T, F, C, V>,
}

/// A connection as a value: its description and its state.
pub struct Registered<T, F, C, V> {
    pub desc: SocketDesc,
    pub state: ConnectionState<T, F, C, V>,
}

/// The connections of a virtual network as a value. A description in `conns`
/// leads to a connection by its number in `cells`; `held` counts the attempts to
/// connect that still refer to a connection. A connection lives while either
/// refers to it, so one that was taken out of `conns` can still be established by
/// an attempt that began before.
#[verifier::ext_equal]
#[verifier::reject_recursive_types(T)]
#[verifier::reject_recursive_types(F)]
#[verifier::reject_recursive_types(C)]
#[verifier::reject_recursive_types(V)]
pub struct NetworkView<T, F, C, V> {
    pub conns: Map<SocketDesc, usize>,
    pub cells: Seq<Option<Registered<T, F, C, V>>>,
    pub held: Multiset<usize>,
}

/// The first number from `from` on that no connection has.
pub open spec fn first_free<A>(cells: Seq<Option<A>>, from: int) -> int
    decreases cells.len() - from,
{
    if from >= cells.len() {
        cells.len() as int
    } else if cells[from] is None {
        from
    } else {
        first_free(cells, from + 1)
    }
}

impl<T, F, C, V> NetworkView<T, F, C, V> {
    pub open spec fn empty() -> Self {
        NetworkView { conns: Map::empty(), cells: Seq::empty(), held: Multiset::empty() }
    }

    pub open spec fn live(self, id: usize) -> bool {
        id < self.cells.len() && self.cells[id as int] is Some
    }

    /// Whether anything refers to the connection with this number.
    pub open spec fn referred(self, id: usize) -> bool {
        ||| self.held.count(id) > 0
        ||| self.live(id) && self.conns.contains_key(self.cells[id as int]->0.desc)
            && self.conns[self.cells[id as int]->0.desc] == id
    }

    /// Every reference leads to a connection, the table's under the right
    /// description, and no connection is poisoned.
    pub open spec fn references_lead(self) -> bool {
        &&& self.cells.len() <= usize::MAX
        &&& forall|desc: SocketDesc| #[trigger]
            self.conns.contains_key(desc) ==> self.live(self.conns[desc])
                && self.cells[self.conns[desc] as int]->0.desc == desc
        &&& forall|id: usize| #[trigger] self.held.count(id) > 0 ==> self.live(id)
        &&& forall|id: usize| #[trigger]
            self.live(id) ==> self.cells[id as int]->0.state !is Poisoned
    }

    /// Every reference leads to a connection, and no connection lives without one.
    pub open spec fn wf(self) -> bool {
        &&& self.references_lead()
        &&& forall|id: usize| #[trigger] self.live(id) ==> self.referred(id)
    }

    /// The state of the connection that is registered under `desc`.
    pub open spec fn state(self, desc: SocketDesc) -> Option<ConnectionState<T, F, C, V>> {
        if self.conns.contains_key(desc) {
            Some(self.cells[self.conns[desc] as int]->0.state)
        } else {
            None
        }
    }

    /// After a connection was registered under `desc`.
    pub open spec fn create(self, desc: SocketDesc, state: ConnectionState<T, F, C, V>) -> Self {
        let id = first_free(self.cells, 0);
        let cell = Some(Registered { desc, state });
        NetworkView {
            conns: self.conns.insert(desc, id as usize),
            cells: if id < self.cells.len() {
                self.cells.update(id, cell)
            } else {
                self.cells.push(cell)
            },
            held: self.held,
        }
    }

    /// Whether an attempt with these parts refers to a connection of the network.
    pub open spec fn holds(self, desc: SocketDesc, conn: Option<usize>) -> bool {
        conn matches Some(id) ==> self.held.count(id) > 0 && self.cells[id as int]->0.desc == desc
    }

    /// After an attempt to connect `desc` began.
    pub open spec fn begin(self, desc: SocketDesc) -> Self {
        if self.conns.contains_key(desc) {
            NetworkView { held: self.held.insert(self.conns[desc]), ..self }
        } else {
            self
        }
    }

    /// After a connection was dropped, if nothing refers to it.
    pub open spec fn collect(self, id: usize) -> Self {
        if self.live(id) && !self.referred(id) {
            NetworkView { cells: self.cells.update(id as int, None), ..self }
        } else {
            self
        }
    }

    /// After an attempt let go of its connection.
    pub open spec fn release(self, conn: Option<usize>) -> Self {
        match conn {
            Some(id) => NetworkView { held: self.held.remove(id), ..self }.collect(id),
            None => self,
        }
    }

    /// After the connection was established.
    pub open spec fn establish(self, id: usize, vconn: V) -> Self {
        let cell = self.cells[id as int]->0;
        NetworkView {
            cells: self.cells.update(
                id as int,
                Some(Registered { desc: cell.desc, state: cell.state.establish(vconn) }),
            ),
            ..self
        }
    }

    /// After the description was taken out of the table.
    pub open spec fn unregister(self, desc: SocketDesc) -> Self {
        if self.conns.contains_key(desc) {
            NetworkView { conns: self.conns.remove(desc), ..self }.collect(self.conns[desc])
        } else {
            self
        }
    }
}

/// The number is free, and none before it is.
pub(crate) proof fn lemma_first_free<A>(cells: Seq<Option<A>>, from: int)
    requires
        0 <= from <= cells.len(),
    ensures
        from <= first_free(cells, from) <= cells.len(),
        first_free(cells, from) < cells.len() ==> cells[first_free(cells, from)] is None,
        forall|i: int| from <= i < first_free(cells, from) ==> cells[i] is Some,
    decreases cells.len() - from,
{
    if from < cells.len() && cells[from] is Some {
        lemma_first_free(cells, from + 1);
    }
}

impl<T, F, C, V> NetworkView<T, F, C, V> {
    /// Well-formed but for the connection `id`, which may have no reference left.
    spec fn wf_but(self, id: usize) -> bool {
        &&& self.references_lead()
        &&& forall|other: usize| #[trigger]
            self.live(other) && other != id ==> self.referred(other)
    }

    /// Where the same connections live on under their descriptions, references that are
    /// none but the earlier ones, or lead to what lives, still lead.
    proof fn lemma_still_leads(self, after: Self)
        requires
            self.references_lead(),
            after.cells.len() == self.cells.len(),
            forall|id: usize| #[trigger] after.live(id) ==> self.live(id)
                && after.cells[id as int]->0.desc == self.cells[id as int]->0.desc
                && after.cells[id as int]->0.state !is Poisoned,
            forall|desc: SocketDesc| #[trigger] after.conns.contains_key(desc) ==> self.conns.contains_key(
                desc,
            ) && after.conns[desc] == self.conns[desc] && after.live(self.conns[desc]),
            forall|id: usize| #[trigger] after.held.count(id) > 0 ==> after.live(id),
        ensures
            after.references_lead(),
    {
        assert forall|desc: SocketDesc| #[trigger] after.conns.contains_key(desc) implies after.live(
            after.conns[desc],
        ) && after.cells[after.conns[desc] as int]->0.desc == desc by {
            assert(self.conns.contains_key(desc));
            assert(after.live(after.conns[desc]));
        }
    }

    proof fn lemma_collect(self, id: usize)
        requires
            self.wf_but(id),
        ensures
            self.collect(id).wf(),
    {
        let after = self.collect(id);
        if self.live(id) && !self.referred(id) {
            assert forall|other: usize| #[trigger] after.live(other) == (self.live(other) && other
                != id) by {}
            self.lemma_still_leads(after);
        }
        assert forall|other: usize| #[trigger] after.live(other) implies after.referred(other) by {
            assert(self.live(other));
        }
    }

    proof fn lemma_create(self, desc: SocketDesc, state: ConnectionState<T, F, C, V>)
        requires
            self.wf(),
            self.create(desc, state).cells.len() <= usize::MAX,
            !self.conns.contains_key(desc),
            state !is Poisoned,
        ensures
            self.create(desc, state).wf(),
    {
        lemma_first_free(self.cells, 0);
        let after = self.create(desc, state);
        let id = first_free(self.cells, 0) as usize;
        assert(!self.live(id));
        assert forall|other: usize| other != id implies #[trigger] after.live(other) == self.live(
            other,
        ) by {}
        assert forall|d: SocketDesc| #[trigger] after.conns.contains_key(d) implies after.live(
            after.conns[d],
        ) && after.cells[after.conns[d] as int]->0.desc == d by {
            if d != desc {
                assert(self.conns.contains_key(d));
                assert(self.live(self.conns[d]));
            }
        }
        assert forall|other: usize| #[trigger] after.held.count(other) > 0 implies after.live(
            other,
        ) by {
            assert(self.held.count(other) > 0);
        }
        assert forall|other: usize| #[trigger]
            after.live(other) implies after.cells[other as int]->0.state !is Poisoned
            && after.referred(other) by {
            if other != id {
                assert(self.live(other));
                assert(self.referred(other));
            }
        }
    }

    proof fn lemma_begin(self, desc: SocketDesc)
        requires
            self.wf(),
        ensures
            self.begin(desc).wf(),
    {
        let after = self.begin(desc);
        assert forall|id: usize| #[trigger] after.live(id) == self.live(id) by {}
        self.lemma_still_leads(after);
        assert forall|id: usize| #[trigger] after.live(id) implies after.referred(id) by {
            assert(self.referred(id));
        }
    }

    proof fn lemma_release(self, conn: Option<usize>)
        requires
            self.wf(),
            conn matches Some(id) ==> self.held.count(id) > 0,
        ensures
            self.release(conn).wf(),
    {
        if let Some(id) = conn {
            let let_go = NetworkView { held: self.held.remove(id), ..self };
            assert forall|other: usize| #[trigger] let_go.live(other) == self.live(other) by {}
            assert forall|other: usize| #[trigger] let_go.held.count(other) > 0 implies self.held.count(
                other,
            ) > 0 by {}
            self.lemma_still_leads(let_go);
            assert forall|other: usize| #[trigger]
                let_go.live(other) && other != id implies let_go.referred(other) by {
                assert(self.referred(other));
            }
            let_go.lemma_collect(id);
        }
    }

    proof fn lemma_establish(self, id: usize, vconn: V)
        requires
            self.wf(),
            self.live(id),
        ensures
            self.establish(id, vconn).wf(),
    {
        let after = self.establish(id, vconn);
        assert forall|other: usize| #[trigger] after.live(other) == self.live(other) by {}
        self.lemma_still_leads(after);
        assert forall|other: usize| #[trigger] after.live(other) implies after.referred(other) by {
            assert(self.referred(other));
        }
    }

    proof fn lemma_unregister(self, desc: SocketDesc)
        requires
            self.wf(),
        ensures
            self.unregister(desc).wf(),
    {
        if self.conns.contains_key(desc) {
            let id = self.conns[desc];
            let taken = NetworkView { conns: self.conns.remove(desc), ..self };
            assert forall|other: usize| #[trigger] taken.live(other) == self.live(other) by {}
            self.lemma_still_leads(taken);
            assert forall|other: usize| #[trigger]
                taken.live(other) && other != id implies taken.referred(other) by {
                assert(self.referred(other));
            }
            taken.lemma_collect(id);
        }
    }
}

/// The connections of a virtual network.
pub struct VirtualNetwork<T, F, C, V> {
    conns: Table<SocketDesc, usize>,
    cells: Vec<Option<Cell<T, F, C, V>>>,
    held: Vec<usize>,
}

/// An attempt to connect: the description, and the connection that was registered
/// under it when the attempt began.
pub struct ConnectAttempt {
    desc: SocketDesc,
    conn: Option<usize>,
}

impl ConnectAttempt {
    pub closed spec fn desc(&self) -> SocketDesc {
        self.desc
    }

    pub closed spec fn conn(&self) -> Option<usize> {
        self.conn
    }

    /// Whether the attempt found a connection, so that the stack is to open it.
    pub fn found(&self) -> (found: bool)
        ensures
            found == self.conn() is Some,
    {
        self.conn.is_some()
    }
}

/// The channels and the waiting parts for a connection that is about to be
/// registered.
pub struct NewChannel<T, F, C> {
    pub channels: C,
    pub ready_tx: T,
    pub ready: F,
}

/// What a request for the channels of a connection is answered: wait for a
/// pending one, the channels of an established one, or those of one that was
/// registered just now.
pub enum OpenChannel<F, C> {
    Wait(F),
    Ready(C),
    Created(C),
}

/// How an attempt to connect ends: its result; the connection and the channels to
/// send from, once it is open; and whom to tell what.
pub struct ConnectDone<T, C, V> {
    pub result: Result<()>,
    pub send: Option<(EstablishedConnection<V>, C)>,
    pub notify: Option<(T, Result<C>)>,
}

impl<T, F, C, V> View for VirtualNetwork<T, F, C, V> {
    type V = NetworkView<T, F, C, V>;

    closed spec fn view(&self) -> NetworkView<T, F, C, V> {
        NetworkView {
            conns: self.conns@,
            cells: self.cells@.map_values(
                |cell: Option<Cell<T, F, C, V>>|
                    match cell {
                        Some(cell) => Some(Registered { desc: cell.desc, state: cell.conn.state }),
                        None => None,
                    },
            ),
            held: self.held@.to_multiset(),
        }
    }
}

impl<T, F, C, V> VirtualNetwork<T, F, C, V> {
    pub closed spec fn table_wf(&self) -> bool {
        self.conns.wf()
    }

    pub open spec fn wf(&self) -> bool {
        self.table_wf() && self@.wf()
    }

    /// A network without connections.
    pub fn new() -> (net: Self)
        ensures
            net.wf(),
            net@ == NetworkView::<T, F, C, V>::empty(),
    {
        let net = VirtualNetwork { conns: Table::new(), cells: Vec::new(), held: Vec::new() };
        proof {
            assert(net@ =~= NetworkView::<T, F, C, V>::empty());
        }
        net
    }

    /// A network without connections, and its channels. The received packets go to
    /// the caller where the configuration captures them; else they are returned
    /// beside the channels, to be routed to the connections.
    pub fn spawn<I, E, R>(
        conf: &VirtualNetworkConfig,
        ingress: I,
        egress: E,
        receive: R,
    ) -> (spawned: (Self, NetworkChannels<I, E, R>, Option<I>))
        ensures
            spawned.0.wf(),
            spawned.0@ == NetworkView::<T, F, C, V>::empty(),
            spawned.1.egress == egress,
            spawned.1.receive == receive,
            conf.capture_ingress ==> spawned.1.ingress == Some(ingress) && spawned.2 is None,
            !conf.capture_ingress ==> spawned.1.ingress is None && spawned.2 == Some(ingress),
    {
        let (channels, to_route) = network_channels(conf, ingress, egress, receive);
        (Self::new(), channels, to_route)
    }

    /// The protocol and the endpoint that the stack is to listen on.
    pub fn bind(&self, protocol: Protocol, addr: IpAddress, port: u16) -> (socket: (
        Protocol,
        SocketEndpoint,
    ))
        ensures
            socket == (protocol, SocketEndpoint::Ip(IpEndpoint { addr, port })),
    {
        (protocol, SocketEndpoint::Ip(IpEndpoint { addr, port }))
    }

    /// The channels of the established connection under `desc`.
    pub fn get_connection(&self, desc: &SocketDesc) -> (channels: Option<&C>)
        requires
            self.wf(),
        ensures
            match self@.state(*desc) {
                Some(ConnectionState::Established(_, c)) => channels == Some(&c),
                _ => channels is None,
            },
    {
        match self.conns.get(desc) {
            Some(id) => match &self.cells[*id] {
                Some(cell) => match &cell.conn.state {
                    ConnectionState::Established(_, channels) => Some(channels),
                    _ => None,
                },
                None => None,
            },
            None => None,
        }
    }
}

impl<T, F, C, V> VirtualNetwork<T, F, C, V> {
    /// The number that the next connection gets.
    fn free_cell(&self) -> (id: usize)
        ensures
            id == first_free(self@.cells, 0),
    {
        let mut id: usize = 0;
        while id < self.cells.len() && self.cells[id].is_some()
            invariant
                id <= self.cells.len(),
                first_free(self@.cells, id as int) == first_free(self@.cells, 0),
            decreases self.cells.len() - id,
        {
            id += 1;
        }
        id
    }

    /// Registers a pending connection under `desc`, in place of an earlier one, and
    /// returns its channels.
    fn create_channel(&mut self, desc: SocketDesc, fresh: NewChannel<T, F, C>) -> (channels: C) where
        C: Clone,

        requires
            old(self).wf(),
        ensures
            final(self).wf(),
            final(self)@ == old(self)@.unregister(desc).create(
                desc,
                ConnectionState::Pending(
                    PendingConnection { ready_tx: fresh.ready_tx, ready: fresh.ready },
                    fresh.channels,
                ),
            ),
            cloned(fresh.channels, channels),
    {
        self.take_out(desc);
        let ghost before = self@;
        let channels = fresh.channels.clone();
        let pending = PendingConnection { ready_tx: fresh.ready_tx, ready: fresh.ready };
        let conn = Connection { state: ConnectionState::Pending(pending, fresh.channels) };
        proof {
            lemma_first_free(before.cells, 0);
        }
        let ghost state = conn.state;
        let id = self.free_cell();
        let cell = Some(Cell { desc, conn });
        if id < self.cells.len() {
            self.cells.set(id, cell);
        } else {
            self.cells.push(cell);
        }
        self.conns.insert(desc, id);
        proof {
            assert(self@ =~= before.create(desc, state));
            assert(self@.cells.len() == self.cells.len());
            before.lemma_create(desc, state);
        }
        channels
    }

    /// Opens the channels of the connection under `desc`; where there is none,
    /// registers one with the channels given.
    pub fn open_channel(&mut self, desc: SocketDesc, fresh: NewChannel<T, F, C>) -> (opened:
        OpenChannel<F, C>) where F: Clone, C: Clone
        requires
            old(self).wf(),
        ensures
            final(self).wf(),
            match old(self)@.state(desc) {
                Some(ConnectionState::Pending(pending, _)) => {
                    &&& final(self)@ == old(self)@
                    &&& opened matches OpenChannel::Wait(ready) && cloned(pending.ready, ready)
                },
                Some(ConnectionState::Established(_, channels)) => {
                    &&& final(self)@ == old(self)@
                    &&& opened matches OpenChannel::Ready(opened) && cloned(channels, opened)
                },
                Some(ConnectionState::Poisoned) => false,
                None => {
                    &&& final(self)@ == old(self)@.create(
                        desc,
                        ConnectionState::Pending(
                            PendingConnection { ready_tx: fresh.ready_tx, ready: fresh.ready },
                            fresh.channels,
                        ),
                    )
                    &&& opened matches OpenChannel::Created(opened) && cloned(fresh.channels, opened)
                },
            },
    {
        let id = match self.conns.get(&desc) {
            Some(id) => *id,
            None => return OpenChannel::Created(self.create_channel(desc, fresh)),
        };
        assert(self@.live(id));
        match &self.cells[id] {
            Some(cell) => match &cell.conn.state {
                ConnectionState::Pending(pending, _) => OpenChannel::Wait(pending.ready.clone()),
                ConnectionState::Established(_, channels) => OpenChannel::Ready(channels.clone()),
                ConnectionState::Poisoned => vstd::pervasive::unreached(),
            },
            None => vstd::pervasive::unreached(),
        }
    }

    /// Registers a connection under `desc` with the channels given, in place of an
    /// earlier one.
    pub fn replace(&mut self, desc: SocketDesc, fresh: NewChannel<T, F, C>) -> (channels: C) where
        C: Clone,

        requires
            old(self).wf(),
        ensures
            final(self).wf(),
            final(self)@ == old(self)@.unregister(desc).create(
                desc,
                ConnectionState::Pending(
                    PendingConnection { ready_tx: fresh.ready_tx, ready: fresh.ready },
                    fresh.channels,
                ),
            ),
            cloned(fresh.channels, channels),
    {
        self.create_channel(desc, fresh)
    }

    /// Closes the connection under `desc`, if there is one.
    pub fn close_channel(&mut self, desc: SocketDesc) -> (result: Result<()>)
        requires
            old(self).wf(),
        ensures
            final(self).wf(),
            final(self)@ == old(self)@.unregister(desc),
            result == Ok::<(), Error>(()),
    {
        self.take_out(desc);
        Ok(())
    }

    /// Begins an attempt to connect `desc`.
    pub fn connect(&mut self, desc: SocketDesc) -> (attempt: ConnectAttempt)
        requires
            old(self).wf(),
        ensures
            final(self).wf(),
            final(self)@ == old(self)@.begin(desc),
            attempt.desc() == desc,
            attempt.conn() == if old(self)@.conns.contains_key(desc) {
                Some(old(self)@.conns[desc])
            } else {
                None
            },
            final(self)@.holds(attempt.desc(), attempt.conn()),
    {
        let ghost before = self@;
        proof {
            before.lemma_begin(desc);
        }
        let conn = match self.conns.get(&desc) {
            Some(id) => Some(*id),
            None => None,
        };
        if let Some(id) = conn {
            self.held.push(id);
        }
        assert(self@ =~= before.begin(desc));
        ConnectAttempt { desc, conn }
    }

    /// Drops the connection if nothing refers to it.
    fn collect(&mut self, id: usize)
        requires
            old(self).table_wf(),
        ensures
            final(self).table_wf(),
            final(self)@ == old(self)@.collect(id),
    {
        let ghost before = self@;
        let mut i: usize = 0;
        while i < self.held.len()
            invariant
                i <= self.held.len(),
                *self == *old(self),
                before == self@,
                before == old(self)@,
                self.table_wf(),
                forall|j: int| 0 <= j < i ==> self.held@[j] != id,
            decreases self.held.len() - i,
        {
            if self.held[i] == id {
                proof {
                    self.held@.to_multiset_ensures();
                    assert(self.held@.contains(id));
                    assert(self@.held.count(id) > 0);
                }
                return;
            }
            i += 1;
        }
        proof {
            self.held@.to_multiset_ensures();
            assert(!self.held@.contains(id));
            assert(self@.held.count(id) == 0);
        }
        if id >= self.cells.len() {
            return;
        }
        let registered = match &self.cells[id] {
            Some(cell) => match self.conns.get(&cell.desc) {
                Some(other) => *other == id,
                None => false,
            },
            None => true,
        };
        if !registered {
            self.cells.set(id, None);
        }
        assert(self@ =~= before.collect(id));
    }

    /// Lets go of the connection of an attempt.
    fn release(&mut self, conn: Option<usize>)
        requires
            old(self).wf(),
            conn matches Some(id) ==> old(self)@.held.count(id) > 0,
        ensures
            final(self).wf(),
            final(self)@ == old(self)@.release(conn),
    {
        let ghost before = self@;
        proof {
            before.lemma_release(conn);
            self.held@.to_multiset_ensures();
        }
        if let Some(id) = conn {
            let mut i: usize = 0;
            proof {
                assert(self.held@.contains(id));
            }
            while self.held[i] != id
                invariant
                    i < self.held.len(),
                    *self == *old(self),
                    self.held@.contains(id),
                    forall|j: int| 0 <= j < i ==> self.held@[j] != id,
                decreases self.held.len() - i,
            {
                proof {
                    let at = choose|j: int| 0 <= j < self.held@.len() && self.held@[j] == id;
                    assert(self.held@[at] == id);
                    assert(at > i);
                }
                i += 1;
            }
            let _ = self.held.remove(i);
            assert(self@ =~= NetworkView { held: before.held.remove(id), ..before });
            self.collect(id);
        }
    }

    /// Takes the description out of the table.
    fn take_out(&mut self, desc: SocketDesc)
        requires
            old(self).wf(),
        ensures
            final(self).wf(),
            final(self)@ == old(self)@.unregister(desc),
    {
        let ghost before = self@;
        proof {
            before.lemma_unregister(desc);
        }
        match self.conns.remove(&desc) {
            Some(id) => {
                assert(self@ =~= NetworkView { conns: before.conns.remove(desc), ..before });
                self.collect(id);
            },
            None => {
                assert(self@ =~= before);
            },
        }
    }

    /// Takes the description out of the table. Returns what tells those who wait,
    /// where the connection was pending.
    fn unregister(&mut self, desc: SocketDesc) -> (ready_tx: Option<T>) where T: Clone
        requires
            old(self).wf(),
        ensures
            final(self).wf(),
            final(self)@ == old(self)@.unregister(desc),
            match old(self)@.state(desc) {
                Some(ConnectionState::Pending(pending, _)) => {
                    ready_tx matches Some(tx) && cloned(pending.ready_tx, tx)
                },
                _ => ready_tx is None,
            },
    {
        let ready_tx = match self.conns.get(&desc) {
            Some(id) => {
                assert(self@.live(*id));
                match &self.cells[*id] {
                    Some(cell) => cell.conn.ready_tx(),
                    None => None,
                }
            },
            None => None,
        };
        self.take_out(desc);
        ready_tx
    }

    /// Establishes the connection `id` and returns what to send it from.
    fn establish(&mut self, id: usize, vconn: V) -> (send: (EstablishedConnection<V>, C)) where
        C: Clone,
        V: Clone,

        requires
            old(self).wf(),
            old(self)@.live(id),
        ensures
            final(self).wf(),
            final(self)@ == old(self)@.establish(id, vconn),
            old(self)@.cells[id as int]->0.state.establish(vconn) matches ConnectionState::Established(
                established,
                channels,
            ) && cloned(established.vconn, send.0.vconn) && cloned(channels, send.1),
    {
        let ghost before = self@;
        proof {
            before.lemma_establish(id, vconn);
        }
        match &mut self.cells[id] {
            Some(cell) => cell.conn.establish(vconn),
            None => {},
        }
        assert(self@ =~= before.establish(id, vconn));
        match &self.cells[id] {
            Some(cell) => match &cell.conn.state {
                ConnectionState::Established(established, channels) => (
                    EstablishedConnection { vconn: established.vconn.clone() },
                    channels.clone(),
                ),
                _ => vstd::pervasive::unreached(),
            },
            None => vstd::pervasive::unreached(),
        }
    }
}

impl<T, F, C, V> VirtualNetwork<T, F, C, V> {
    /// Gives an attempt to connect up without an outcome. It lets go of its connection,
    /// which stays as it is where it is registered.
    pub fn abandon(&mut self, attempt: ConnectAttempt)
        requires
            old(self).wf(),
            old(self)@.holds(attempt.desc(), attempt.conn()),
        ensures
            final(self).wf(),
            final(self)@ == old(self)@.release(attempt.conn()),
    {
        self.release(attempt.conn);
    }
}

/// The error of an attempt to connect where nothing is registered.
pub open spec fn removed_message(desc: SocketDesc) -> Seq<char> {
    "Connection unexpectedly removed: "@ + desc.text()
}

/// What those who wait are told when the connection failed.
pub open spec fn failed_message(error: Error) -> Seq<char> {
    "Connection failed: "@ + error.text()
}

/// Whether an attempt to connect `desc` that found `conn` ends as `done`, and takes
/// the connections from `before` to `after`.
pub open spec fn ends<T: Clone, F, C: Clone, V: Clone>(
    before: NetworkView<T, F, C, V>,
    desc: SocketDesc,
    conn: Option<usize>,
    outcome: Result<V>,
    done: ConnectDone<T, C, V>,
    after: NetworkView<T, F, C, V>,
) -> bool {
    match (conn, outcome) {
        (Some(id), Ok(vconn)) => {
            &&& after == before.establish(id, vconn).release(Some(id))
            &&& done.result == Ok::<(), Error>(())
            &&& before.cells[id as int]->0.state.establish(
                vconn,
            ) matches ConnectionState::Established(established, channels)
            &&& done.send matches Some(send)
            &&& cloned(established.vconn, send.0.vconn)
            &&& cloned(channels, send.1)
            &&& done.notify is None
        },
        _ => {
            &&& after == before.unregister(desc).release(conn)
            &&& done.result matches Err(error)
            &&& conn is Some ==> Err::<V, Error>(error) == outcome
            &&& conn is None ==> error.says(removed_message(desc))
            &&& done.send is None
            &&& match before.state(desc) {
                Some(ConnectionState::Pending(pending, _)) => {
                    &&& done.notify matches Some(notify)
                    &&& cloned(pending.ready_tx, notify.0)
                    &&& notify.1 matches Err(told)
                    &&& told.says(failed_message(error))
                },
                _ => done.notify is None,
            }
        },
    }
}

impl<T, F, C, V> VirtualNetwork<T, F, C, V> {
    /// Ends an attempt to connect. `outcome` is what the stack made of it; an
    /// attempt that found no connection fails whatever it is.
    ///
    /// A connection that the stack opened is established, and there is nobody
    /// left to tell: those who waited learn of it as the pending part is dropped.
    /// After a failure nothing is registered under the description any more, and
    /// those who wait for the connection that was are told.
    pub fn finish_connect(&mut self, attempt: ConnectAttempt, outcome: Result<V>) -> (done:
        ConnectDone<T, C, V>) where T: Clone, C: Clone, V: Clone
        requires
            old(self).wf(),
            old(self)@.holds(attempt.desc(), attempt.conn()),
        ensures
            final(self).wf(),
            ends(old(self)@, attempt.desc(), attempt.conn(), outcome, done, final(self)@),
    {
        let error = match attempt.conn {
            Some(id) => match outcome {
                Ok(vconn) => {
                    proof {
                        assert(self@.held.count(id) > 0);
                        assert(self@.live(id));
                        assert(self@.establish(id, vconn).held == self@.held);
                    }
                    let send = self.establish(id, vconn);
                    self.release(Some(id));
                    return ConnectDone { result: Ok(()), send: Some(send), notify: None };
                },
                Err(error) => error,
            },
            None => Error::Network(
                join("Connection unexpectedly removed: ", attempt.desc.to_text().as_str()),
            ),
        };
        let notify = match self.unregister(attempt.desc) {
            Some(ready_tx) => {
                let message = join("Connection failed: ", error.to_string().as_str());
                Some((ready_tx, Err(Error::Network(message))))
            },
            None => None,
        };
        self.release(attempt.conn);
        ConnectDone { result: Err(error), send: None, notify }
    }
}

/// What the network stack reports of its sockets.
pub enum IngressEvent {
    InboundConnection { desc: SocketDesc },
    Disconnected { desc: SocketDesc },
    Packet { desc: SocketDesc, payload: Vec<u8> },
}

/// Where a report goes: nowhere, to the channels of a connection, or nowhere for
/// want of an established connection.
pub enum IngressAction<'a, C> {
    Ignore,
    Deliver { channels: &'a C, payload: Vec<u8> },
    NoConnection { desc: SocketDesc },
}

/// What routing the reports of the stack was answered: a report or the end of their
/// source, or how the delivery of a packet went.
pub enum RouteEvent {
    Received(Option<IngressEvent>),
    Delivered(bool),
}

/// What routing takes next: receive the next report, deliver a packet first, or first
/// report a packet that has no established connection; or nothing more.
pub enum RouteStep<'a, C> {
    Receive,
    Deliver { channels: &'a C, payload: Vec<u8> },
    ReportAndReceive { desc: SocketDesc },
    Stop,
}

impl IngressEvent {
    /// The payload of a packet; what a capture passes on.
    pub fn captured(self) -> (payload: Option<Vec<u8>>)
        ensures
            match self {
                IngressEvent::Packet { payload: packet, .. } => payload == Some(packet),
                _ => payload is None,
            },
    {
        match self {
            IngressEvent::Packet { payload, .. } => Some(payload),
            _ => None,
        }
    }
}

impl<T, F, C, V> VirtualNetwork<T, F, C, V> {
    /// Routes a report of the stack: a packet goes to the established connection
    /// under its description, everything else is passed over.
    pub fn route_ingress(&self, event: IngressEvent) -> (action: IngressAction<'_, C>)
        requires
            self.wf(),
        ensures
            match event {
                IngressEvent::Packet { desc, payload } => match self@.state(desc) {
                    Some(ConnectionState::Established(_, channels)) => action == (
                    IngressAction::Deliver { channels: &channels, payload }),
                    _ => action matches IngressAction::NoConnection { desc: unknown } && unknown
                        == desc,
                },
                _ => action is Ignore,
            },
    {
        match event {
            IngressEvent::InboundConnection { .. } => IngressAction::Ignore,
            IngressEvent::Disconnected { .. } => IngressAction::Ignore,
            IngressEvent::Packet { desc, payload } => match self.get_connection(&desc) {
                Some(channels) => IngressAction::Deliver { channels, payload },
                None => IngressAction::NoConnection { desc },
            },
        }
    }

    /// Routes the reports of the stack, step by step. A packet that cannot be delivered
    /// is lost and ends nothing.
    pub fn handle_stack_ingress(&self, event: RouteEvent) -> (step: RouteStep<'_, C>)
        requires
            self.wf(),
        ensures
            routes(self@, event, step),
    {
        match event {
            RouteEvent::Received(Some(report)) => match self.route_ingress(report) {
                IngressAction::Ignore => RouteStep::Receive,
                IngressAction::Deliver { channels, payload } => RouteStep::Deliver {
                    channels,
                    payload,
                },
                IngressAction::NoConnection { desc } => RouteStep::ReportAndReceive { desc },
            },
            RouteEvent::Received(None) => RouteStep::Stop,
            RouteEvent::Delivered(_) => RouteStep::Receive,
        }
    }
}

/// Whether `step` follows `event` in a network with these connections.
pub open spec fn routes<T, F, C, V>(
    net: NetworkView<T, F, C, V>,
    event: RouteEvent,
    step: RouteStep<'_, C>,
) -> bool {
    match event {
        RouteEvent::Received(Some(IngressEvent::Packet { desc, payload })) => match net.state(desc) {
            Some(ConnectionState::Established(_, channels)) => step == (RouteStep::Deliver {
                channels: &channels,
                payload,
            }),
            _ => step matches RouteStep::ReportAndReceive { desc: unknown } && unknown == desc,
        },
        RouteEvent::Received(Some(_)) => step is Receive,
        RouteEvent::Received(None) => step is Stop,
        RouteEvent::Delivered(_) => step is Receive,
    }
}

} // verus!
