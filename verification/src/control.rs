//! The control interface: it opens forwardings by number and answers in plain text.
use vstd::prelude::*;
use crate::network::stack::{network_name, NetworkConfig, StackPlan, BUFFER_SIZE_MULTIPLIER};
use crate::text::{decimal, join, to_decimal};

verus! {

/// The size of the buffer that a forwarded stream is read into.
pub const FORWARDER_BUFFER_SIZE: usize = 1024;

/// The maximum transmission unit of the control interface's network.
pub const CONTROL_MTU: usize = 1280;

/// The network stack that runs beside the control interface. It has no address.
pub fn control_network() -> (plan: StackPlan)
    ensures
        plan.name@ == "proxy"@,
        plan.config.max_transmission_unit == CONTROL_MTU,
        plan.config.buffer_size_multiplier == BUFFER_SIZE_MULTIPLIER,
        plan.hw_addr@ == seq![0xb0u8, 0xa5u8, 0xa5u8, 0xa5u8, 0xa5u8, 0xa5u8],
        plan.addresses@.len() == 0,
{
    StackPlan {
        name: network_name(),
        config: NetworkConfig {
            max_transmission_unit: CONTROL_MTU,
            buffer_size_multiplier: BUFFER_SIZE_MULTIPLIER,
        },
        hw_addr: [0xb0, 0xa5, 0xa5, 0xa5, 0xa5, 0xa5],
        addresses: Vec::new(),
    }
}

/// What a forwarder was answered: that its stream is ready, for reading or not, or
/// the outcome of a read.
pub enum StreamEvent<E> {
    Ready { readable: bool },
    Read(usize),
    WouldBlock,
    Failed(E),
}

/// What a forwarder does next. A read that gave something is reported before the
/// stream is waited for again.
pub enum StreamStep<E> {
    AwaitReady,
    Read,
    Report,
    Stop,
    Fail(E),
}

/// Reads a stream to its end, step by step.
pub fn forwarder<E>(event: StreamEvent<E>) -> (step: StreamStep<E>)
    ensures
        match event {
            StreamEvent::Ready { readable } => if readable {
                step is Read
            } else {
                step is AwaitReady
            },
            StreamEvent::Read(count) => if count == 0 {
                step is Stop
            } else {
                step is Report
            },
            StreamEvent::WouldBlock => step is AwaitReady,
            StreamEvent::Failed(error) => step == StreamStep::Fail(error),
        },
{
    match event {
        StreamEvent::Ready { readable } => if readable {
            StreamStep::Read
        } else {
            StreamStep::AwaitReady
        },
        StreamEvent::Read(count) => if count == 0 {
            StreamStep::Stop
        } else {
            StreamStep::Report
        },
        StreamEvent::WouldBlock => StreamStep::AwaitReady,
        StreamEvent::Failed(error) => StreamStep::Fail(error),
    }
}

/// Numbers the forwardings.
pub struct ConnectionManager {
    prev_id: u32,
}

impl ConnectionManager {
    /// The number that was given last; 0 before the first.
    pub closed spec fn prev(&self) -> u32 {
        self.prev_id
    }

    pub fn new() -> (manager: Self)
        ensures
            manager.prev() == 0,
    {
        ConnectionManager { prev_id: 0 }
    }

    pub fn prev_id(&self) -> (id: u32)
        ensures
            id == self.prev(),
    {
        self.prev_id
    }

    /// Gives a forwarding its number.
    pub fn create(&mut self) -> (id: u32)
        requires
            old(self).prev() < u32::MAX,
        ensures
            id == old(self).prev() + 1,
            final(self).prev() == id,
    {
        self.prev_id = self.prev_id + 1;
        self.prev_id
    }
}

/// Answers a request for a forwarding with its number.
pub fn tcp_post(manager: &mut ConnectionManager) -> (text: String)
    requires
        old(manager).prev() < u32::MAX,
    ensures
        final(manager).prev() == old(manager).prev() + 1,
        text@ == "id "@ + decimal(final(manager).prev() as nat),
{
    let id: u32 = manager.create();
    join("id ", to_decimal(id).as_str())
}

/// Answers a request to end a forwarding.
pub fn tcp_delete(manager: &ConnectionManager) -> (text: String)
    ensures
        text@ == "Hello, world! "@ + decimal(manager.prev() as nat),
{
    join("Hello, world! ", to_decimal(manager.prev_id()).as_str())
}

/// Answers a request for the metrics.
pub fn metrics() -> (text: String)
    ensures
        text@ == "TODO_metrics{iface=\"1\"} 1\nTODO_metrics{iface=\"2\"} 2\n"@,
{
    "TODO_metrics{iface=\"1\"} 1\nTODO_metrics{iface=\"2\"} 2\n".to_owned()
}

/// A stream is read exactly when it is ready for that, is waited for when it is not or a
/// read would block, and is at its end exactly when a read gives nothing. A read that
/// gives anything is reported, and an error ends the reading.
pub proof fn streams_are_read_to_their_end<E>(event: StreamEvent<E>, step: StreamStep<E>)
    requires
        call_ensures(forwarder::<E>, (event,), step),
    ensures
        step is Read <==> (event matches StreamEvent::Ready { readable } && readable),
        step is AwaitReady <==> event is WouldBlock || (event matches StreamEvent::Ready { readable }
            && !readable),
        step is Stop <==> event == StreamEvent::<E>::Read(0),
        step is Report <==> (event matches StreamEvent::Read(count) && count > 0),
        step is Fail <==> event is Failed,
        step matches StreamStep::Fail(error) ==> event == StreamEvent::Failed(error),
        FORWARDER_BUFFER_SIZE == 1024,
{
}

/// The forwardings are numbered one by one, from 1 on. The answer to a request for one
/// tells its number, and the answer to one to end tells the last that was given.
pub proof fn forwardings_are_numbered_one_by_one(
    fresh: ConnectionManager,
    none_yet: u32,
    manager: ConnectionManager,
    before: u32,
    before_text: String,
    gone: String,
    created: &mut ConnectionManager,
    id: u32,
    after_created: ConnectionManager,
    kept: u32,
    posted: &mut ConnectionManager,
    text: String,
    after_posted: ConnectionManager,
    now: u32,
    number: String,
)
    requires
        call_ensures(ConnectionManager::new, (), fresh),
        call_ensures(ConnectionManager::prev_id, (&fresh,), none_yet),
        call_ensures(ConnectionManager::prev_id, (&manager,), before),
        before < u32::MAX,
        call_ensures(to_decimal, (before,), before_text),
        call_ensures(tcp_delete, (&manager,), gone),
        *old(created) == manager,
        call_ensures(ConnectionManager::create, (created,), id),
        after_created == *final(created),
        call_ensures(ConnectionManager::prev_id, (&after_created,), kept),
        *old(posted) == manager,
        call_ensures(tcp_post, (posted,), text),
        after_posted == *final(posted),
        call_ensures(ConnectionManager::prev_id, (&after_posted,), now),
        call_ensures(to_decimal, (now,), number),
    ensures
        none_yet == 0,
        id == before + 1 && kept == id,
        now == before + 1,
        text@ == "id "@ + number@,
        gone@ == "Hello, world! "@ + before_text@,
{
}

/// The network beside the control interface is named as every other, has a unit of its
/// own and buffers of thirty-two such units, an Ethernet address and no other. The
/// metrics are two lines.
pub proof fn control_network_is_as_configured(plan: StackPlan, text: String)
    requires
        call_ensures(control_network, (), plan),
        call_ensures(metrics, (), text),
    ensures
        plan.name@ == "proxy"@,
        plan.config.max_transmission_unit == 1280,
        plan.config.buffer_size_multiplier == 32,
        plan.hw_addr@ == seq![0xb0u8, 0xa5u8, 0xa5u8, 0xa5u8, 0xa5u8, 0xa5u8],
        plan.addresses@.len() == 0,
        text@ == "TODO_metrics{iface=\"1\"} 1\nTODO_metrics{iface=\"2\"} 2\n"@,
{
}

} // verus!
