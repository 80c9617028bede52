//! What is asked of the network stack: its configuration, and the steps that open
//! a connection.
use vstd::prelude::*;
use crate::addr::{endpoint_invalid, ConnectionMeta, IpAddress, IpEndpoint, Protocol, SocketDesc, SocketEndpoint};
use crate::error::{Error, Result};

verus! {

/// An Ethernet address.
pub type MacAddr = [u8; 6];

/// How long the stack may take to open a TCP connection, in milliseconds.
pub const CONNECT_TIMEOUT_MS: u64 = 2000;

/// The size of a socket's buffer, in units of the maximum transmission unit.
pub const BUFFER_SIZE_MULTIPLIER: usize = 32;

/// The configuration of a virtual network. The IP addresses hold their octets in
/// network order.
#[derive(Clone, Copy, Debug)]
pub struct VirtualNetworkConfig {
    pub mtu: usize,
    pub hw_addr: MacAddr,
    pub ip4_addr: u32,
    pub ip6_addr: u128,
    pub capture_ingress: bool,
}

/// The sizes that the stack works with.
#[derive(Clone, Copy, Debug)]
pub struct NetworkConfig {
    pub max_transmission_unit: usize,
    pub buffer_size_multiplier: usize,
}

impl NetworkConfig {
    /// The size of a socket's buffer, where it fits.
    pub fn buffer_size(&self) -> (size: Option<usize>)
        ensures
            match size {
                Some(size) => size == self.max_transmission_unit * self.buffer_size_multiplier,
                None => self.max_transmission_unit * self.buffer_size_multiplier > usize::MAX,
            },
    {
        self.max_transmission_unit.checked_mul(self.buffer_size_multiplier)
    }
}

/// An address of an interface, and the length of its network's prefix.
#[derive(Clone, Copy, Debug, PartialEq, Eq, Structural)]
pub struct IpCidr {
    pub addr: IpAddress,
    pub prefix_len: u8,
}

/// A network stack to be built: its name, an Ethernet interface and its addresses.
pub struct StackPlan {
    pub name: String,
    pub config: NetworkConfig,
    pub hw_addr: MacAddr,
    pub addresses: Vec<IpCidr>,
}

/// The name that every network of the gateway has.
pub fn network_name() -> (name: String)
    ensures
        name@ == "proxy"@,
{
    "proxy".to_owned()
}

/// The stack of a virtual network. Its two addresses take every address as one of
/// their network.
pub fn create_network(conf: &VirtualNetworkConfig) -> (plan: StackPlan)
    ensures
        plan.name@ == "proxy"@,
        plan.config.max_transmission_unit == conf.mtu,
        plan.config.buffer_size_multiplier == BUFFER_SIZE_MULTIPLIER,
        plan.hw_addr == conf.hw_addr,
        plan.addresses@ == seq![
            IpCidr { addr: IpAddress::Ipv4(conf.ip4_addr), prefix_len: 0 },
            IpCidr { addr: IpAddress::Ipv6(conf.ip6_addr), prefix_len: 0 },
        ],
{
    let mut addresses = Vec::new();
    addresses.push(IpCidr { addr: IpAddress::Ipv4(conf.ip4_addr), prefix_len: 0 });
    addresses.push(IpCidr { addr: IpAddress::Ipv6(conf.ip6_addr), prefix_len: 0 });
    StackPlan {
        name: network_name(),
        config: NetworkConfig {
            max_transmission_unit: conf.mtu,
            buffer_size_multiplier: BUFFER_SIZE_MULTIPLIER,
        },
        hw_addr: conf.hw_addr,
        addresses,
    }
}

/// What has become of opening a connection: it starts, or the stack was asked for
/// a bound socket, or to bind one. A socket is the caller's, in the type `H`.
pub enum StackEvent<H> {
    Start,
    Found(Option<H>),
    Bound(Result<H>),
}

/// What opening a connection takes next: have the stack connect, which ends it;
/// find the socket that is bound to the local endpoint; bind one; or nothing, as
/// the connection is open or has failed.
pub enum StackStep<H> {
    Connect { remote: IpEndpoint, timeout_ms: u64 },
    Find { protocol: Protocol, local: SocketEndpoint },
    Bind { protocol: Protocol, local: SocketEndpoint },
    Open { handle: H, meta: ConnectionMeta },
    Fail(Error),
}

/// Whether the step fails with the stack's error for an endpoint without an IP.
pub open spec fn fails_for<H>(step: StackStep<H>, endpoint: SocketEndpoint) -> bool {
    step matches StackStep::Fail(Error::Stack(text)) && text@ == endpoint_invalid(endpoint)
}

/// Whether `step` follows once there is a socket: the connection is open if both
/// ends are IP endpoints.
pub open spec fn opens<H>(desc: SocketDesc, socket: H, step: StackStep<H>) -> bool {
    match (desc.local, desc.remote) {
        (SocketEndpoint::Ip(local), SocketEndpoint::Ip(remote)) => step == (StackStep::Open {
            handle: socket,
            meta: ConnectionMeta { protocol: desc.protocol, local, remote },
        }),
        (SocketEndpoint::Ip(_), _) => fails_for(step, desc.remote),
        _ => fails_for(step, desc.local),
    }
}

/// Whether `step` follows `event`. A TCP connection is opened by the stack; for
/// any other protocol a bound socket is all it takes.
pub open spec fn follows<H>(desc: SocketDesc, event: StackEvent<H>, step: StackStep<H>) -> bool {
    match event {
        StackEvent::Start => if desc.protocol == Protocol::Tcp {
            match desc.remote {
                SocketEndpoint::Ip(remote) => step == (StackStep::<H>::Connect {
                    remote,
                    timeout_ms: CONNECT_TIMEOUT_MS,
                }),
                _ => fails_for(step, desc.remote),
            }
        } else {
            step == (StackStep::<H>::Find { protocol: desc.protocol, local: desc.local })
        },
        StackEvent::Found(Some(socket)) => opens(desc, socket, step),
        StackEvent::Found(None) => step == (StackStep::<H>::Bind {
            protocol: desc.protocol,
            local: desc.local,
        }),
        StackEvent::Bound(Ok(socket)) => opens(desc, socket, step),
        StackEvent::Bound(Err(error)) => step == StackStep::<H>::Fail(error),
    }
}

fn open_with<H>(desc: SocketDesc, socket: H) -> (step: StackStep<H>)
    ensures
        opens(desc, socket, step),
{
    match ConnectionMeta::try_from(desc) {
        Ok(meta) => StackStep::Open { handle: socket, meta },
        Err(error) => StackStep::Fail(error),
    }
}

/// Opens a connection of the stack, step by step.
pub fn connect_stack<H>(desc: SocketDesc, event: StackEvent<H>) -> (step: StackStep<H>)
    ensures
        follows(desc, event, step),
{
    match event {
        StackEvent::Start => {
            if desc.protocol == Protocol::Tcp {
                match desc.remote.ip_endpoint() {
                    Ok(remote) => StackStep::Connect { remote, timeout_ms: CONNECT_TIMEOUT_MS },
                    Err(error) => StackStep::Fail(error),
                }
            } else {
                StackStep::Find { protocol: desc.protocol, local: desc.local }
            }
        },
        StackEvent::Found(Some(socket)) => open_with(desc, socket),
        StackEvent::Found(None) => StackStep::Bind { protocol: desc.protocol, local: desc.local },
        StackEvent::Bound(Ok(socket)) => open_with(desc, socket),
        StackEvent::Bound(Err(error)) => StackStep::Fail(error),
    }
}

/// A connection that opens has the protocol and the two endpoints that were asked
/// for, and uses the socket that the stack has just named.
pub proof fn open_connection_is_the_one_asked_for<H>(
    desc: SocketDesc,
    event: StackEvent<H>,
    handle: H,
    meta: ConnectionMeta,
)
    requires
        follows(desc, event, (StackStep::Open { handle, meta })),
    ensures
        meta.protocol == desc.protocol,
        desc.local == SocketEndpoint::Ip(meta.local),
        desc.remote == SocketEndpoint::Ip(meta.remote),
        event == StackEvent::Found(Some(handle)) || event == StackEvent::<H>::Bound(Ok(handle)),
{
}

/// A socket is bound only after the stack had none to reuse, and only at the local
/// endpoint that was asked for.
pub proof fn binds_only_what_is_not_bound<H>(
    desc: SocketDesc,
    event: StackEvent<H>,
    protocol: Protocol,
    local: SocketEndpoint,
)
    requires
        follows(desc, event, (StackStep::Bind { protocol, local })),
    ensures
        event == StackEvent::<H>::Found(None),
        protocol == desc.protocol && local == desc.local,
{
}

/// Where it starts, the stack is asked to connect for TCP alone, and to the remote end
/// that was asked for.
pub proof fn connects_tcp_alone<H>(desc: SocketDesc, step: StackStep<H>)
    requires
        follows(desc, StackEvent::Start, step),
    ensures
        step is Connect ==> desc.protocol == Protocol::Tcp,
        step matches StackStep::Connect { remote, .. } ==> desc.remote == SocketEndpoint::Ip(remote),
        desc.protocol == Protocol::Tcp ==> step is Connect || step is Fail,
        desc.protocol != Protocol::Tcp ==> step is Find,
{
}

/// The stack of a network is named as every other, works with the given unit and buffers
/// of thirty-two such units, has the given Ethernet address, and has the two given IP
/// addresses and no other, each of a network that every address is in.
pub proof fn stacks_are_built_as_configured(
    conf: VirtualNetworkConfig,
    plan: StackPlan,
    size: Option<usize>,
)
    requires
        call_ensures(create_network, (&conf,), plan),
        call_ensures(NetworkConfig::buffer_size, (&plan.config,), size),
    ensures
        plan.name@ == "proxy"@,
        plan.config.max_transmission_unit == conf.mtu,
        size is Some <==> 32 * conf.mtu <= usize::MAX,
        size matches Some(size) ==> size == 32 * conf.mtu,
        plan.hw_addr@ == conf.hw_addr@,
        plan.addresses@.len() == 2,
        plan.addresses@[0].addr == IpAddress::Ipv4(conf.ip4_addr),
        plan.addresses@[1].addr == IpAddress::Ipv6(conf.ip6_addr),
        plan.addresses@[0].prefix_len == 0 && plan.addresses@[1].prefix_len == 0,
{
    let units = plan.config.buffer_size_multiplier;
    assert(conf.mtu * units == 32 * conf.mtu) by (nonlinear_arith)
        requires
            units == 32,
    ;
}

/// A buffer holds so many units as the multiplier says, where that fits.
pub proof fn buffers_hold_whole_units(config: NetworkConfig, size: Option<usize>)
    requires
        call_ensures(NetworkConfig::buffer_size, (&config,), size),
    ensures
        size matches Some(size) ==> size == config.buffer_size_multiplier
            * config.max_transmission_unit,
        size is None <==> config.buffer_size_multiplier * config.max_transmission_unit
            > usize::MAX,
{
    assert(config.buffer_size_multiplier * config.max_transmission_unit
        == config.max_transmission_unit * config.buffer_size_multiplier) by (nonlinear_arith);
}

/// What opening a connection starts with: for TCP the stack is asked to connect to
/// exactly the remote address and port, within two seconds, if there is one, and it
/// fails with the stack's error for the remote end if not; for any other protocol the
/// stack is asked for the socket that is bound to exactly the local end.
pub proof fn opening_goes_where_it_was_asked<H>(desc: SocketDesc, step: StackStep<H>)
    requires
        call_ensures(connect_stack::<H>, (desc, StackEvent::Start), step),
    ensures
        step is Connect <==> desc.protocol is Tcp && desc.remote is Ip,
        step matches StackStep::Connect { remote, timeout_ms } ==> desc.remote
            == SocketEndpoint::Ip(remote) && timeout_ms == 2000,
        step is Find <==> desc.protocol !is Tcp,
        step matches StackStep::Find { protocol, local } ==> protocol == desc.protocol && local
            == desc.local,
        step is Fail <==> desc.protocol is Tcp && desc.remote !is Ip,
        step matches StackStep::Fail(error) ==> (error matches Error::Stack(text) && text@
            == endpoint_invalid(desc.remote)),
{
}

/// What opening a connection goes on with. Without a bound socket the stack is asked to
/// bind one to exactly the local end. With a socket, had by either way, the connection
/// is open exactly if both ends are IP endpoints: with this socket, the protocol and the
/// two ends that were asked for. Else it fails with the stack's error for the first end
/// that is none; and where the stack could not bind, with the stack's error.
pub proof fn sockets_become_the_connection<H>(
    desc: SocketDesc,
    event: StackEvent<H>,
    step: StackStep<H>,
)
    requires
        event !is Start,
        call_ensures(connect_stack::<H>, (desc, event), step),
    ensures
        step !is Connect && step !is Find,
        step is Bind <==> event == StackEvent::<H>::Found(None),
        step matches StackStep::Bind { protocol, local } ==> protocol == desc.protocol && local
            == desc.local,
        step is Open <==> desc.local is Ip && desc.remote is Ip && (event matches StackEvent::Found(
            Some(_),
        ) || event matches StackEvent::Bound(Ok(_))),
        step matches StackStep::Open { handle, meta } ==> {
            &&& event == StackEvent::Found(Some(handle)) || event == StackEvent::<H>::Bound(
                Ok(handle),
            )
            &&& meta.protocol == desc.protocol
            &&& desc.local == SocketEndpoint::Ip(meta.local)
            &&& desc.remote == SocketEndpoint::Ip(meta.remote)
        },
        step matches StackStep::Fail(error) ==> match event {
            StackEvent::Bound(Err(reason)) => error == reason,
            _ => error matches Error::Stack(text) && text@ == endpoint_invalid(
                if desc.local is Ip {
                    desc.remote
                } else {
                    desc.local
                },
            ),
        },
{
}

} // verus!
