//! Addresses: the protocols, endpoints and socket descriptions that the virtual
//! network goes by.
use vstd::prelude::*;
use ya_relay_stack::socket::{SocketDesc as StackDesc, SocketEndpoint as StackEndpoint};
use ya_relay_stack::ya_smoltcp::socket::IcmpEndpoint;
use ya_relay_stack::ya_smoltcp::wire::{
    IpAddress as StackIp, IpEndpoint as StackIpEndpoint, Ipv4Address, Ipv6Address,
};
use ya_relay_stack::{Error as StackError, Protocol as StackProtocol};
use crate::error::{Error, Result};

verus! {

/// IP sub-protocols.
#[derive(Clone, Copy, Debug, PartialEq, Eq, Structural)]
pub enum Protocol {
    HopByHop,
    Icmp,
    Igmp,
    Tcp,
    Egp,
    Igp,
    Udp,
    Rdp,
    Dccp,
    Ipv6Tun,
    Sdrp,
    Ipv6Route,
    Ipv6Frag,
    Ipv6Icmp,
    Ipv6NoNxt,
    Ipv6Opts,
    Ipcv,
    IpIp,
    IpComp,
    Smp,
    Sctp,
    Ethernet,
    Unassigned,
}

/// An IP address; the numbers hold the octets in network order.
#[derive(Clone, Copy, Debug, PartialEq, Eq, Structural)]
pub enum IpAddress {
    Unspecified,
    Ipv4(u32),
    Ipv6(u128),
}

/// An IP address and a port.
#[derive(Clone, Copy, Debug, PartialEq, Eq, Structural)]
pub struct IpEndpoint {
    pub addr: IpAddress,
    pub port: u16,
}

/// What an ICMP socket is bound to.
#[derive(Clone, Copy, Debug, PartialEq, Eq, Structural)]
pub enum IcmpBinding {
    Unspecified,
    Ident(u16),
    Udp(IpEndpoint),
}

/// One end of a socket.
#[derive(Clone, Copy, Debug, PartialEq, Eq, Structural)]
pub enum SocketEndpoint {
    Ip(IpEndpoint),
    Icmp(IcmpBinding),
    Other,
}

/// A protocol and the two ends of a socket; the key of a connection.
#[derive(Clone, Copy, Debug, PartialEq, Eq, Structural)]
pub struct SocketDesc {
    pub protocol: Protocol,
    pub local: SocketEndpoint,
    pub remote: SocketEndpoint,
}

/// A protocol and two IP endpoints.
#[derive(Clone, Copy, Debug, PartialEq, Eq, Structural)]
pub struct ConnectionMeta {
    pub protocol: Protocol,
    pub local: IpEndpoint,
    pub remote: IpEndpoint,
}

/// The address of a socket of the host.
#[derive(Clone, Copy, Debug, PartialEq, Eq, Structural)]
pub enum SocketAddr {
    V4 { ip4: u32, port: u16 },
    V6 { ip6: u128, port: u16, flowinfo: u32, scope_id: u32 },
}

impl Protocol {
    /// The protocol's number; the placeholder comes after the last assigned one.
    pub open spec fn number(self) -> u8 {
        match self {
            Protocol::HopByHop => 0,
            Protocol::Icmp => 1,
            Protocol::Igmp => 2,
            Protocol::Tcp => 6,
            Protocol::Egp => 8,
            Protocol::Igp => 9,
            Protocol::Udp => 17,
            Protocol::Rdp => 27,
            Protocol::Dccp => 33,
            Protocol::Ipv6Tun => 41,
            Protocol::Sdrp => 42,
            Protocol::Ipv6Route => 43,
            Protocol::Ipv6Frag => 44,
            Protocol::Ipv6Icmp => 58,
            Protocol::Ipv6NoNxt => 59,
            Protocol::Ipv6Opts => 60,
            Protocol::Ipcv => 71,
            Protocol::IpIp => 94,
            Protocol::IpComp => 108,
            Protocol::Smp => 121,
            Protocol::Sctp => 132,
            Protocol::Ethernet => 143,
            Protocol::Unassigned => 144,
        }
    }

    pub fn to_number(self) -> (number: u8)
        ensures
            number == self.number(),
    {
        match self {
            Protocol::HopByHop => 0,
            Protocol::Icmp => 1,
            Protocol::Igmp => 2,
            Protocol::Tcp => 6,
            Protocol::Egp => 8,
            Protocol::Igp => 9,
            Protocol::Udp => 17,
            Protocol::Rdp => 27,
            Protocol::Dccp => 33,
            Protocol::Ipv6Tun => 41,
            Protocol::Sdrp => 42,
            Protocol::Ipv6Route => 43,
            Protocol::Ipv6Frag => 44,
            Protocol::Ipv6Icmp => 58,
            Protocol::Ipv6NoNxt => 59,
            Protocol::Ipv6Opts => 60,
            Protocol::Ipcv => 71,
            Protocol::IpIp => 94,
            Protocol::IpComp => 108,
            Protocol::Smp => 121,
            Protocol::Sctp => 132,
            Protocol::Ethernet => 143,
            Protocol::Unassigned => 144,
        }
    }

    /// The protocol with the given number, where there is one.
    pub fn from_number(number: u8) -> (protocol: Option<Protocol>)
        ensures
            protocol matches Some(p) ==> p.number() == number,
            protocol is None ==> forall|p: Protocol| p.number() != number,
    {
        match number {
            0 => Some(Protocol::HopByHop),
            1 => Some(Protocol::Icmp),
            2 => Some(Protocol::Igmp),
            6 => Some(Protocol::Tcp),
            8 => Some(Protocol::Egp),
            9 => Some(Protocol::Igp),
            17 => Some(Protocol::Udp),
            27 => Some(Protocol::Rdp),
            33 => Some(Protocol::Dccp),
            41 => Some(Protocol::Ipv6Tun),
            42 => Some(Protocol::Sdrp),
            43 => Some(Protocol::Ipv6Route),
            44 => Some(Protocol::Ipv6Frag),
            58 => Some(Protocol::Ipv6Icmp),
            59 => Some(Protocol::Ipv6NoNxt),
            60 => Some(Protocol::Ipv6Opts),
            71 => Some(Protocol::Ipcv),
            94 => Some(Protocol::IpIp),
            108 => Some(Protocol::IpComp),
            121 => Some(Protocol::Smp),
            132 => Some(Protocol::Sctp),
            143 => Some(Protocol::Ethernet),
            144 => Some(Protocol::Unassigned),
            _ => None,
        }
    }
}

/// No two protocols share a number.
pub proof fn protocol_numbers_are_distinct(a: Protocol, b: Protocol)
    requires
        a.number() == b.number(),
    ensures
        a == b,
{
}

/// What the stack's `SocketDesc` with these parts is shown as by `{:?}`.
pub uninterp spec fn desc_debug(protocol: u8, local: SocketEndpoint, remote: SocketEndpoint) -> Seq<char>;

/// What the stack's error for an endpoint that is no IP endpoint is shown as.
pub uninterp spec fn endpoint_invalid(endpoint: SocketEndpoint) -> Seq<char>;

/// Builds the stack's `SocketDesc` out of its parts and shows it by the `Debug`
/// impl that `ya_relay_stack` derives for it. The text is named by
/// [`desc_debug`]; nothing more is said of it.
#[verifier::external_body]
fn show_desc(protocol: u8, local: SocketEndpoint, remote: SocketEndpoint) -> (text: String)
    requires
        exists|p: Protocol| p.number() == protocol,
    ensures
        text@ == desc_debug(protocol, local, remote),
{
    let ip = |e: IpEndpoint| StackIpEndpoint::new(match e.addr {
        IpAddress::Unspecified => StackIp::Unspecified,
        IpAddress::Ipv4(n) => Ipv4Address(n.to_be_bytes()).into(),
        IpAddress::Ipv6(n) => Ipv6Address(n.to_be_bytes()).into(),
    }, e.port);
    let end = |e| match e {
        SocketEndpoint::Ip(e) => StackEndpoint::Ip(ip(e)),
        SocketEndpoint::Icmp(b) => StackEndpoint::Icmp(match b {
            IcmpBinding::Unspecified => IcmpEndpoint::Unspecified,
            IcmpBinding::Ident(id) => IcmpEndpoint::Ident(id),
            IcmpBinding::Udp(e) => IcmpEndpoint::Udp(ip(e)) }),
        SocketEndpoint::Other => StackEndpoint::Other,
    };
    let protocol = StackProtocol::try_from(protocol).unwrap();
    format!("{:?}", StackDesc { protocol, local: end(local), remote: end(remote) })
}

/// Shows `ya_relay_stack::Error::EndpointInvalid` of the endpoint by its
/// `Display` impl. The text is named by [`endpoint_invalid`]; nothing more is
/// said of it.
#[verifier::external_body]
fn show_endpoint_invalid(endpoint: SocketEndpoint) -> (text: String)
    ensures
        text@ == endpoint_invalid(endpoint),
{
    let ip = |e: IpEndpoint| StackIpEndpoint::new(match e.addr {
        IpAddress::Unspecified => StackIp::Unspecified,
        IpAddress::Ipv4(n) => Ipv4Address(n.to_be_bytes()).into(),
        IpAddress::Ipv6(n) => Ipv6Address(n.to_be_bytes()).into(),
    }, e.port);
    let endpoint = match endpoint {
        SocketEndpoint::Ip(e) => StackEndpoint::Ip(ip(e)),
        SocketEndpoint::Icmp(b) => StackEndpoint::Icmp(match b {
            IcmpBinding::Unspecified => IcmpEndpoint::Unspecified,
            IcmpBinding::Ident(id) => IcmpEndpoint::Ident(id),
            IcmpBinding::Udp(e) => IcmpEndpoint::Udp(ip(e)) }),
        SocketEndpoint::Other => StackEndpoint::Other,
    };
    StackError::EndpointInvalid(endpoint).to_string()
}

impl SocketEndpoint {
    /// The IP endpoint, or the stack's error for one that is none.
    pub fn ip_endpoint(self) -> (result: Result<IpEndpoint>)
        ensures
            match self {
                SocketEndpoint::Ip(endpoint) => result == Ok::<IpEndpoint, Error>(endpoint),
                _ => result matches Err(Error::Stack(text)) && text@ == endpoint_invalid(self),
            },
    {
        match self {
            SocketEndpoint::Ip(endpoint) => Ok(endpoint),
            _ => Err(Error::Stack(show_endpoint_invalid(self))),
        }
    }
}

impl SocketAddr {
    /// The endpoint of the virtual network with the address's IP and port.
    pub open spec fn endpoint(self) -> SocketEndpoint {
        match self {
            SocketAddr::V4 { ip4, port } => SocketEndpoint::Ip(
                IpEndpoint { addr: IpAddress::Ipv4(ip4), port },
            ),
            SocketAddr::V6 { ip6, port, .. } => SocketEndpoint::Ip(
                IpEndpoint { addr: IpAddress::Ipv6(ip6), port },
            ),
        }
    }

    pub fn to_endpoint(self) -> (endpoint: SocketEndpoint)
        ensures
            endpoint == self.endpoint(),
    {
        match self {
            SocketAddr::V4 { ip4, port } => SocketEndpoint::Ip(
                IpEndpoint { addr: IpAddress::Ipv4(ip4), port },
            ),
            SocketAddr::V6 { ip6, port, .. } => SocketEndpoint::Ip(
                IpEndpoint { addr: IpAddress::Ipv6(ip6), port },
            ),
        }
    }
}

impl SocketDesc {
    /// The text that the description is shown as.
    pub open spec fn text(self) -> Seq<char> {
        desc_debug(self.protocol.number(), self.local, self.remote)
    }

    /// Shows the description as the stack shows its own.
    pub fn to_text(self) -> (text: String)
        ensures
            text@ == self.text(),
    {
        show_desc(self.protocol.to_number(), self.local, self.remote)
    }
}

impl ConnectionMeta {
    /// The description with IP endpoints on both sides; else the stack's error
    /// for the first side, local before remote, that has none.
    pub fn try_from(desc: SocketDesc) -> (result: Result<ConnectionMeta>)
        ensures
            match (desc.local, desc.remote) {
                (SocketEndpoint::Ip(local), SocketEndpoint::Ip(remote)) => {
                    result == Ok::<ConnectionMeta, Error>(
                        ConnectionMeta { protocol: desc.protocol, local, remote },
                    )
                },
                (SocketEndpoint::Ip(_), _) => {
                    result matches Err(Error::Stack(text)) && text@ == endpoint_invalid(desc.remote)
                },
                _ => result matches Err(Error::Stack(text)) && text@ == endpoint_invalid(desc.local),
            },
    {
        let local = match desc.local.ip_endpoint() {
            Ok(endpoint) => endpoint,
            Err(error) => return Err(error),
        };
        let remote = match desc.remote.ip_endpoint() {
            Ok(endpoint) => endpoint,
            Err(error) => return Err(error),
        };
        Ok(ConnectionMeta { protocol: desc.protocol, local, remote })
    }
}

/// Every protocol has the number that is assigned to it, and is the one that is found by
/// this number and by no other.
pub proof fn protocols_have_their_numbers(
    protocol: Protocol,
    number: u8,
    other: u8,
    found: Option<Protocol>,
)
    requires
        call_ensures(Protocol::to_number, (protocol,), number),
        call_ensures(Protocol::from_number, (other,), found),
    ensures
        found == Some(protocol) <==> other == number,
        number == 0 <==> protocol is HopByHop,
        number == 1 <==> protocol is Icmp,
        number == 2 <==> protocol is Igmp,
        number == 6 <==> protocol is Tcp,
        number == 8 <==> protocol is Egp,
        number == 9 <==> protocol is Igp,
        number == 17 <==> protocol is Udp,
        number == 27 <==> protocol is Rdp,
        number == 33 <==> protocol is Dccp,
        number == 41 <==> protocol is Ipv6Tun,
        number == 42 <==> protocol is Sdrp,
        number == 43 <==> protocol is Ipv6Route,
        number == 44 <==> protocol is Ipv6Frag,
        number == 58 <==> protocol is Ipv6Icmp,
        number == 59 <==> protocol is Ipv6NoNxt,
        number == 60 <==> protocol is Ipv6Opts,
        number == 71 <==> protocol is Ipcv,
        number == 94 <==> protocol is IpIp,
        number == 108 <==> protocol is IpComp,
        number == 121 <==> protocol is Smp,
        number == 132 <==> protocol is Sctp,
        number == 143 <==> protocol is Ethernet,
        number == 144 <==> protocol is Unassigned,
{
}

/// An address keeps its IP and its port as an endpoint, whatever they are. So addresses
/// of one kind with the same endpoint have the same IP and port, and addresses of two
/// kinds never have the same endpoint.
pub proof fn addresses_keep_ip_and_port(
    addr: SocketAddr,
    endpoint: SocketEndpoint,
    other: SocketAddr,
    other_endpoint: SocketEndpoint,
)
    requires
        call_ensures(SocketAddr::to_endpoint, (addr,), endpoint),
        call_ensures(SocketAddr::to_endpoint, (other,), other_endpoint),
    ensures
        match addr {
            SocketAddr::V4 { ip4, port } => {
                &&& endpoint matches SocketEndpoint::Ip(end)
                &&& end.addr == IpAddress::Ipv4(ip4) && end.port == port
            },
            SocketAddr::V6 { ip6, port, .. } => {
                &&& endpoint matches SocketEndpoint::Ip(end)
                &&& end.addr == IpAddress::Ipv6(ip6) && end.port == port
            },
        },
        endpoint == other_endpoint ==> match (addr, other) {
            (SocketAddr::V4 { .. }, SocketAddr::V4 { .. }) => addr == other,
            (
                SocketAddr::V6 { ip6, port, .. },
                SocketAddr::V6 { ip6: other_ip6, port: other_port, .. },
            ) => ip6 == other_ip6 && port == other_port,
            _ => false,
        },
{
}

/// An endpoint has an IP endpoint exactly if it is one, which is then the answer; else
/// the answer is the stack's error for this endpoint.
pub proof fn only_ip_endpoints_have_one(endpoint: SocketEndpoint, result: Result<IpEndpoint>)
    requires
        call_ensures(SocketEndpoint::ip_endpoint, (endpoint,), result),
    ensures
        result is Ok <==> endpoint is Ip,
        result matches Ok(ip) ==> endpoint == SocketEndpoint::Ip(ip),
        result matches Err(error) ==> (error matches Error::Stack(text) && text@ == endpoint_invalid(
            endpoint,
        )),
{
}

/// A description is a connection's exactly if both its ends are IP endpoints, and keeps
/// them and its protocol; else the answer is the stack's error for the first end, local
/// before remote, that is none.
pub proof fn connections_have_two_ip_endpoints(desc: SocketDesc, result: Result<ConnectionMeta>)
    requires
        call_ensures(ConnectionMeta::try_from, (desc,), result),
    ensures
        result is Ok <==> desc.local is Ip && desc.remote is Ip,
        result matches Ok(meta) ==> {
            &&& meta.protocol == desc.protocol
            &&& desc.local == SocketEndpoint::Ip(meta.local)
            &&& desc.remote == SocketEndpoint::Ip(meta.remote)
        },
        result matches Err(error) ==> (error matches Error::Stack(text) && text@ == endpoint_invalid(
            if desc.local is Ip {
                desc.remote
            } else {
                desc.local
            },
        )),
{
}

/// A description is shown with the number of its protocol and its two ends, each in its
/// place.
pub proof fn descriptions_are_shown_by_their_parts(desc: SocketDesc, number: u8, text: String)
    requires
        call_ensures(Protocol::to_number, (desc.protocol,), number),
        call_ensures(SocketDesc::to_text, (desc,), text),
    ensures
        text@ == desc_debug(number, desc.local, desc.remote),
{
}

} // verus!
