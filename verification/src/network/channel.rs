//! The channels of a network and of its connections. The halves of a channel are
//! the caller's, in the types `S` (sends) and `R` (receives).
use vstd::prelude::*;
use crate::error::{Error, Result};
use crate::network::stack::VirtualNetworkConfig;

verus! {

/// How many items a channel holds beyond one for each sender.
pub const CHANNEL_CAPACITY: usize = 1;

/// A channel whose receiving half can be taken once.
pub struct Channel<S, R> {
    tx: S,
    rx: Option<R>,
}

impl<S, R> Channel<S, R> {
    pub closed spec fn tx(&self) -> S {
        self.tx
    }

    /// The receiving half, while nobody has taken it.
    pub closed spec fn rx(&self) -> Option<R> {
        self.rx
    }

    /// A channel of the two halves.
    pub fn new(tx: S, rx: R) -> (channel: Self)
        ensures
            channel.tx() == tx,
            channel.rx() == Some(rx),
    {
        Channel { tx, rx: Some(rx) }
    }

    /// A sending half.
    pub fn sender(&self) -> (tx: S) where S: Clone
        ensures
            cloned(self.tx(), tx),
    {
        self.tx.clone()
    }

    /// Takes the receiving half; whoever comes first gets it.
    pub fn receiver(&mut self) -> (rx: Option<R>)
        ensures
            rx == old(self).rx(),
            final(self).rx() is None,
            final(self).tx() == old(self).tx(),
    {
        self.rx.take()
    }
}

/// The channels of a connection.
pub struct ConnectionChannels<S, R> {
    /// For packets to be injected into the virtual network stack.
    pub send: Channel<S, R>,
    /// For packets that came in.
    pub ingress: Channel<S, R>,
}

impl<S, R> ConnectionChannels<S, R> {
    /// The channels of a connection, out of the two halves of each. Nobody has taken a
    /// receiving half yet.
    pub fn new(send: (S, R), ingress: (S, R)) -> (channels: Self)
        ensures
            channels.send.tx() == send.0,
            channels.send.rx() == Some(send.1),
            channels.ingress.tx() == ingress.0,
            channels.ingress.rx() == Some(ingress.1),
    {
        ConnectionChannels {
            send: Channel::new(send.0, send.1),
            ingress: Channel::new(ingress.0, ingress.1),
        }
    }

    /// What the packets that came in for the connection are sent to.
    pub fn ingress_sender(&self) -> (tx: S) where S: Clone
        ensures
            cloned(self.ingress.tx(), tx),
    {
        self.ingress.sender()
    }

    /// Takes what the packets to be sent by the connection are received from.
    pub fn send_receiver(&mut self) -> (rx: Option<R>)
        ensures
            rx == old(self).send.rx(),
            final(self).send.rx() is None,
            final(self).send.tx() == old(self).send.tx(),
            final(self).ingress == old(self).ingress,
    {
        self.send.receiver()
    }

    /// Whether a forwarding that takes its two ends now gets these: `sink` sends into
    /// the connection, and `ingress`, while nobody has taken it, receives from it.
    pub open spec fn gives(&self, sink: S, ingress: Option<R>) -> bool where S: Clone {
        cloned(self.send.tx(), sink) && ingress == self.ingress.rx()
    }

    /// Takes the two ends for a forwarding: where the bytes that it reads go, and where
    /// the packets that it writes come from.
    pub fn ends(&mut self) -> (ends: (S, Option<R>)) where S: Clone
        ensures
            old(self).gives(ends.0, ends.1),
            final(self).send == old(self).send,
            final(self).ingress.tx() == old(self).ingress.tx(),
            final(self).ingress.rx() is None,
    {
        let sink = self.send.sender();
        (sink, self.ingress.receiver())
    }
}

/// The channels of a network, in the types `I`, `E` and `R` of its caller.
pub struct NetworkChannels<I, E, R> {
    /// Packets that any socket received, where they are captured.
    pub ingress: Option<I>,
    /// Ethernet frames that the stack emits.
    pub egress: E,
    /// Ethernet frames for the stack to receive.
    pub receive: R,
}

/// Hands the channels of a network out. The received packets go to the caller
/// where the configuration captures them; else they are returned beside the
/// channels, to be routed to the connections.
pub fn network_channels<I, E, R>(
    conf: &VirtualNetworkConfig,
    ingress: I,
    egress: E,
    receive: R,
) -> (handed: (NetworkChannels<I, E, R>, Option<I>))
    ensures
        handed.0.egress == egress,
        handed.0.receive == receive,
        handed.0.ingress == if conf.capture_ingress {
            Some(ingress)
        } else {
            None
        },
        handed.1 == if conf.capture_ingress {
            None
        } else {
            Some(ingress)
        },
{
    if conf.capture_ingress {
        (NetworkChannels { ingress: Some(ingress), egress, receive }, None)
    } else {
        (NetworkChannels { ingress: None, egress, receive }, Some(ingress))
    }
}

/// What waiting for a connection gives: what those who wait were told, or an error
/// where whoever would tell is gone.
pub fn ready_outcome<C>(told: Option<Result<C>>) -> (outcome: Result<C>)
    ensures
        match told {
            Some(told) => outcome == told,
            None => outcome matches Err(error) && error.says("Failed to finalize connection"@),
        },
{
    match told {
        Some(told) => told,
        None => Err(Error::Network("Failed to finalize connection".to_owned())),
    }
}

/// The two channels of a connection keep their sides: what is to be sent goes in by the
/// sending half of the one and comes out of its receiving half, what came in does so by
/// the other. Each receiving half is had once.
pub proof fn channels_keep_their_sides<S: Clone, R>(
    send: (S, R),
    ingress: (S, R),
    taken: &mut ConnectionChannels<S, R>,
    first: (S, Option<R>),
    again: &mut ConnectionChannels<S, R>,
    second: (S, Option<R>),
    sent: &mut ConnectionChannels<S, R>,
    rx: Option<R>,
    twice: &mut ConnectionChannels<S, R>,
    other_rx: Option<R>,
    tx: S,
    channels: ConnectionChannels<S, R>,
)
    requires
        call_ensures(ConnectionChannels::<S, R>::new, (send, ingress), channels),
        call_ensures(ConnectionChannels::<S, R>::ingress_sender, (&channels,), tx),
        *old(taken) == channels,
        call_ensures(ConnectionChannels::<S, R>::ends, (taken,), first),
        *old(again) == *final(taken),
        call_ensures(ConnectionChannels::<S, R>::ends, (again,), second),
        *old(sent) == *final(again),
        call_ensures(ConnectionChannels::<S, R>::send_receiver, (sent,), rx),
        *old(twice) == *final(sent),
        call_ensures(ConnectionChannels::<S, R>::send_receiver, (twice,), other_rx),
    ensures
        cloned(ingress.0, tx),
        cloned(send.0, first.0) && first.1 == Some(ingress.1),
        cloned(send.0, second.0) && second.1 is None,
        rx == Some(send.1) && other_rx is None,
{
}

/// Taking from the channels of a connection, whatever was taken before: a forwarding gets
/// a sender of the one and what is left of the other's receiving half, and takes nothing
/// else; the sending gets what is left of the one's receiving half, and takes nothing
/// else.
pub proof fn taking_leaves_the_rest<S: Clone, R>(
    forwarded: &mut ConnectionChannels<S, R>,
    ends: (S, Option<R>),
    sent: &mut ConnectionChannels<S, R>,
    rx: Option<R>,
    channels: ConnectionChannels<S, R>,
    tx: S,
)
    requires
        call_ensures(ConnectionChannels::<S, R>::ends, (forwarded,), ends),
        call_ensures(ConnectionChannels::<S, R>::send_receiver, (sent,), rx),
        call_ensures(ConnectionChannels::<S, R>::ingress_sender, (&channels,), tx),
    ensures
        cloned(old(forwarded).send.tx(), ends.0) && ends.1 == old(forwarded).ingress.rx(),
        final(forwarded).send.tx() == old(forwarded).send.tx(),
        final(forwarded).send.rx() == old(forwarded).send.rx(),
        final(forwarded).ingress.tx() == old(forwarded).ingress.tx(),
        final(forwarded).ingress.rx() is None,
        rx == old(sent).send.rx(),
        final(sent).send.tx() == old(sent).send.tx(),
        final(sent).send.rx() is None,
        final(sent).ingress.tx() == old(sent).ingress.tx(),
        final(sent).ingress.rx() == old(sent).ingress.rx(),
        cloned(channels.ingress.tx(), tx),
{
}

/// A channel sends by the half that it was made of, and gives its receiving half to the
/// first who asks and to nobody after.
pub proof fn receiving_halves_are_taken_once<S: Clone, R>(
    tx: S,
    rx: R,
    channel: Channel<S, R>,
    sender: S,
    once: &mut Channel<S, R>,
    first: Option<R>,
    twice: &mut Channel<S, R>,
    second: Option<R>,
    left: Channel<S, R>,
    later: S,
)
    requires
        call_ensures(Channel::<S, R>::new, (tx, rx), channel),
        call_ensures(Channel::<S, R>::sender, (&channel,), sender),
        *old(once) == channel,
        call_ensures(Channel::<S, R>::receiver, (once,), first),
        *old(twice) == *final(once),
        call_ensures(Channel::<S, R>::receiver, (twice,), second),
        left == *final(twice),
        call_ensures(Channel::<S, R>::sender, (&left,), later),
    ensures
        cloned(tx, sender) && cloned(tx, later),
        first == Some(rx) && second is None,
        CHANNEL_CAPACITY == 1,
{
}

/// What a network receives is handed to the caller exactly if it is captured, and is to
/// be routed exactly if it is not; the other channels are handed out as they came.
pub proof fn captured_packets_are_not_routed<I, E, R>(
    conf: VirtualNetworkConfig,
    ingress: I,
    egress: E,
    receive: R,
    handed: (NetworkChannels<I, E, R>, Option<I>),
)
    requires
        call_ensures(network_channels::<I, E, R>, (&conf, ingress, egress, receive), handed),
    ensures
        handed.0.ingress is Some <==> conf.capture_ingress,
        handed.1 is Some <==> !conf.capture_ingress,
        handed.0.ingress matches Some(captured) ==> captured == ingress,
        handed.1 matches Some(routed) ==> routed == ingress,
        handed.0.egress == egress && handed.0.receive == receive,
{
}

/// Who waits gets what they are told, be it the channels or an error, and an error that
/// says so where nobody is left to tell them.
pub proof fn who_waits_gets_what_they_are_told<C>(told: Option<Result<C>>, outcome: Result<C>)
    requires
        call_ensures(ready_outcome::<C>, (told,), outcome),
    ensures
        told matches Some(what) ==> outcome == what,
        told is None ==> (outcome matches Err(error) && error matches Error::Network(text) && text@
            == "Failed to finalize connection"@),
{
}

} // verus!
