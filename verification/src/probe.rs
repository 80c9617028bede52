//! A probe: a listening socket that gives its token to whoever connects.
use vstd::prelude::*;
use crate::model::ProbeToken;

verus! {

/// What a probe was answered. The socket is bound first; then a connection is
/// accepted, becomes writable, is written to and is closed, and so on. The probe can be
/// closed while it waits for a connection.
pub enum ProbeEvent<E> {
    Bound(core::result::Result<(), E>),
    Accepted(core::result::Result<(), E>),
    Writable(core::result::Result<(), E>),
    Written(core::result::Result<(), E>),
    ClientClosed,
    Closed,
}

/// What a probe does next. A failure is reported; an accept that failed is reported
/// on its own and stops the probe.
pub enum ProbeStep<E> {
    Accept,
    AwaitWritable,
    Write(ProbeToken),
    CloseClient,
    Stop,
    StopAccepting(E),
    Fail(E),
}

/// The step that follows `event`.
pub open spec fn probe_step<E>(token: ProbeToken, event: ProbeEvent<E>) -> ProbeStep<E> {
    match event {
        ProbeEvent::Bound(Ok(())) => ProbeStep::Accept,
        ProbeEvent::Bound(Err(error)) => ProbeStep::Fail(error),
        ProbeEvent::Accepted(Ok(())) => ProbeStep::AwaitWritable,
        ProbeEvent::Accepted(Err(error)) => ProbeStep::StopAccepting(error),
        ProbeEvent::Writable(Ok(())) => ProbeStep::Write(token),
        ProbeEvent::Writable(Err(error)) => ProbeStep::Fail(error),
        ProbeEvent::Written(Ok(())) => ProbeStep::CloseClient,
        ProbeEvent::Written(Err(error)) => ProbeStep::Fail(error),
        ProbeEvent::ClientClosed => ProbeStep::Accept,
        ProbeEvent::Closed => ProbeStep::Stop,
    }
}

/// Runs a probe, step by step.
pub fn probe<E>(token: ProbeToken, event: ProbeEvent<E>) -> (step: ProbeStep<E>)
    ensures
        step == probe_step(token, event),
{
    match event {
        ProbeEvent::Bound(Ok(())) => ProbeStep::Accept,
        ProbeEvent::Bound(Err(error)) => ProbeStep::Fail(error),
        ProbeEvent::Accepted(Ok(())) => ProbeStep::AwaitWritable,
        ProbeEvent::Accepted(Err(error)) => ProbeStep::StopAccepting(error),
        ProbeEvent::Writable(Ok(())) => ProbeStep::Write(token),
        ProbeEvent::Writable(Err(error)) => ProbeStep::Fail(error),
        ProbeEvent::Written(Ok(())) => ProbeStep::CloseClient,
        ProbeEvent::Written(Err(error)) => ProbeStep::Fail(error),
        ProbeEvent::ClientClosed => ProbeStep::Accept,
        ProbeEvent::Closed => ProbeStep::Stop,
    }
}

/// A probe writes nothing but its token.
pub proof fn probe_writes_its_token<E>(
    token: ProbeToken,
    event: ProbeEvent<E>,
    written: ProbeToken,
)
    requires
        probe_step(token, event) == ProbeStep::<E>::Write(written),
    ensures
        written == token,
        event matches ProbeEvent::Writable(Ok(_)),
{
}

/// Clients are served one after the other: a probe that serves a client accepts the
/// next only after it wrote the whole token to this one and closed it.
pub proof fn clients_are_closed_before_the_next<E>(token: ProbeToken, event: ProbeEvent<E>)
    ensures
        probe_step(token, event) is Accept <==> event is ClientClosed || event matches ProbeEvent::Bound(
            Ok(_),
        ),
        probe_step(token, event) is CloseClient <==> event matches ProbeEvent::Written(Ok(_)),
        probe_step(token, event) is Write <==> event matches ProbeEvent::Writable(Ok(_)),
        probe_step(token, event) is AwaitWritable <==> event matches ProbeEvent::Accepted(Ok(_)),
{
}

/// What a probe does, by what it was answered: it accepts once it is bound and after each
/// client that it closed, waits for an accepted client to be writable, writes its token
/// to one that is, and closes one that it was written to. It stops when it is closed or
/// cannot accept, and fails with the error where it cannot be bound or a client cannot be
/// written to.
pub proof fn probes_serve_their_token<E>(
    token: ProbeToken,
    event: ProbeEvent<E>,
    step: ProbeStep<E>,
)
    requires
        call_ensures(probe::<E>, (token, event), step),
    ensures
        step is Accept <==> event is ClientClosed || event matches ProbeEvent::Bound(Ok(_)),
        step is AwaitWritable <==> event matches ProbeEvent::Accepted(Ok(_)),
        step is Write <==> event matches ProbeEvent::Writable(Ok(_)),
        step matches ProbeStep::Write(written) ==> written == token,
        step is CloseClient <==> event matches ProbeEvent::Written(Ok(_)),
        step is Stop <==> event is Closed,
        step is StopAccepting <==> event matches ProbeEvent::Accepted(Err(_)),
        step matches ProbeStep::StopAccepting(error) ==> event == ProbeEvent::<E>::Accepted(
            Err(error),
        ),
        step is Fail <==> event matches ProbeEvent::Bound(Err(_)) || event matches ProbeEvent::Writable(
            Err(_),
        ) || event matches ProbeEvent::Written(Err(_)),
        step matches ProbeStep::Fail(error) ==> event == ProbeEvent::<E>::Bound(Err(error)) || event
            == ProbeEvent::<E>::Writable(Err(error)) || event == ProbeEvent::<E>::Written(Err(error)),
{
}

} // verus!
