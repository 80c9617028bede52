//! The data of the management interface.
use vstd::prelude::*;

verus! {

/// Asks for a TCP or UDP forwarding.
#[derive(Debug, PartialEq, Eq)]
pub struct CreateTcpUdp {
    pub listen: String,
    pub remote: String,
}

/// A TCP or UDP forwarding.
#[derive(Clone, Copy, Debug, PartialEq, Eq, Structural)]
pub struct TcpUdp {
    pub id: u32,
}

/// What a probe gives to whoever connects.
pub type ProbeToken = [u8; 32];

/// Asks for a probe.
#[derive(Debug, PartialEq, Eq)]
pub struct CreateProbe {
    pub token: ProbeToken,
    pub listen: String,
}

/// A probe.
#[derive(Clone, Copy, Debug, PartialEq, Eq, Structural)]
pub struct Probe {
    pub id: u32,
}

impl Clone for CreateTcpUdp {
    fn clone(&self) -> (copy: Self)
        ensures
            copy == *self,
    {
        CreateTcpUdp { listen: self.listen.clone(), remote: self.remote.clone() }
    }
}

impl Clone for CreateProbe {
    fn clone(&self) -> (copy: Self)
        ensures
            copy == *self,
    {
        CreateProbe { token: self.token, listen: self.listen.clone() }
    }
}

/// The number that a counter starts from.
pub const FIRST_ID: u32 = 0;

/// The number after `id`; the numbers start over after the last one.
pub open spec fn following(id: u32) -> u32 {
    if id == u32::MAX {
        0
    } else {
        (id + 1) as u32
    }
}

/// Takes the next number out of a counter.
pub fn next_id(counter: &mut u32) -> (id: u32)
    ensures
        id == *old(counter),
        *final(counter) == following(*old(counter)),
{
    let id: u32 = *counter;
    *counter = id.wrapping_add(1);
    id
}

/// The number that a counter has come to after `calls` calls, which is the one that the
/// next call gives.
pub open spec fn counted(start: u32, calls: nat) -> u32
    decreases calls,
{
    if calls == 0 {
        start
    } else {
        following(counted(start, (calls - 1) as nat))
    }
}

proof fn lemma_counted(start: u32, calls: nat)
    ensures
        counted(start, calls) == (start + calls) % 0x1_0000_0000,
    decreases calls,
{
    if calls > 0 {
        lemma_counted(start, (calls - 1) as nat);
    }
}

/// The call after `calls` others, of a counter that started from the first number, gives
/// the number `calls`, modulo the count of numbers.
pub proof fn ids_count_from_the_first(calls: nat)
    ensures
        counted(FIRST_ID, calls) == calls % 0x1_0000_0000,
        counted(FIRST_ID, 0) == 0,
{
    lemma_counted(FIRST_ID, calls);
}

/// A number is not handed out again before every other one was.
pub proof fn ids_do_not_repeat_early(start: u32, first: nat, second: nat)
    requires
        first < second < first + 0x1_0000_0000,
    ensures
        counted(start, first) != counted(start, second),
{
    lemma_counted(start, first);
    lemma_counted(start, second);
}

/// The numbers of a counter, call by call: a call gives what the counter holds, and the
/// next call gives the number after it; only after the last of all comes 0.
pub proof fn ids_follow_each_other(
    first: &mut u32,
    id: u32,
    second: &mut u32,
    next: u32,
)
    requires
        call_ensures(next_id, (first,), id),
        *old(second) == *final(first),
        call_ensures(next_id, (second,), next),
    ensures
        id == *old(first),
        id < u32::MAX ==> next == id + 1,
        id == u32::MAX ==> next == 0,
        FIRST_ID == 0,
{
}

/// A clone of a request has the same fields.
pub proof fn requests_are_cloned_whole(
    forwarding: CreateTcpUdp,
    forwarding_copy: CreateTcpUdp,
    probe: CreateProbe,
    probe_copy: CreateProbe,
)
    requires
        cloned(forwarding, forwarding_copy),
        cloned(probe, probe_copy),
    ensures
        forwarding_copy.listen@ == forwarding.listen@ && forwarding_copy.remote@
            == forwarding.remote@,
        probe_copy.listen@ == probe.listen@ && probe_copy.token == probe.token,
{
}

} // verus!
