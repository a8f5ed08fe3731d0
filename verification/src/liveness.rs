//! The handshake state machine: whether the server has ever answered, and
//! when the bridge last announced itself.
//!
//! Time is a reading of a monotonic clock in nanoseconds, taken by the
//! caller. The socket is read only when a poll is due, so an observation
//! handed in at any other moment changes nothing.

use vstd::prelude::*;

verus! {

/// Least time between two announcements: three seconds.
pub const HANDSHAKE_INTERVAL: u64 = 3_000_000_000;

/// What the bridge knows of the server.
#[derive(Clone, Copy, Debug, PartialEq, Eq, Structural)]
pub enum Liveness {
    /// No datagram has come from the server. `last_try` is when the bridge
    /// last announced itself, if it ever has.
    NoResponseSeen { last_try: Option<u64> },
    /// A datagram has come from the server. Nothing leads out of this state.
    ResponseSeen,
}

/// One poll: the clock when it was made, and whether a read of the socket
/// at that moment would yield a datagram.
pub struct Poll {
    pub now: u64,
    pub inbound: bool,
}

impl Liveness {
    /// Whether a poll is due at `now`: the server has not answered, and the
    /// bridge has never announced itself or did so at least
    /// `HANDSHAKE_INTERVAL` ago.
    pub open spec fn due(self, now: u64) -> bool {
        match self {
            Liveness::NoResponseSeen { last_try: None } => true,
            Liveness::NoResponseSeen { last_try: Some(at) } => now - at >= HANDSHAKE_INTERVAL,
            Liveness::ResponseSeen => false,
        }
    }

    /// Whether the bridge announces itself at this poll: the poll is due
    /// and the socket is silent.
    pub open spec fn resends(self, now: u64, inbound: bool) -> bool {
        self.due(now) && !inbound
    }

    /// The state after a poll.
    pub open spec fn after(self, now: u64, inbound: bool) -> Liveness {
        if !self.due(now) {
            self
        } else if inbound {
            Liveness::ResponseSeen
        } else {
            Liveness::NoResponseSeen { last_try: Some(now) }
        }
    }

    /// The state after a run of polls, oldest first.
    pub open spec fn after_all(self, polls: Seq<Poll>) -> Liveness
        decreases polls.len(),
    {
        if polls.len() == 0 {
            self
        } else {
            self.after(polls[0].now, polls[0].inbound).after_all(polls.drop_first())
        }
    }

    /// The moments at which the bridge announces itself during a run of
    /// polls, oldest first.
    pub open spec fn resend_times(self, polls: Seq<Poll>) -> Seq<u64>
        decreases polls.len(),
    {
        if polls.len() == 0 {
            Seq::empty()
        } else {
            let rest = self.after(polls[0].now, polls[0].inbound).resend_times(polls.drop_first());
            if self.resends(polls[0].now, polls[0].inbound) {
                seq![polls[0].now] + rest
            } else {
                rest
            }
        }
    }

    /// The state in which the bridge starts: nothing heard, nothing sent.
    pub fn new() -> (state: Self)
        ensures
            state == (Liveness::NoResponseSeen { last_try: None }),
    {
        Liveness::NoResponseSeen { last_try: None }
    }

    /// Whether the server has answered.
    pub fn has_response(&self) -> (seen: bool)
        ensures
            seen == (*self == Liveness::ResponseSeen),
    {
        match self {
            Liveness::ResponseSeen => true,
            Liveness::NoResponseSeen { .. } => false,
        }
    }

    /// Whether the socket is to be read at `now`.
    pub fn is_due(&self, now: u64) -> (due: bool)
        ensures
            due == self.due(now),
    {
        match self {
            Liveness::NoResponseSeen { last_try: None } => true,
            Liveness::NoResponseSeen { last_try: Some(at) } => now >= *at && now - *at
                >= HANDSHAKE_INTERVAL,
            Liveness::ResponseSeen => false,
        }
    }

    /// Makes one poll and says whether the bridge announces itself now.
    pub fn poll(&mut self, now: u64, inbound: bool) -> (resend: bool)
        ensures
            *final(self) == old(self).after(now, inbound),
            resend == old(self).resends(now, inbound),
    {
        if !self.is_due(now) {
            false
        } else if inbound {
            *self = Liveness::ResponseSeen;
            false
        } else {
            *self = Liveness::NoResponseSeen { last_try: Some(now) };
            true
        }
    }
}

/// Whether no poll of the run finds a datagram.
pub open spec fn silent(polls: Seq<Poll>) -> bool {
    forall|i: int| 0 <= i < polls.len() ==> !(#[trigger] polls[i]).inbound
}

/// Whether each moment of `times` is at least `HANDSHAKE_INTERVAL` after the
/// one before it.
pub open spec fn spaced(times: Seq<u64>) -> bool {
    forall|i: int|
        0 <= i && i + 1 < times.len() ==> (#[trigger] times[i + 1]) - times[i] >= HANDSHAKE_INTERVAL
}

/// While the server stays silent the bridge stays in `NoResponseSeen`, so it
/// never stops announcing itself: whatever silent polls came before, the
/// next silent poll that is due announces again.
pub proof fn silence_keeps_retrying(state: Liveness, polls: Seq<Poll>)
    requires
        state is NoResponseSeen,
        silent(polls),
    ensures
        state.after_all(polls) is NoResponseSeen,
        forall|now: u64|
            state.after_all(polls).due(now) ==> #[trigger] state.after_all(polls).resends(
                now,
                false,
            ),
    decreases polls.len(),
{
    if polls.len() > 0 {
        let next = state.after(polls[0].now, polls[0].inbound);
        assert(!polls[0].inbound);
        let rest = polls.drop_first();
        assert forall|i: int| 0 <= i < rest.len() implies !(#[trigger] rest[i]).inbound by {
            assert(rest[i] == polls[i + 1]);
        }
        silence_keeps_retrying(next, rest);
    }
}

/// An announcement comes no sooner than `HANDSHAKE_INTERVAL` after the one
/// before it, whatever the polls find and whenever they are made.
pub proof fn retries_are_spaced(state: Liveness, polls: Seq<Poll>)
    ensures
        spaced(state.resend_times(polls)),
        state.resend_times(polls).len() > 0 ==> state.due(state.resend_times(polls)[0]),
    decreases polls.len(),
{
    if polls.len() > 0 {
        let next = state.after(polls[0].now, polls[0].inbound);
        let rest = next.resend_times(polls.drop_first());
        retries_are_spaced(next, polls.drop_first());
        let times = state.resend_times(polls);
        if state.resends(polls[0].now, polls[0].inbound) {
            assert(times =~= seq![polls[0].now] + rest);
            assert forall|i: int| 0 <= i && i + 1 < times.len() implies (#[trigger] times[i + 1])
                - times[i] >= HANDSHAKE_INTERVAL by {
                if i == 0 {
                    assert(times[1] == rest[0]);
                    assert(next.due(rest[0]));
                } else {
                    assert(times[i] == rest[i - 1]);
                    assert(times[i + 1] == rest[(i - 1) + 1]);
                }
            }
        } else {
            assert(times == rest);
            if rest.len() > 0 {
                assert(next.due(rest[0]));
                if state.due(polls[0].now) {
                    assert(polls[0].inbound);
                    assert(next == Liveness::ResponseSeen);
                }
            }
        }
    }
}

/// Once the server has answered, the bridge never announces itself again,
/// and stays in `ResponseSeen` whatever later polls find.
pub proof fn response_is_final(polls: Seq<Poll>)
    ensures
        Liveness::ResponseSeen.after_all(polls) == Liveness::ResponseSeen,
        Liveness::ResponseSeen.resend_times(polls) == Seq::<u64>::empty(),
    decreases polls.len(),
{
    if polls.len() > 0 {
        response_is_final(polls.drop_first());
    }
}

/// A run of polls can be cut in two: the state after the whole run is the
/// state after the second part, started where the first part ended, and the
/// announcements are those of both parts.
pub proof fn runs_compose(state: Liveness, first: Seq<Poll>, second: Seq<Poll>)
    ensures
        state.after_all(first + second) == state.after_all(first).after_all(second),
        state.resend_times(first + second) == state.resend_times(first) + state.after_all(
            first,
        ).resend_times(second),
    decreases first.len(),
{
    if first.len() == 0 {
        assert(first + second =~= second);
        assert(state.resend_times(first) + state.resend_times(second) =~= state.resend_times(
            second,
        ));
    } else {
        let next = state.after(first[0].now, first[0].inbound);
        assert((first + second)[0] == first[0]);
        assert((first + second).drop_first() =~= first.drop_first() + second);
        runs_compose(next, first.drop_first(), second);
        let tail = next.resend_times(first.drop_first()) + next.after_all(
            first.drop_first(),
        ).resend_times(second);
        if state.resends(first[0].now, first[0].inbound) {
            assert(seq![first[0].now] + tail =~= (seq![first[0].now] + next.resend_times(
                first.drop_first(),
            )) + next.after_all(first.drop_first()).resend_times(second));
        }
    }
}

/// Once a due poll has found a datagram, no later poll announces the
/// bridge, whatever came before and whatever comes after.
pub proof fn no_resend_after_response(
    state: Liveness,
    before: Seq<Poll>,
    answer: Poll,
    later: Seq<Poll>,
)
    requires
        state.after_all(before).due(answer.now),
        answer.inbound,
    ensures
        state.after_all(before + seq![answer] + later) == Liveness::ResponseSeen,
        state.resend_times(before + seq![answer] + later) == state.resend_times(before),
{
    let reached = state.after_all(before);
    runs_compose(state, before + seq![answer], later);
    runs_compose(state, before, seq![answer]);
    let one = seq![answer];
    assert(one.drop_first() =~= Seq::<Poll>::empty());
    assert(reached.after_all(one) == reached.after(answer.now, answer.inbound).after_all(
        one.drop_first(),
    ));
    assert(reached.after_all(one) == Liveness::ResponseSeen);
    assert(Liveness::ResponseSeen.resend_times(one.drop_first()) =~= Seq::<u64>::empty());
    assert(reached.resend_times(one) =~= Seq::<u64>::empty());
    response_is_final(later);
    assert(state.resend_times(before) + Seq::<u64>::empty() + Seq::<u64>::empty()
        =~= state.resend_times(before));
}

} // verus!
