//! Who may use the render side, however many threads call at once.
//!
//! The flag that marks the render side as in use is taken in one act, and only if it is free. Who
//! gets it has a lease until the flag is given back; who does not is turned away at once.

use crate::status::{counted, AudioProcessorStatus, AudioProcessorStatusCounters};
use vstd::prelude::*;

verus! {

/// Whether a call may use the render side, given whether another call is still using it.
pub open spec fn admits(in_use: bool) -> bool {
    !in_use
}

/// What a call is answered that asks for the render side: it is admitted, or its quantum is dropped,
/// which is counted.
pub open spec fn answered(
    in_use: bool,
    status: AudioProcessorStatus,
    admitted: bool,
    status_after: AudioProcessorStatus,
) -> bool {
    &&& admitted == admits(in_use)
    &&& admitted ==> status_after == status
    &&& !admitted ==> status_after == (AudioProcessorStatus {
        frames_dropped: counted(status.frames_dropped, 1),
        ..status
    })
}

/// Whether a call may use the render side, given whether another call is still using it. A call
/// that may not drops its quantum, which is counted.
pub fn try_render_state(in_use: bool, status: &mut AudioProcessorStatusCounters) -> (admitted: bool)
    ensures
        answered(in_use, old(status)@, admitted, final(status)@),
{
    if in_use {
        status.count_dropped(1);
    }
    !in_use
}

/// The flag, and the leases that are alive, each named by a number of its own.
pub struct RenderFlag {
    pub in_use: bool,
    pub leases: Set<nat>,
}

/// One indivisible act of one thread.
pub enum RenderAct {
    /// A call asks for `lease`, and gets it or not.
    Try { lease: nat, admitted: bool },
    /// A lease ends.
    Finish { lease: nat },
}

impl RenderFlag {
    /// Nobody uses the render side.
    pub open spec fn initial(self) -> bool {
        !self.in_use && self.leases == Set::<nat>::empty()
    }

    /// What one act does.
    pub open spec fn next(self, act: RenderAct, after: RenderFlag) -> bool {
        match act {
            RenderAct::Try { lease, admitted } => {
                &&& !self.leases.contains(lease)
                &&& admitted == admits(self.in_use)
                &&& after == (if admitted {
                    RenderFlag { in_use: true, leases: self.leases.insert(lease) }
                } else {
                    self
                })
            },
            RenderAct::Finish { lease } => {
                &&& self.leases.contains(lease)
                &&& after == (RenderFlag { in_use: false, leases: self.leases.remove(lease) })
            },
        }
    }

    /// What every act keeps: the flag is set exactly while there is a lease, and there is no
    /// second.
    pub open spec fn inv(self) -> bool {
        &&& self.leases.finite()
        &&& self.leases.len() <= 1
        &&& self.in_use <==> self.leases.len() == 1
    }
}

/// Every act keeps the invariant.
pub proof fn act_keeps_inv(before: RenderFlag, act: RenderAct, after: RenderFlag)
    requires
        before.inv(),
        before.next(act, after),
    ensures
        after.inv(),
{
}

/// Whether `states` is a run by the acts `acts` from where nobody uses the render side.
pub open spec fn is_render_run(states: Seq<RenderFlag>, acts: Seq<RenderAct>) -> bool {
    &&& states.len() == acts.len() + 1
    &&& states[0].initial()
    &&& forall|i: int|
        0 <= i < acts.len() ==> #[trigger] states[i].next(acts[i], states[i + 1])
}

/// However many threads call, and however their acts interleave, at most one lease is alive at any
/// time.
pub proof fn at_most_one_lease(states: Seq<RenderFlag>, acts: Seq<RenderAct>, at: int)
    requires
        is_render_run(states, acts),
        0 <= at < states.len(),
    ensures
        states[at].inv(),
        forall|one: nat, other: nat| #[trigger]
            states[at].leases.contains(one) && #[trigger] states[at].leases.contains(other)
                ==> one == other,
    decreases at,
{
    if at > 0 {
        at_most_one_lease(states, acts, at - 1);
        assert(states[at - 1].next(acts[at - 1], states[at - 1 + 1]));
        act_keeps_inv(states[at - 1], acts[at - 1], states[at]);
    }
    let leases = states[at].leases;
    assert forall|one: nat, other: nat| #[trigger]
        leases.contains(one) && #[trigger] leases.contains(other) implies one == other by {
        if one != other {
            assert(leases.remove(one).contains(other));
            assert(leases.remove(one).len() == 0);
        }
    }
}

/// A call is admitted exactly if no lease is alive. One that is turned away changes nothing.
pub proof fn admitted_only_alone(
    before: RenderFlag,
    lease: nat,
    admitted: bool,
    after: RenderFlag,
)
    requires
        before.inv(),
        before.next(RenderAct::Try { lease, admitted }, after),
    ensures
        admitted <==> before.leases == Set::<nat>::empty(),
        admitted ==> after.leases == Set::<nat>::empty().insert(lease),
        !admitted ==> after == before,
{
    if before.leases.len() == 0 {
        assert(before.leases =~= Set::<nat>::empty());
    }
}

/// Once a lease has ended, the next call is admitted.
pub proof fn next_call_is_admitted(
    before: RenderFlag,
    ended: nat,
    free: RenderFlag,
    lease: nat,
    admitted: bool,
    after: RenderFlag,
)
    requires
        before.inv(),
        before.next(RenderAct::Finish { lease: ended }, free),
        free.next(RenderAct::Try { lease, admitted }, after),
    ensures
        admitted,
{
}

/// A call is admitted exactly if the render side is free. One that is turned away has its quantum
/// counted as dropped, once, and nothing else that is shown changes.
pub proof fn turned_away_quanta_are_counted(
    in_use: bool,
    status: AudioProcessorStatus,
    admitted: bool,
    status_after: AudioProcessorStatus,
)
    requires
        answered(in_use, status, admitted, status_after),
    ensures
        admitted <==> !in_use,
        status_after.frames_dropped == (status.frames_dropped + (if in_use {
            1int
        } else {
            0int
        })) % 0x1_0000_0000_0000_0000,
        status_after.frames_queued == status.frames_queued,
        status_after.frames_sent == status.frames_sent,
        status_after.started == status.started,
        status_after.connected == status.connected,
        status_after.connection_attempts == status.connection_attempts,
        status_after.connection_failures == status.connection_failures,
        status_after.last_connected_unix_ms == status.last_connected_unix_ms,
        status_after.last_send_unix_ms == status.last_send_unix_ms,
{
}

} // verus!
