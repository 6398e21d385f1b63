//! Naming a track while its processor is being replaced.
//!
//! A call that names the track keeps the desired names to itself while it stores them, picks up the
//! processor in place and hands it the names. A call that puts a new processor in place first seeds
//! it with the names then desired, publishes it, and then, with the desired names to itself, hands
//! it the names once more. So whichever of two racing calls comes last, the processor in place ends
//! up with the names that are desired.

use vstd::prelude::*;

verus! {

/// The names of a track: of its instance, and its label.
pub type Names = (Option<Seq<char>>, Option<Seq<char>>);

/// How far one call has come.
pub enum Call {
    /// It has the desired names to itself and has stored new ones.
    Stored,
    /// It has picked up the processor in place.
    Picked { target: Option<nat> },
    /// It has handed that one the names, and has yet to let go of the desired names.
    Applied,
    /// It has made a processor, which has no names yet.
    Made { processor: nat },
    /// It has read the names that the processor is to start with.
    SeedRead { processor: nat, seed: Names },
    /// The processor has them.
    Seeded { processor: nat },
    /// The processor is in place, and no other lifecycle call runs.
    Published { processor: nat },
    /// Besides, it has the desired names to itself.
    Synchronizing { processor: nat },
    /// It has handed the processor the desired names.
    Synchronized { processor: nat },
}

impl Call {
    /// Whether the call has the desired names to itself.
    pub open spec fn holds_names(self) -> bool {
        self is Stored || self is Picked || self is Applied || self is Synchronizing
            || self is Synchronized
    }

    /// The processor that the call has put in place, while it keeps other lifecycle calls out.
    pub open spec fn placed(self) -> Option<nat> {
        match self {
            Call::Published { processor } => Some(processor),
            Call::Synchronizing { processor } => Some(processor),
            Call::Synchronized { processor } => Some(processor),
            _ => None,
        }
    }

    /// The processor that the call has made and not yet put in place.
    pub open spec fn unpublished(self) -> Option<nat> {
        match self {
            Call::Made { processor } => Some(processor),
            Call::SeedRead { processor, .. } => Some(processor),
            Call::Seeded { processor } => Some(processor),
            _ => None,
        }
    }
}

/// One indivisible act of one call.
pub enum NamingStep {
    Store { call: nat, names: Names },
    Pick { call: nat },
    Apply { call: nat },
    Unlock { call: nat },
    Make { call: nat, processor: nat },
    ReadSeed { call: nat },
    Seed { call: nat },
    Publish { call: nat },
    Lock { call: nat },
    Synchronize { call: nat },
    Done { call: nat },
    TakeOut,
}

/// All that the calls on one handle share, calls and processors named by number: the desired names,
/// which call has them to itself, which lifecycle call keeps others out, the processor in place,
/// and the names that each processor has.
pub struct Naming {
    pub desired: Names,
    pub names_held: Option<nat>,
    pub lifecycle_held: Option<nat>,
    pub current: Option<nat>,
    pub applied: Map<nat, Names>,
    pub calls: Map<nat, Call>,
}

impl Naming {
    /// A new handle.
    pub open spec fn initial(self) -> bool {
        &&& self.desired == (None::<Seq<char>>, None::<Seq<char>>)
        &&& self.names_held is None
        &&& self.lifecycle_held is None
        &&& self.current is None
        &&& self.applied == Map::<nat, Names>::empty()
        &&& self.calls == Map::<nat, Call>::empty()
    }

    /// What one act does.
    pub open spec fn next(self, step: NamingStep, after: Naming) -> bool {
        match step {
            NamingStep::Store { call, names } => {
                &&& !self.calls.contains_key(call)
                &&& self.names_held is None
                &&& after == Naming {
                    desired: names,
                    names_held: Some(call),
                    calls: self.calls.insert(call, Call::Stored),
                    ..self
                }
            },
            NamingStep::Pick { call } => {
                &&& self.calls.contains_key(call)
                &&& self.calls[call] is Stored
                &&& after == Naming {
                    calls: self.calls.insert(call, Call::Picked { target: self.current }),
                    ..self
                }
            },
            NamingStep::Apply { call } => {
                &&& self.calls.contains_key(call)
                &&& self.calls[call] matches Call::Picked { target }
                &&& after == Naming {
                    applied: match target {
                        Some(processor) => self.applied.insert(processor, self.desired),
                        None => self.applied,
                    },
                    calls: self.calls.insert(call, Call::Applied),
                    ..self
                }
            },
            NamingStep::Unlock { call } => {
                &&& self.calls.contains_key(call)
                &&& self.calls[call] is Applied
                &&& after == Naming {
                    names_held: None,
                    calls: self.calls.remove(call),
                    ..self
                }
            },
            NamingStep::Make { call, processor } => {
                &&& !self.calls.contains_key(call)
                &&& !self.applied.contains_key(processor)
                &&& after == Naming {
                    applied: self.applied.insert(
                        processor,
                        (None::<Seq<char>>, None::<Seq<char>>),
                    ),
                    calls: self.calls.insert(call, Call::Made { processor }),
                    ..self
                }
            },
            NamingStep::ReadSeed { call } => {
                &&& self.calls.contains_key(call)
                &&& self.calls[call] matches Call::Made { processor }
                &&& self.names_held is None
                &&& after == Naming {
                    calls: self.calls.insert(
                        call,
                        Call::SeedRead { processor, seed: self.desired },
                    ),
                    ..self
                }
            },
            NamingStep::Seed { call } => {
                &&& self.calls.contains_key(call)
                &&& self.calls[call] matches Call::SeedRead { processor, seed }
                &&& after == Naming {
                    applied: self.applied.insert(processor, seed),
                    calls: self.calls.insert(call, Call::Seeded { processor }),
                    ..self
                }
            },
            NamingStep::Publish { call } => {
                &&& self.calls.contains_key(call)
                &&& self.calls[call] matches Call::Seeded { processor }
                &&& self.lifecycle_held is None
                &&& after == Naming {
                    lifecycle_held: Some(call),
                    current: Some(processor),
                    calls: self.calls.insert(call, Call::Published { processor }),
                    ..self
                }
            },
            NamingStep::Lock { call } => {
                &&& self.calls.contains_key(call)
                &&& self.calls[call] matches Call::Published { processor }
                &&& self.names_held is None
                &&& after == Naming {
                    names_held: Some(call),
                    calls: self.calls.insert(call, Call::Synchronizing { processor }),
                    ..self
                }
            },
            NamingStep::Synchronize { call } => {
                &&& self.calls.contains_key(call)
                &&& self.calls[call] matches Call::Synchronizing { processor }
                &&& after == Naming {
                    applied: self.applied.insert(processor, self.desired),
                    calls: self.calls.insert(call, Call::Synchronized { processor }),
                    ..self
                }
            },
            NamingStep::Done { call } => {
                &&& self.calls.contains_key(call)
                &&& self.calls[call] is Synchronized
                &&& after == Naming {
                    names_held: None,
                    lifecycle_held: None,
                    calls: self.calls.remove(call),
                    ..self
                }
            },
            NamingStep::TakeOut => {
                &&& self.lifecycle_held is None
                &&& after == Naming { current: None, ..self }
            },
        }
    }

    /// Whether `processor` has the desired names, or some call has yet to hand them to it.
    pub open spec fn provided(self, processor: nat) -> bool {
        ||| self.applied[processor] == self.desired
        ||| self.lifecycle_held matches Some(call) && !(self.calls[call] is Synchronized)
        ||| self.names_held matches Some(call) && (self.calls[call] is Stored || self.calls[call]
            == Call::Picked { target: Some(processor) })
    }

    /// What every act keeps. Who holds what is known; processors that are not in place yet belong to
    /// one call each; and the one in place has the desired names or is going to get them.
    pub open spec fn inv(self) -> bool {
        &&& self.names_held matches Some(call) ==> self.calls.contains_key(call)
            && self.calls[call].holds_names()
        &&& self.lifecycle_held matches Some(call) ==> {
            &&& self.calls.contains_key(call)
            &&& self.calls[call].placed() is Some
            &&& self.calls[call].placed() == self.current
        }
        &&& forall|call: nat| #[trigger]
            self.calls.contains_key(call) ==> {
                &&& self.calls[call].holds_names() ==> self.names_held == Some(call)
                &&& self.calls[call].placed() is Some ==> self.lifecycle_held == Some(call)
                &&& self.calls[call].unpublished() matches Some(processor) ==> {
                    &&& self.applied.contains_key(processor)
                    &&& self.current != Some(processor)
                }
            }
        &&& forall|one: nat, other: nat|
            #![trigger self.calls.contains_key(one), self.calls.contains_key(other)]
            self.calls.contains_key(one) && self.calls.contains_key(other) && one != other
                && self.calls[one].unpublished() is Some ==> self.calls[one].unpublished()
                != self.calls[other].unpublished()
        &&& self.current matches Some(processor) ==> {
            &&& self.applied.contains_key(processor)
            &&& self.provided(processor)
        }
    }
}

/// Every act keeps the invariant.
pub proof fn naming_step_keeps_inv(before: Naming, step: NamingStep, after: Naming)
    requires
        before.inv(),
        before.next(step, after),
    ensures
        after.inv(),
{
}

/// Whether `states` is a run from a new handle by the acts `steps`.
pub open spec fn is_naming_run(states: Seq<Naming>, steps: Seq<NamingStep>) -> bool {
    &&& states.len() == steps.len() + 1
    &&& states[0].initial()
    &&& forall|i: int|
        0 <= i < steps.len() ==> #[trigger] states[i].next(steps[i], states[i + 1])
}

/// The names that were stored last in the course of `steps`; none, if no call has named the track.
pub open spec fn last_stored(steps: Seq<NamingStep>) -> Names
    decreases steps.len(),
{
    if steps.len() == 0 {
        (None, None)
    } else {
        match steps.last() {
            NamingStep::Store { names, .. } => names,
            _ => last_stored(steps.drop_last()),
        }
    }
}

/// However calls interleave that name the track and that replace its processor: the desired names
/// are those that were stored last, putting a processor in place does not change them, and whenever
/// no such call is between its steps, the processor in place has exactly those names.
pub proof fn names_agree_once_calls_are_done(
    states: Seq<Naming>,
    steps: Seq<NamingStep>,
    at: int,
)
    requires
        is_naming_run(states, steps),
        0 <= at < states.len(),
    ensures
        states[at].inv(),
        states[at].desired == last_stored(steps.take(at)),
        states[at].names_held is None && states[at].lifecycle_held is None
            && states[at].current is Some ==> states[at].applied[states[at].current->0]
            == last_stored(steps.take(at)),
    decreases at,
{
    if at > 0 {
        names_agree_once_calls_are_done(states, steps, at - 1);
        assert(states[at - 1].next(steps[at - 1], states[at - 1 + 1]));
        naming_step_keeps_inv(states[at - 1], steps[at - 1], states[at]);
        assert(steps.take(at).drop_last() =~= steps.take(at - 1));
    }
}

} // verus!
