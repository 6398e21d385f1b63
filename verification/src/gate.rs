//! Reader epochs that let a processor be replaced under its readers.
//!
//! A reader looks at the epoch, counts itself in under that epoch's slot, picks up the current
//! processor and looks again. If the epoch is still the same it has a lease, else it counts itself
//! out and starts over. A replacement swaps the processor, moves the epoch on, waits until the slot
//! that was left has no readers, and only then reclaims what it took out.

use vstd::prelude::*;

verus! {

/// How often a waiting lifecycle call spins before it yields its thread.
pub const SPIN_LIMIT: usize = 64;

/// The slot of an epoch: which of the two counts its readers are counted in.
pub open spec fn slot_at(epoch: nat) -> nat {
    epoch % 2
}

/// The slot of an epoch.
pub fn slot_of(epoch: usize) -> (slot: usize)
    ensures
        slot as nat == slot_at(epoch as nat),
        slot < 2,
{
    assert(epoch & 1 == epoch % 2) by (bit_vector);
    epoch & 1
}

/// The epoch after this one. At the top of their range epochs start over.
pub open spec fn later(epoch: nat) -> nat {
    if epoch >= usize::MAX {
        0
    } else {
        epoch + 1
    }
}

/// The epoch after this one.
pub fn next_epoch(epoch: usize) -> (next: usize)
    ensures
        next as nat == later(epoch as nat),
{
    epoch.wrapping_add(1)
}

/// Whether a reader that saw the epoch `seen` first may keep what it picked up, now that it finds
/// `epoch`.
pub open spec fn confirms(seen: nat, epoch: nat) -> bool {
    seen == epoch
}

/// Whether a reader that saw the epoch `seen` before it was counted in may keep what it picked up,
/// now that it finds `epoch`. Slots alone do not tell: two epochs on, they are the same again.
pub fn lease_stands(seen: usize, epoch: usize) -> (stands: bool)
    ensures
        stands == confirms(seen as nat, epoch as nat),
{
    seen == epoch
}

/// What a lifecycle call does that waits for readers.
#[derive(Debug, Clone, Copy, PartialEq, Eq, Structural)]
pub enum ReclaimStep {
    /// No reader is left: reclaim.
    Reclaim,
    /// Spin once more, for the `spins`-th time.
    Spin { spins: usize },
    /// Let other threads run.
    Yield,
}

/// What a lifecycle call does that finds `readers` left after `spins` spins.
pub open spec fn next_reclaim_step(readers: nat, spins: usize) -> ReclaimStep {
    if readers == 0 {
        ReclaimStep::Reclaim
    } else if spins < SPIN_LIMIT {
        ReclaimStep::Spin { spins: (spins + 1) as usize }
    } else {
        ReclaimStep::Yield
    }
}

/// Decides what a lifecycle call does that finds `readers` left after `spins` spins.
pub fn reclaim_step(readers: usize, spins: usize) -> (step: ReclaimStep)
    ensures
        step == next_reclaim_step(readers as nat, spins),
{
    if readers == 0 {
        ReclaimStep::Reclaim
    } else if spins < SPIN_LIMIT {
        ReclaimStep::Spin { spins: spins + 1 }
    } else {
        ReclaimStep::Yield
    }
}

/// The epoch, and how many readers are counted in each slot.
#[verifier::ext_equal]
pub struct Gate {
    pub epoch: nat,
    pub counts: (nat, nat),
}

impl Gate {
    /// The slot that readers enter now.
    pub open spec fn slot(self) -> nat {
        slot_at(self.epoch)
    }

    /// How many readers are counted in `slot`.
    pub open spec fn count(self, slot: nat) -> nat {
        if slot == 0 {
            self.counts.0
        } else {
            self.counts.1
        }
    }

    /// One reader more in `slot`.
    pub open spec fn enter(self, slot: nat) -> Gate {
        Gate {
            counts: if slot == 0 {
                (self.counts.0 + 1, self.counts.1)
            } else {
                (self.counts.0, self.counts.1 + 1)
            },
            ..self
        }
    }

    /// One reader fewer in `slot`.
    pub open spec fn leave(self, slot: nat) -> Gate {
        Gate {
            counts: if slot == 0 {
                ((self.counts.0 - 1) as nat, self.counts.1)
            } else {
                (self.counts.0, (self.counts.1 - 1) as nat)
            },
            ..self
        }
    }

    /// The next epoch.
    pub open spec fn flip(self) -> Gate {
        Gate { epoch: later(self.epoch), ..self }
    }
}

/// Where readers of a handle are counted.
#[derive(Debug)]
pub struct ReaderGate {
    pub epoch: usize,
    pub counts: [usize; 2],
}

impl View for ReaderGate {
    type V = Gate;

    open spec fn view(&self) -> Gate {
        Gate {
            epoch: self.epoch as nat,
            counts: (self.counts[0] as nat, self.counts[1] as nat),
        }
    }
}

impl ReaderGate {
    /// A gate without readers.
    pub fn new() -> (gate: Self)
        ensures
            gate@ == (Gate { epoch: 0, counts: (0, 0) }),
    {
        ReaderGate { epoch: 0, counts: [0, 0] }
    }

    /// The epoch now.
    pub fn look(&self) -> (epoch: usize)
        ensures
            epoch as nat == self@.epoch,
    {
        self.epoch
    }

    /// Counts a reader in. There are never as many readers as there are addresses.
    pub fn enter(&mut self, slot: usize)
        requires
            slot < 2,
            old(self)@.count(slot as nat) < usize::MAX,
        ensures
            final(self)@ == old(self)@.enter(slot as nat),
    {
        let count: usize = self.counts[slot];
        self.counts[slot] = count + 1;
    }

    /// Counts a reader out.
    pub fn leave(&mut self, slot: usize)
        requires
            slot < 2,
            old(self)@.count(slot as nat) > 0,
        ensures
            final(self)@ == old(self)@.leave(slot as nat),
    {
        let count: usize = self.counts[slot];
        self.counts[slot] = count - 1;
    }

    /// How many readers are counted in `slot`.
    pub fn readers(&self, slot: usize) -> (readers: usize)
        requires
            slot < 2,
        ensures
            readers as nat == self@.count(slot as nat),
    {
        self.counts[slot]
    }

    /// Moves the epoch on. Returns the slot that was left.
    pub fn flip(&mut self) -> (left: usize)
        ensures
            left < 2,
            left as nat == old(self)@.slot(),
            final(self)@ == old(self)@.flip(),
    {
        let left: usize = slot_of(self.epoch);
        self.epoch = next_epoch(self.epoch);
        left
    }
}

/// The next epoch has the other slot, also where epochs start over.
pub proof fn next_epoch_has_the_other_slot(epoch: usize)
    ensures
        slot_at(later(epoch as nat)) == 1 - slot_at(epoch as nat),
{
    assert(usize::MAX == 0xFFFF_FFFF || usize::MAX == 0xFFFF_FFFF_FFFF_FFFF);
}

/// How far a reader has come, and the epoch that it saw first.
pub enum Reader {
    /// It has looked at the epoch.
    Looked { epoch: nat },
    /// It is counted in.
    Entered { epoch: nat },
    /// It has picked up the current processor.
    Picked { epoch: nat, processor: Option<nat> },
    /// It has a lease.
    Leased { epoch: nat, processor: Option<nat> },
}

impl Reader {
    /// The epoch that the reader saw first.
    pub open spec fn epoch(self) -> nat {
        match self {
            Reader::Looked { epoch } => epoch,
            Reader::Entered { epoch } => epoch,
            Reader::Picked { epoch, .. } => epoch,
            Reader::Leased { epoch, .. } => epoch,
        }
    }

    /// Whether the reader is counted in `slot`.
    pub open spec fn counted_in(self, slot: nat) -> bool {
        !(self is Looked) && slot_at(self.epoch()) == slot
    }
}

/// How far the one lifecycle call has come that may be under way.
pub enum Writer {
    /// There is none.
    Idle,
    /// It has put a replacement in place of `retired`.
    Swapped { retired: Option<nat> },
    /// It has moved the epoch on and waits for the readers of the one that it left.
    Waiting { epoch: nat, retired: Option<nat> },
}

/// All that the readers and the lifecycle calls of one handle share, processors named by number.
pub struct Protocol {
    pub gate: Gate,
    pub current: Option<nat>,
    pub readers: Map<nat, Reader>,
    pub writer: Writer,
    pub made: Set<nat>,
    pub reclaimed: Set<nat>,
}

/// One indivisible act of one thread.
pub enum Step {
    Look { reader: nat },
    Enter { reader: nat },
    Pick { reader: nat },
    Confirm { reader: nat },
    Retry { reader: nat },
    Release { reader: nat },
    Swap { replacement: Option<nat> },
    Flip,
    Reclaim { spins: usize },
}

impl Protocol {
    /// A handle without a processor, readers or lifecycle calls.
    pub open spec fn initial(self) -> bool {
        &&& self.gate == (Gate { epoch: 0, counts: (0, 0) })
        &&& self.current is None
        &&& self.readers == Map::<nat, Reader>::empty()
        &&& self.writer is Idle
        &&& self.made == Set::<nat>::empty()
        &&& self.reclaimed == Set::<nat>::empty()
    }

    /// What one act does. The epoch does not start over here: no reader sleeps for as many
    /// replacements as there are epochs.
    pub open spec fn next(self, step: Step, after: Protocol) -> bool {
        match step {
            Step::Look { reader } => {
                &&& !self.readers.contains_key(reader)
                &&& after == Protocol {
                    readers: self.readers.insert(
                        reader,
                        Reader::Looked { epoch: self.gate.epoch },
                    ),
                    ..self
                }
            },
            Step::Enter { reader } => {
                &&& self.readers.contains_key(reader)
                &&& self.readers[reader] matches Reader::Looked { epoch }
                &&& after == Protocol {
                    gate: self.gate.enter(slot_at(epoch)),
                    readers: self.readers.insert(reader, Reader::Entered { epoch }),
                    ..self
                }
            },
            Step::Pick { reader } => {
                &&& self.readers.contains_key(reader)
                &&& self.readers[reader] matches Reader::Entered { epoch }
                &&& after == Protocol {
                    readers: self.readers.insert(
                        reader,
                        Reader::Picked { epoch, processor: self.current },
                    ),
                    ..self
                }
            },
            Step::Confirm { reader } => {
                &&& self.readers.contains_key(reader)
                &&& self.readers[reader] matches Reader::Picked { epoch, processor }
                &&& confirms(epoch, self.gate.epoch)
                &&& after == Protocol {
                    readers: self.readers.insert(reader, Reader::Leased { epoch, processor }),
                    ..self
                }
            },
            Step::Retry { reader } => {
                &&& self.readers.contains_key(reader)
                &&& self.readers[reader] matches Reader::Picked { epoch, .. }
                &&& !confirms(epoch, self.gate.epoch)
                &&& after == Protocol {
                    gate: self.gate.leave(slot_at(epoch)),
                    readers: self.readers.remove(reader),
                    ..self
                }
            },
            Step::Release { reader } => {
                &&& self.readers.contains_key(reader)
                &&& self.readers[reader] matches Reader::Leased { epoch, .. }
                &&& after == Protocol {
                    gate: self.gate.leave(slot_at(epoch)),
                    readers: self.readers.remove(reader),
                    ..self
                }
            },
            Step::Swap { replacement } => {
                &&& self.writer is Idle
                &&& replacement matches Some(processor) ==> !self.made.contains(processor)
                &&& after == Protocol {
                    current: replacement,
                    writer: Writer::Swapped { retired: self.current },
                    made: match replacement {
                        Some(processor) => self.made.insert(processor),
                        None => self.made,
                    },
                    ..self
                }
            },
            Step::Flip => {
                &&& self.writer matches Writer::Swapped { retired }
                &&& self.gate.epoch < usize::MAX
                &&& after == Protocol {
                    gate: self.gate.flip(),
                    writer: Writer::Waiting { epoch: self.gate.epoch, retired },
                    ..self
                }
            },
            Step::Reclaim { spins } => {
                &&& self.writer matches Writer::Waiting { epoch, retired }
                &&& next_reclaim_step(self.gate.count(slot_at(epoch)), spins)
                    == ReclaimStep::Reclaim
                &&& after == Protocol {
                    writer: Writer::Idle,
                    reclaimed: match retired {
                        Some(processor) => self.reclaimed.insert(processor),
                        None => self.reclaimed,
                    },
                    ..self
                }
            },
        }
    }

    /// Whether `processor` is in place, or was just taken out by a call that has yet to move the
    /// epoch.
    pub open spec fn in_place(self, processor: nat) -> bool {
        self.current == Some(processor) || self.writer == (Writer::Swapped {
            retired: Some(processor),
        })
    }

    /// Whether a lifecycle call waits for the readers of `epoch`.
    pub open spec fn waits_for(self, epoch: nat) -> bool {
        self.writer matches Writer::Waiting { epoch: left, .. } && left == epoch
    }

    /// Whether a lease of `epoch` keeps `processor` from being reclaimed.
    pub open spec fn shields(self, epoch: nat, processor: nat) -> bool {
        if epoch == self.gate.epoch {
            self.in_place(processor)
        } else {
            &&& self.waits_for(epoch)
            &&& self.writer->Waiting_retired == Some(processor) || self.current == Some(processor)
        }
    }

    /// The readers that are counted in `slot`.
    pub open spec fn inside(self, slot: nat) -> Set<nat> {
        Set::new(
            |reader: nat|
                self.readers.contains_key(reader) && self.readers[reader].counted_in(slot),
        )
    }

    /// What every act keeps.
    pub open spec fn inv(self) -> bool {
        &&& self.inside(0).finite() && self.inside(0).len() == self.gate.count(0)
        &&& self.inside(1).finite() && self.inside(1).len() == self.gate.count(1)
        &&& self.current matches Some(processor) ==> self.made.contains(processor)
            && !self.reclaimed.contains(processor)
        &&& self.reclaimed.subset_of(self.made)
        &&& match self.writer {
            Writer::Idle => true,
            Writer::Swapped { retired } => self.awaits(retired),
            Writer::Waiting { epoch, retired } => epoch + 1 == self.gate.epoch && self.awaits(
                retired,
            ),
        }
        &&& forall|reader: nat| #[trigger]
            self.readers.contains_key(reader) ==> {
                let epoch = self.readers[reader].epoch();
                &&& epoch <= self.gate.epoch
                &&& self.readers[reader] matches Reader::Picked { processor: Some(processor), .. }
                    ==> epoch == self.gate.epoch ==> self.in_place(processor)
                &&& self.readers[reader] is Leased ==> epoch == self.gate.epoch || self.waits_for(
                    epoch,
                )
                &&& self.readers[reader] matches Reader::Leased { processor: Some(processor), .. }
                    ==> self.shields(epoch, processor)
            }
    }

    /// A processor that is to be reclaimed has been made, is not in place, and is still there.
    pub open spec fn awaits(self, retired: Option<nat>) -> bool {
        retired matches Some(processor) ==> {
            &&& self.made.contains(processor)
            &&& !self.reclaimed.contains(processor)
            &&& self.current != Some(processor)
        }
    }

    /// No lease is on a processor that has been reclaimed.
    pub open spec fn leases_hold(self) -> bool {
        forall|reader: nat| #[trigger]
            self.readers.contains_key(reader) ==> (self.readers[reader] matches Reader::Leased {
                processor: Some(processor),
                ..
            } ==> !self.reclaimed.contains(processor))
    }
}

/// Every act keeps the invariant.
pub proof fn step_keeps_inv(before: Protocol, step: Step, after: Protocol)
    requires
        before.inv(),
        before.next(step, after),
    ensures
        after.inv(),
{
    match step {
        Step::Look { reader } => {
            assert(after.inside(0) =~= before.inside(0));
            assert(after.inside(1) =~= before.inside(1));
        },
        Step::Enter { reader } => {
            let slot = slot_at(before.readers[reader].epoch());
            assert(after.inside(slot) =~= before.inside(slot).insert(reader));
            assert(after.inside((1 - slot) as nat) =~= before.inside((1 - slot) as nat));
        },
        Step::Pick { reader } => {
            assert(after.inside(0) =~= before.inside(0));
            assert(after.inside(1) =~= before.inside(1));
        },
        Step::Confirm { reader } => {
            assert(after.inside(0) =~= before.inside(0));
            assert(after.inside(1) =~= before.inside(1));
        },
        Step::Retry { reader } | Step::Release { reader } => {
            let slot = slot_at(before.readers[reader].epoch());
            assert(before.inside(slot).contains(reader));
            assert(after.inside(slot) =~= before.inside(slot).remove(reader));
            assert(after.inside((1 - slot) as nat) =~= before.inside((1 - slot) as nat));
        },
        Step::Swap { replacement } => {
            assert(after.inside(0) =~= before.inside(0));
            assert(after.inside(1) =~= before.inside(1));
        },
        Step::Flip => {
            assert(after.inside(0) =~= before.inside(0));
            assert(after.inside(1) =~= before.inside(1));
        },
        Step::Reclaim { spins } => {
            assert(after.inside(0) =~= before.inside(0));
            assert(after.inside(1) =~= before.inside(1));
            let left = slot_at(before.writer->Waiting_epoch);
            assert(before.inside(left) =~= Set::empty());
            assert forall|reader: nat| #[trigger]
                before.readers.contains_key(reader) implies !before.readers[reader].counted_in(
                left,
            ) by {
                assert(!before.inside(left).contains(reader));
            }
        },
    }
}

/// Whether `states` is a run from an empty handle by the acts `steps`.
pub open spec fn is_run(states: Seq<Protocol>, steps: Seq<Step>) -> bool {
    &&& states.len() == steps.len() + 1
    &&& states[0].initial()
    &&& forall|i: int|
        0 <= i < steps.len() ==> #[trigger] states[i].next(steps[i], states[i + 1])
}

/// However readers and lifecycle calls interleave, a processor is reclaimed only after every lease
/// on it is over.
pub proof fn reclaimed_only_without_leases(states: Seq<Protocol>, steps: Seq<Step>, at: int)
    requires
        is_run(states, steps),
        0 <= at < states.len(),
    ensures
        states[at].inv(),
        states[at].leases_hold(),
    decreases at,
{
    if at == 0 {
        assert(states[0].inside(0) =~= Set::empty());
        assert(states[0].inside(1) =~= Set::empty());
    } else {
        reclaimed_only_without_leases(states, steps, at - 1);
        assert(states[at - 1].next(steps[at - 1], states[at - 1 + 1]));
        step_keeps_inv(states[at - 1], steps[at - 1], states[at]);
    }
}

/// A reader that is not disturbed gets a lease: if it looks, counts itself in, picks up and looks
/// again before the epoch moves on, it has a lease on what is in place.
pub proof fn undisturbed_readers_get_a_lease(
    before: Protocol,
    reader: nat,
    looked: Protocol,
    entered: Protocol,
    picked: Protocol,
) -> (after: Protocol)
    requires
        before.next(Step::Look { reader }, looked),
        looked.next(Step::Enter { reader }, entered),
        entered.next(Step::Pick { reader }, picked),
    ensures
        picked.next(Step::Confirm { reader }, after),
        after.readers.contains_key(reader),
        after.readers[reader] is Leased,
        after.readers[reader]->Leased_processor == before.current,
        after.gate == before.gate.enter(before.gate.epoch % 2),
{
    Protocol {
        readers: picked.readers.insert(
            reader,
            Reader::Leased { epoch: before.gate.epoch, processor: before.current },
        ),
        ..picked
    }
}

/// A lifecycle call reclaims as soon as the slot that it left has no readers, however long it has
/// waited, and not before. Until then it spins sixty-four times, and yields ever after.
pub proof fn waiting_ends_with_the_last_reader(readers: nat, spins: usize)
    ensures
        next_reclaim_step(readers, spins) == ReclaimStep::Reclaim <==> readers == 0,
        readers > 0 && spins < 64 ==> next_reclaim_step(readers, spins) == (ReclaimStep::Spin {
            spins: (spins + 1) as usize,
        }),
        readers > 0 && spins >= 64 ==> next_reclaim_step(readers, spins) == ReclaimStep::Yield,
{
}

/// Two looks confirm a lease exactly if they see the same epoch; two epochs in a row are counted in
/// different slots.
pub proof fn leases_need_one_epoch(seen: usize, found: usize)
    ensures
        confirms(seen as nat, found as nat) <==> seen == found,
        slot_at(later(seen as nat)) != slot_at(seen as nat),
        slot_at(seen as nat) < 2,
        seen < usize::MAX ==> later(seen as nat) == seen + 1,
{
    next_epoch_has_the_other_slot(seen);
}

/// A lease is on what was in place when its reader picked it up, and it begins while that is still
/// so: the processor is current, or was taken out by a call that has yet to move the epoch and will
/// wait for the lease.
pub proof fn leases_begin_in_place(before: Protocol, reader: nat, after: Protocol)
    requires
        before.inv(),
        before.next(Step::Confirm { reader }, after),
    ensures
        after.readers[reader]->Leased_processor == before.readers[reader]->Picked_processor,
        after.readers[reader]->Leased_processor matches Some(processor) ==> after.in_place(
            processor,
        ),
{
}

/// A reader is counted in one slot only, and nobody else is: once all readers have gone out, both
/// counts are back at zero.
pub proof fn counts_follow_readers(state: Protocol)
    requires
        state.inv(),
        forall|reader: nat| !state.readers.contains_key(reader),
    ensures
        state.gate.counts == (0nat, 0nat),
{
    assert(state.inside(0) =~= Set::empty());
    assert(state.inside(1) =~= Set::empty());
}

/// A reader that goes out only takes its count back. It reclaims nothing, and what is in place
/// stays.
pub proof fn readers_never_reclaim(before: Protocol, reader: nat, after: Protocol)
    requires
        before.inv(),
        before.next(Step::Release { reader }, after),
    ensures
        after.reclaimed == before.reclaimed,
        after.current == before.current,
        after.writer == before.writer,
        after.gate == before.gate.leave(slot_at(before.readers[reader].epoch())),
        before.gate.count(slot_at(before.readers[reader].epoch())) > 0,
{
    let slot = slot_at(before.readers[reader].epoch());
    assert(before.inside(slot).contains(reader));
}

/// While no lifecycle call is under way, all leases are of the epoch now. A reader that saw an
/// earlier one gets no lease: it has yet to look again, and will start over.
pub proof fn idle_leases_are_of_the_epoch_now(state: Protocol, reader: nat)
    requires
        state.inv(),
        state.writer is Idle,
        state.readers.contains_key(reader),
        state.readers[reader].epoch() != state.gate.epoch,
    ensures
        !(state.readers[reader] is Leased),
        !exists|after: Protocol| state.next(Step::Confirm { reader }, after),
{
}

} // verus!
