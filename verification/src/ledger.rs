//! Where each message of an archive connection is.
//!
//! A ledger records what was queued, what left, what came in and what was handed out since a
//! connection was made. Every step of the connection keeps its queues and its counters in line with
//! the ledger.

use crate::archive::{
    contents, total_bytes, ArchiveWebRtcHandle, ArchiveWebRtcStatus, PeerUpdate, SocketTick,
    MAX_MESSAGE_BYTES, MESSAGES_PER_TICK, QUEUE_CAPACITY, STATE_DISCOVERING,
};
use crate::status::counted;
use vstd::prelude::*;

verus! {

/// What happened to the messages of a connection so far, each list in order.
#[verifier::ext_equal]
pub struct Ledger {
    pub queued: Seq<Seq<u8>>,
    pub left: Seq<Seq<u8>>,
    pub arrived: Seq<Seq<u8>>,
    pub handed_out: Seq<Seq<u8>>,
}

/// One step of a connection, with what it was given and what it gave.
pub enum ArchiveStep {
    GiveUp,
    Queue { bytes: Option<Seq<u8>>, queued: bool },
    HandOut { capacity: Option<usize>, message: Option<Seq<u8>> },
    Tick { updates: Seq<PeerUpdate>, messages: Seq<Seq<u8>>, tick: SocketTick },
    End { error: Option<Seq<char>> },
}

/// Whether `step` leads from `before` to `after`.
pub open spec fn leads_to(
    before: ArchiveWebRtcHandle,
    step: ArchiveStep,
    after: ArchiveWebRtcHandle,
) -> bool {
    match step {
        ArchiveStep::GiveUp => before.gives_up(after),
        ArchiveStep::Queue { bytes, queued } => before.queues(bytes, after, queued),
        ArchiveStep::HandOut { capacity, message } => before.hands_out(capacity, after, message),
        ArchiveStep::Tick { updates, messages, tick } => before.ticks(
            updates,
            messages,
            after,
            tick,
        ),
        ArchiveStep::End { error } => before.ends(error, after),
    }
}

/// The messages that a tick takes in.
pub open spec fn taken_in(before: ArchiveWebRtcHandle, messages: Seq<Seq<u8>>) -> Seq<Seq<u8>> {
    if before.state.cancelled {
        Seq::empty()
    } else if messages.len() <= before.inbound_space() {
        messages
    } else {
        messages.take(before.inbound_space() as int)
    }
}

/// The messages that a tick sends.
pub open spec fn sent_by(tick: SocketTick) -> Seq<Seq<u8>> {
    match tick {
        SocketTick::Send { messages, .. } => contents(messages@),
        _ => Seq::empty(),
    }
}

/// The ledger after `step`.
pub open spec fn recorded(
    ledger: Ledger,
    before: ArchiveWebRtcHandle,
    step: ArchiveStep,
) -> Ledger {
    match step {
        ArchiveStep::Queue { bytes, queued: true } => Ledger {
            queued: ledger.queued.push(bytes->0),
            ..ledger
        },
        ArchiveStep::HandOut { message: Some(message), .. } => Ledger {
            handed_out: ledger.handed_out.push(message),
            ..ledger
        },
        ArchiveStep::Tick { messages, tick, .. } => Ledger {
            left: ledger.left + sent_by(tick),
            arrived: ledger.arrived + taken_in(before, messages),
            ..ledger
        },
        _ => ledger,
    }
}

/// Whether a connection is in line with its ledger. What left is what was queued first, and while
/// the socket runs the rest waits. What was handed out came in first, and the rest waits. The
/// counters count what left and what came in.
pub open spec fn in_line(handle: ArchiveWebRtcHandle, ledger: Ledger) -> bool {
    &&& ledger.left.is_prefix_of(ledger.queued)
    &&& handle.running ==> ledger.queued == ledger.left + contents(handle.outbound@)
    &&& !handle.running ==> handle.outbound@.len() == 0
    &&& ledger.arrived == ledger.handed_out + contents(handle.inbound@)
    &&& handle.state.messages_sent == counted(0, ledger.left.len())
    &&& handle.state.bytes_sent == counted(0, total_bytes(ledger.left))
    &&& handle.state.messages_received == counted(0, ledger.arrived.len())
    &&& handle.state.bytes_received == counted(0, total_bytes(ledger.arrived))
}

/// The bytes of two lists of messages are those of the first and those of the second.
proof fn lemma_total_bytes_of_sum(first: Seq<Seq<u8>>, second: Seq<Seq<u8>>)
    ensures
        total_bytes(first + second) == total_bytes(first) + total_bytes(second),
    decreases second.len(),
{
    if second.len() == 0 {
        assert(first + second =~= first);
    } else {
        assert((first + second).drop_last() =~= first + second.drop_last());
        lemma_total_bytes_of_sum(first, second.drop_last());
    }
}

/// Counting on from a count is counting both.
proof fn lemma_counted_on(first: nat, second: nat)
    ensures
        counted(counted(0, first), second) == counted(0, first + second),
{
}

/// A tick keeps the outgoing side in line.
proof fn lemma_tick_keeps_outgoing(
    before: ArchiveWebRtcHandle,
    updates: Seq<PeerUpdate>,
    messages: Seq<Seq<u8>>,
    after: ArchiveWebRtcHandle,
    tick: SocketTick,
    ledger: Ledger,
)
    requires
        before.wf(),
        before.ticks(updates, messages, after, tick),
        in_line(before, ledger),
    ensures
        (ledger.left + sent_by(tick)).is_prefix_of(ledger.queued),
        after.running ==> ledger.queued == ledger.left + sent_by(tick) + contents(after.outbound@),
        !after.running ==> after.outbound@.len() == 0,
        after.state.messages_sent == counted(0, (ledger.left + sent_by(tick)).len()),
        after.state.bytes_sent == counted(0, total_bytes(ledger.left + sent_by(tick))),
{
    let sent = sent_by(tick);
    let waiting = contents(before.outbound@);
    if tick is Send {
        let count = if before.outbound@.len() < MESSAGES_PER_TICK {
            before.outbound@.len()
        } else {
            MESSAGES_PER_TICK as nat
        };
        assert(sent =~= waiting.take(count as int));
        assert(contents(after.outbound@) =~= waiting.skip(count as int));
        assert(ledger.left + waiting =~= ledger.left + sent + contents(after.outbound@));
        lemma_total_bytes_of_sum(ledger.left, sent);
        lemma_counted_on(ledger.left.len(), sent.len());
        lemma_counted_on(total_bytes(ledger.left), total_bytes(sent));
        if !before.running {
            assert(ledger.left + sent =~= ledger.left);
        }
    } else {
        assert(ledger.left + sent =~= ledger.left);
    }
}

/// A tick keeps the incoming side in line.
proof fn lemma_tick_keeps_incoming(
    before: ArchiveWebRtcHandle,
    updates: Seq<PeerUpdate>,
    messages: Seq<Seq<u8>>,
    after: ArchiveWebRtcHandle,
    tick: SocketTick,
    ledger: Ledger,
)
    requires
        before.wf(),
        before.ticks(updates, messages, after, tick),
        in_line(before, ledger),
    ensures
        ledger.arrived + taken_in(before, messages) == ledger.handed_out + contents(
            after.inbound@,
        ),
        after.state.messages_received == counted(
            0,
            (ledger.arrived + taken_in(before, messages)).len(),
        ),
        after.state.bytes_received == counted(
            0,
            total_bytes(ledger.arrived + taken_in(before, messages)),
        ),
{
    let taken = taken_in(before, messages);
    if before.state.cancelled {
        assert(ledger.arrived + taken =~= ledger.arrived);
    } else {
        assert(messages.take(messages.len() as int) =~= messages);
        assert(contents(after.inbound@) == contents(before.inbound@) + taken);
        assert(ledger.arrived + taken =~= ledger.handed_out + contents(after.inbound@));
        lemma_total_bytes_of_sum(ledger.arrived, taken);
        lemma_counted_on(ledger.arrived.len(), taken.len());
        lemma_counted_on(total_bytes(ledger.arrived), total_bytes(taken));
    }
}

/// A new connection is in line with an empty ledger.
pub proof fn new_connection_is_in_line(handle: ArchiveWebRtcHandle)
    requires
        handle.state@ == (ArchiveWebRtcStatus {
            state: STATE_DISCOVERING,
            ..ArchiveWebRtcStatus::idle()
        }),
        handle.running,
        handle.outbound@.len() == 0,
        handle.inbound@.len() == 0,
    ensures
        in_line(
            handle,
            Ledger {
                queued: Seq::empty(),
                left: Seq::empty(),
                arrived: Seq::empty(),
                handed_out: Seq::empty(),
            },
        ),
{
    assert(contents(handle.outbound@) =~= Seq::<Seq<u8>>::empty());
    assert(contents(handle.inbound@) =~= Seq::<Seq<u8>>::empty());
}

/// Every step keeps a connection in line with its ledger. So messages leave in the order in which
/// they were queued and are handed out in the order in which they came in, none of them twice; none
/// is lost while the socket runs; and the counters tell exactly how many left and came in.
pub proof fn step_keeps_in_line(
    before: ArchiveWebRtcHandle,
    step: ArchiveStep,
    after: ArchiveWebRtcHandle,
    ledger: Ledger,
)
    requires
        before.wf(),
        leads_to(before, step, after),
        in_line(before, ledger),
    ensures
        in_line(after, recorded(ledger, before, step)),
{
    let next = recorded(ledger, before, step);
    match step {
        ArchiveStep::GiveUp => {},
        ArchiveStep::Queue { bytes, queued } => {
            if queued {
                assert(next.queued =~= ledger.left + contents(after.outbound@));
                assert(ledger.left.is_prefix_of(next.queued));
            }
        },
        ArchiveStep::HandOut { capacity, message } => {
            if message is Some {
                assert(next.arrived =~= next.handed_out + contents(after.inbound@));
            }
        },
        ArchiveStep::Tick { updates, messages, tick } => {
            lemma_tick_keeps_outgoing(before, updates, messages, after, tick, ledger);
            lemma_tick_keeps_incoming(before, updates, messages, after, tick, ledger);
        },
        ArchiveStep::End { error } => {},
    }
}

/// Every message that left was at least one byte and at most the longest message long.
pub proof fn sent_messages_are_bounded(
    before: ArchiveWebRtcHandle,
    updates: Seq<PeerUpdate>,
    messages: Seq<Seq<u8>>,
    after: ArchiveWebRtcHandle,
    tick: SocketTick,
)
    requires
        before.wf(),
        before.ticks(updates, messages, after, tick),
    ensures
        sent_by(tick).len() <= MESSAGES_PER_TICK,
        forall|i: int|
            0 <= i < sent_by(tick).len() ==> 0 < (#[trigger] sent_by(tick)[i]).len()
                <= MAX_MESSAGE_BYTES,
{
    if let SocketTick::Send { messages: leaving, .. } = tick {
        assert forall|i: int| 0 <= i < sent_by(tick).len() implies 0 < (
        #[trigger] sent_by(tick)[i]).len() <= MAX_MESSAGE_BYTES by {
            assert(sent_by(tick)[i] == before.outbound@[i]@);
        }
    }
}

/// A connection that was given up never sends or takes anything in again: its next tick stops the
/// socket, whatever has come in, and it stays given up.
pub proof fn given_up_connection_stops(
    before: ArchiveWebRtcHandle,
    given_up: ArchiveWebRtcHandle,
    updates: Seq<PeerUpdate>,
    messages: Seq<Seq<u8>>,
    after: ArchiveWebRtcHandle,
    tick: SocketTick,
)
    requires
        before.gives_up(given_up),
        given_up.ticks(updates, messages, after, tick),
    ensures
        tick is Stop,
        after.state.cancelled,
        !after.running,
        after.inbound == before.inbound,
        after.state@ == before.state@,
        forall|bytes: Option<Seq<u8>>| !after.admits(bytes),
{
}

/// Once the socket is over, no message is admitted any more, and no step starts it again.
pub proof fn ended_connection_stays_ended(
    before: ArchiveWebRtcHandle,
    step: ArchiveStep,
    after: ArchiveWebRtcHandle,
)
    requires
        !before.running,
        leads_to(before, step, after),
    ensures
        !after.running,
        forall|bytes: Option<Seq<u8>>| !after.admits(bytes),
{
}

/// A tick that brings more than there is space for ends the connection with an error; what fits is
/// still there to be handed out.
pub proof fn overflow_ends_the_connection(
    before: ArchiveWebRtcHandle,
    updates: Seq<PeerUpdate>,
    messages: Seq<Seq<u8>>,
    after: ArchiveWebRtcHandle,
    tick: SocketTick,
)
    requires
        before.wf(),
        !before.state.cancelled,
        before.inbound@.len() + messages.len() > QUEUE_CAPACITY,
        before.ticks(updates, messages, after, tick),
    ensures
        tick is Stop,
        after.state.state == crate::archive::STATE_FAILED,
        after.state.last_error@ == "The direct archive receive queue is full."@,
        after.inbound@.len() == QUEUE_CAPACITY,
        contents(after.inbound@) == contents(before.inbound@) + messages.take(
            QUEUE_CAPACITY - before.inbound@.len(),
        ),
{
    assert(contents(after.inbound@).len() == after.inbound@.len());
}

} // verus!
