//! What the worker is for: it brings a connection up, sends what is newest, announces the names of
//! the track in time, and counts what it does.

use crate::frame::{packet, packet_layout, sendable_quanta_hold_whole_samples, QueuedFrame};
use crate::laws::{draining, packets_carry_the_newest_frame};
use crate::processor::AudioProcessor;
use crate::ring::{buffers_sent, frames_received, frames_waiting};
use crate::status::AudioProcessorStatus;
use crate::worker::{audio_of, coalesced, taken_since, MetadataOutcome, TxAction, TxEvent, TxPhase};
use crate::worker::TxWorker;
use vstd::prelude::*;

verus! {

/// Whether the worker, on its way from `before` to `after`, took out everything that waited in the
/// ring of frames.
pub open spec fn took_all_that_waited(before: TxWorker, after: TxWorker) -> bool {
    exists|taken: Seq<(i64, u32, Seq<u8>)>|
        {
            &&& frames_received(after.data_consumer) == #[trigger] (frames_received(
                before.data_consumer,
            ) + taken)
            &&& frames_waiting(before.data_consumer).is_prefix_of(taken)
        }
}

proof fn lemma_draining_takes_all(
    before: TxWorker,
    event: TxEvent,
    status: AudioProcessorStatus,
    after: TxWorker,
    status_after: AudioProcessorStatus,
    action: TxAction,
)
    requires
        before.steps(event, status, after, status_after, action),
        draining(before, event),
    ensures
        took_all_that_waited(before, after),
{
    let taken = taken_since(before.data_consumer, after.data_consumer);
    assert(frames_received(after.data_consumer) == frames_received(before.data_consumer) + taken);
}

/// A round of a connection that is not told to shut down either announces the names or takes out
/// all that waits. It announces exactly if the names have changed since they were announced last, or
/// that was two seconds ago or longer; and an announcement is for the connection's own stream and
/// leaves the audio for the next step.
pub proof fn rounds_announce_or_drain(
    before: TxWorker,
    metadata_version: u64,
    since_metadata: u64,
    status: AudioProcessorStatus,
    after: TxWorker,
    status_after: AudioProcessorStatus,
    action: TxAction,
)
    requires
        before.phase is Polling,
        before.steps(
            TxEvent::Observed { shutdown: false, metadata_version, since_metadata },
            status,
            after,
            status_after,
            action,
        ),
    ensures
        action is SendMetadata <==> metadata_version != before.sent_metadata_version
            || since_metadata >= 2_000_000_000,
        action is SendMetadata ==> {
            &&& action == (TxAction::SendMetadata { stream_id: before.stream_id })
            &&& after.phase == (TxPhase::Refreshing { version: metadata_version })
            &&& after.data_consumer == before.data_consumer
        },
        !(action is SendMetadata) ==> took_all_that_waited(before, after),
{
    let event = TxEvent::Observed { shutdown: false, metadata_version, since_metadata };
    if draining(before, event) {
        lemma_draining_takes_all(before, event, status, after, status_after, action);
    }
}

/// Once an announcement is over, however it went, all that waits is taken out. One that went out, or
/// that found nothing readable to announce, counts as announced; one that failed does not.
pub proof fn announcements_lead_on_to_audio(
    before: TxWorker,
    outcome: MetadataOutcome,
    now: u64,
    status: AudioProcessorStatus,
    after: TxWorker,
    status_after: AudioProcessorStatus,
    action: TxAction,
)
    requires
        before.steps(
            TxEvent::Announced { outcome, now },
            status,
            after,
            status_after,
            action,
        ),
    ensures
        before.phase is Announcing || before.phase is Refreshing,
        took_all_that_waited(before, after),
        before.phase matches TxPhase::Refreshing { version } ==> after.sent_metadata_version == (
        if outcome is Failed {
            before.sent_metadata_version
        } else {
            version
        }),
        before.phase is Announcing ==> after.sent_metadata_version == before.sent_metadata_version,
{
    lemma_draining_takes_all(
        before,
        TxEvent::Announced { outcome, now },
        status,
        after,
        status_after,
        action,
    );
}

/// Of what a step takes out, the newest is what is sent: if it holds whole samples, as many as a
/// header counts, it is held and a packet is to be written, and all others are counted as dropped.
/// Otherwise it is dropped and counted too. A step that takes nothing out sends and drops nothing.
pub proof fn the_newest_is_sent_and_the_rest_is_dropped(
    before: TxWorker,
    event: TxEvent,
    status: AudioProcessorStatus,
    after: TxWorker,
    status_after: AudioProcessorStatus,
    action: TxAction,
    taken: Seq<(i64, u32, Seq<u8>)>,
    samples: nat,
)
    requires
        before.wf(),
        before.steps(event, status, after, status_after, action),
        frames_received(after.data_consumer) == frames_received(before.data_consumer) + taken,
    ensures
        taken.len() == 0 ==> action != TxAction::WritePacket && status_after.frames_dropped
            == status.frames_dropped,
        taken.len() > 0 && 1 <= samples <= 4095 && taken.last().2.len() == samples * (
        before.num_channels as nat * 3) ==> {
            &&& action == TxAction::WritePacket
            &&& after.in_flight is Some
            &&& after.in_flight->0@ == taken.last()
            &&& status_after.frames_dropped == (status.frames_dropped + taken.len() - 1)
                % 0x1_0000_0000_0000_0000
        },
        taken.len() > 0 && action != TxAction::WritePacket ==> {
            &&& after.in_flight is None
            &&& status_after.frames_dropped == (status.frames_dropped + taken.len())
                % 0x1_0000_0000_0000_0000
            &&& forall|count: nat|
                1 <= count <= 4095 ==> taken.last().2.len() != #[trigger] (count * (
                before.num_channels as nat * 3))
        },
{
    let burst = taken_since(before.data_consumer, after.data_consumer);
    assert(burst =~= taken);
    if taken.len() > 0 {
        sendable_quanta_hold_whole_samples(taken.last().2.len(), before.num_channels);
        if 1 <= samples <= 4095 && taken.last().2.len() == samples * (before.num_channels as nat
            * 3) {
            let count = samples;
            assert(taken.last().2.len() == count * (before.num_channels as nat * 3));
        }
    }
}

/// Whether `event` is good news: nothing failed, and nobody said to shut down.
pub open spec fn is_good_news(event: TxEvent) -> bool {
    match event {
        TxEvent::Observed { shutdown, .. } => !shutdown,
        TxEvent::Connected { ok } => ok,
        TxEvent::Written { ok, .. } => ok,
        TxEvent::StreamId { bytes, .. } => bytes is Some,
        TxEvent::Announced { .. } => true,
    }
}

/// How many steps at most it takes to come to the ring of frames, if there is only good news.
pub open spec fn steps_to_audio(phase: TxPhase) -> nat {
    match phase {
        TxPhase::Stopped => 0,
        TxPhase::Announcing => 1,
        TxPhase::Refreshing { .. } => 1,
        TxPhase::Polling => 2,
        TxPhase::AwaitingId => 2,
        TxPhase::Settling { .. } => 3,
        TxPhase::Greeting => 3,
        TxPhase::Writing { .. } => 4,
        TxPhase::Connecting => 4,
        TxPhase::LoopTop => 5,
        TxPhase::Backoff => 6,
    }
}

/// With good news, every step takes out all that waits or comes closer to doing so.
pub proof fn good_news_brings_audio_closer(
    before: TxWorker,
    event: TxEvent,
    status: AudioProcessorStatus,
    after: TxWorker,
    status_after: AudioProcessorStatus,
    action: TxAction,
)
    requires
        is_good_news(event),
        before.steps(event, status, after, status_after, action),
    ensures
        took_all_that_waited(before, after) || 0 < steps_to_audio(after.phase) < steps_to_audio(
            before.phase,
        ),
        steps_to_audio(before.phase) <= 6,
{
    if draining(before, event) {
        lemma_draining_takes_all(before, event, status, after, status_after, action);
    }
}

/// What a worker was told, what it answered, and how the status changed with each step. Between two
/// steps others may change the status.
pub struct WorkerRun {
    pub workers: Seq<TxWorker>,
    pub events: Seq<TxEvent>,
    pub actions: Seq<TxAction>,
    pub statuses: Seq<(AudioProcessorStatus, AudioProcessorStatus)>,
}

impl WorkerRun {
    /// Whether every worker came out of the one before it by a step.
    pub open spec fn holds(self) -> bool {
        &&& self.workers.len() == self.events.len() + 1
        &&& self.actions.len() == self.events.len()
        &&& self.statuses.len() == self.events.len()
        &&& forall|i: int| 0 <= i < self.events.len() ==> #[trigger] self.at(i)
        &&& forall|i: int| 0 <= i < self.workers.len() ==> (#[trigger] self.workers[i]).wf()
    }

    /// Whether step `i` leads from one worker to the next.
    pub open spec fn at(self, i: int) -> bool {
        self.workers[i].steps(
            self.events[i],
            self.statuses[i].0,
            self.workers[i + 1],
            self.statuses[i].1,
            self.actions[i],
        )
    }
}

/// While there is only good news, all that waits is taken out within six steps, wherever the worker
/// stands. So no queued audio waits for ever.
pub proof fn audio_is_reached_within_six_steps(run: WorkerRun, start: int) -> (step: int)
    requires
        run.holds(),
        0 <= start,
        start + steps_to_audio(run.workers[start].phase) <= run.events.len(),
        !(run.workers[start].phase is Stopped),
        forall|i: int| 0 <= i < run.events.len() ==> is_good_news(#[trigger] run.events[i]),
    ensures
        start <= step < start + 6,
        step < run.events.len(),
        took_all_that_waited(run.workers[step], run.workers[step + 1]),
{
    assert(run.at(start));
    good_news_brings_audio_closer(
        run.workers[start],
        run.events[start],
        run.statuses[start].0,
        run.workers[start + 1],
        run.statuses[start].1,
        run.actions[start],
    );
    if took_all_that_waited(run.workers[start], run.workers[start + 1]) {
        start
    } else {
        lemma_reached(run, start + 1)
    }
}

proof fn lemma_reached(run: WorkerRun, start: int) -> (step: int)
    requires
        run.holds(),
        0 <= start,
        start + steps_to_audio(run.workers[start].phase) <= run.events.len(),
        steps_to_audio(run.workers[start].phase) > 0,
        forall|i: int| 0 <= i < run.events.len() ==> is_good_news(#[trigger] run.events[i]),
    ensures
        start <= step < start + steps_to_audio(run.workers[start].phase),
        step < run.events.len(),
        took_all_that_waited(run.workers[step], run.workers[step + 1]),
    decreases steps_to_audio(run.workers[start].phase),
{
    assert(run.at(start));
    good_news_brings_audio_closer(
        run.workers[start],
        run.events[start],
        run.statuses[start].0,
        run.workers[start + 1],
        run.statuses[start].1,
        run.actions[start],
    );
    if took_all_that_waited(run.workers[start], run.workers[start + 1]) {
        start
    } else {
        lemma_reached(run, start + 1)
    }
}

/// A connection is brought up in order: a stream, the greeting, the name of the stream, the first
/// announcement, and only then audio. Each asks for the next exactly if it went well.
pub proof fn connections_come_up_in_order(
    before: TxWorker,
    event: TxEvent,
    status: AudioProcessorStatus,
    after: TxWorker,
    status_after: AudioProcessorStatus,
    action: TxAction,
)
    requires
        before.steps(event, status, after, status_after, action),
    ensures
        action == TxAction::Connect <==> before.phase is LoopTop && is_good_news(event),
        action == TxAction::WriteGreeting <==> before.phase is Connecting && is_good_news(event),
        action == TxAction::ReadStreamId <==> before.phase is Greeting && is_good_news(event),
        action is SendMetadata && !(before.phase is Polling) <==> before.phase is AwaitingId
            && is_good_news(event),
        action == TxAction::WritePacket ==> before.phase is Announcing || before.phase is Polling
            || before.phase is Refreshing,
        after.phase is Connecting <==> action == TxAction::Connect,
        after.phase is Greeting <==> action == TxAction::WriteGreeting,
        after.phase is AwaitingId <==> action == TxAction::ReadStreamId,
        after.phase is Writing <==> action == TxAction::WritePacket,
        after.phase is Announcing || after.phase is Refreshing <==> action is SendMetadata,
        after.phase is Stopped <==> action == TxAction::Stop,
{
}

/// A connection ends, and with it the attempt, exactly when something fails or the worker is told to
/// shut down. After that the worker pauses for fifty milliseconds before it tries again, unless it
/// is to stop.
pub proof fn failures_end_the_connection(
    before: TxWorker,
    event: TxEvent,
    status: AudioProcessorStatus,
    after: TxWorker,
    status_after: AudioProcessorStatus,
    action: TxAction,
)
    requires
        before.steps(event, status, after, status_after, action),
    ensures
        !(before.phase is LoopTop) && !(before.phase is Backoff) ==> (after.phase is Backoff
            <==> !is_good_news(event)),
        before.phase is Backoff ==> after.phase is LoopTop && action == (if is_good_news(event) {
            TxAction::Park { nanos: 50_000_000 }
        } else {
            TxAction::Observe
        }),
        before.phase is LoopTop && !is_good_news(event) ==> action == TxAction::Stop,
        after.phase is Backoff ==> action == TxAction::Observe && !status_after.connected,
{
}

/// What a step does to the flags and counters, all of it. An attempt, a failure and a packet that
/// was written are each counted when they happen, and only then; the flags show whether a connection
/// is up; and the times are those of the last connection and the last packet.
pub proof fn every_step_is_counted(
    before: TxWorker,
    event: TxEvent,
    status: AudioProcessorStatus,
    after: TxWorker,
    status_after: AudioProcessorStatus,
    action: TxAction,
)
    requires
        before.steps(event, status, after, status_after, action),
    ensures
        status_after.connection_attempts == (status.connection_attempts + (if action
            == TxAction::Connect {
            1int
        } else {
            0int
        })) % 0x1_0000_0000_0000_0000,
        status_after.connection_failures == (status.connection_failures + (if !is_good_news(event)
            && !(event is Observed) {
            1int
        } else {
            0int
        })) % 0x1_0000_0000_0000_0000,
        status_after.frames_sent == (status.frames_sent + (if before.phase is Writing
            && is_good_news(event) {
            1int
        } else {
            0int
        })) % 0x1_0000_0000_0000_0000,
        status_after.frames_queued == status.frames_queued,
        frames_received(after.data_consumer) == frames_received(before.data_consumer)
            ==> status_after.frames_dropped == status.frames_dropped,
        status_after.started == (status.started && action != TxAction::Stop),
        status_after.connected == (if before.phase is Announcing {
            true
        } else if after.phase is Backoff || after.phase is Stopped {
            false
        } else {
            status.connected
        }),
        status_after.last_connected_unix_ms == (if before.phase is Announcing {
            event->Announced_now
        } else {
            status.last_connected_unix_ms
        }),
        status_after.last_send_unix_ms == (if before.phase is Writing && is_good_news(event) {
            event->Written_now
        } else {
            status.last_send_unix_ms
        }),
{
    if frames_received(after.data_consumer) == frames_received(before.data_consumer) {
        let burst = taken_since(before.data_consumer, after.data_consumer);
        assert(burst.len() == 0);
    }
}

/// A worker rests only where there is nothing to do: after a round that found no audio, until the
/// names are due again two seconds after they were announced last, but for a millisecond at least;
/// or between two attempts to connect. After a round with audio it goes on at once.
pub proof fn rests_are_exact(
    before: TxWorker,
    event: TxEvent,
    status: AudioProcessorStatus,
    after: TxWorker,
    status_after: AudioProcessorStatus,
    action: TxAction,
)
    requires
        before.steps(event, status, after, status_after, action),
    ensures
        action is Park <==> is_good_news(event) && (before.phase is Backoff || before.phase
            == (TxPhase::Settling { sent_audio: false })),
        before.phase is Settling && is_good_news(event) ==> after.phase is Polling && (action is Park
            || action == TxAction::Observe),
        before.phase is Settling && action is Park ==> {
            let nanos = action->nanos;
            let since = event->since_metadata;
            &&& nanos >= 1_000_000
            &&& since + nanos >= 2_000_000_000
            &&& nanos > 1_000_000 ==> since + nanos == 2_000_000_000
        },
{
}

/// A round that had a frame to deal with goes on without a rest; the first one of a connection goes
/// straight on to the next round.
pub proof fn rounds_remember_their_audio(
    before: TxWorker,
    event: TxEvent,
    status: AudioProcessorStatus,
    after: TxWorker,
    status_after: AudioProcessorStatus,
    action: TxAction,
)
    requires
        before.steps(event, status, after, status_after, action),
    ensures
        after.phase matches TxPhase::Settling { sent_audio } ==> (sent_audio <==> (
        before.phase is Writing || frames_received(after.data_consumer) != frames_received(
            before.data_consumer,
        ))),
        after.phase matches TxPhase::Writing { first } ==> (first <==> before.phase is Announcing),
        before.phase is Writing && is_good_news(event) ==> after.phase == (
        if before.phase->Writing_first {
            TxPhase::Polling
        } else {
            TxPhase::Settling { sent_audio: true }
        }),
        before.phase is Announcing ==> after.phase is Polling || after.phase is Writing,
{
    if after.phase is Settling && !(before.phase is Writing) {
        let burst = taken_since(before.data_consumer, after.data_consumer);
        assert(frames_received(after.data_consumer) == frames_received(before.data_consumer)
            + burst);
        if burst.len() == 0 {
            assert(frames_received(after.data_consumer) =~= frames_received(before.data_consumer));
        }
    }
}

/// What a step never changes: where the worker connects to and what it is set up for. Its stream
/// changes only when a stream is named, and the version that it counts as announced only with that
/// or with an announcement.
pub proof fn settings_never_change(
    before: TxWorker,
    event: TxEvent,
    status: AudioProcessorStatus,
    after: TxWorker,
    status_after: AudioProcessorStatus,
    action: TxAction,
)
    requires
        before.steps(event, status, after, status_after, action),
    ensures
        after.socket_path == before.socket_path,
        after.num_channels == before.num_channels,
        after.sample_rate == before.sample_rate,
        after.max_frame_bytes == before.max_frame_bytes,
        after.frame_id == before.frame_id,
        !(event is StreamId && is_good_news(event)) ==> after.stream_id == before.stream_id,
        !(event is StreamId && is_good_news(event)) && !(event is Announced)
            ==> after.sent_metadata_version == before.sent_metadata_version,
{
}

/// The stream is named by the settings, or else by the two bytes that were read, the low one first;
/// and the names that are announced next are those of the version seen with it.
pub proof fn streams_are_named(
    before: TxWorker,
    bytes: [u8; 2],
    metadata_version: u64,
    status: AudioProcessorStatus,
    after: TxWorker,
    status_after: AudioProcessorStatus,
    action: TxAction,
)
    requires
        before.steps(
            TxEvent::StreamId { bytes: Some(bytes), metadata_version },
            status,
            after,
            status_after,
            action,
        ),
    ensures
        before.frame_id matches Some(id) ==> after.stream_id == id,
        before.frame_id is None ==> after.stream_id == bytes[0] + 0x100 * bytes[1],
        action == (TxAction::SendMetadata { stream_id: after.stream_id }),
        after.sent_metadata_version == metadata_version,
{
    crate::bytes::le_value_of_two(bytes@);
}

/// The buffers that a step hands back, with room for all of them: that of the frame whose packet was
/// written or failed to be, and those of all frames taken out that are not to be written, in order.
pub proof fn spent_buffers_are_those_of_dealt_with_frames(
    before: TxWorker,
    event: TxEvent,
    status: AudioProcessorStatus,
    after: TxWorker,
    status_after: AudioProcessorStatus,
    action: TxAction,
    taken: Seq<(i64, u32, Seq<u8>)>,
)
    requires
        before.wf(),
        before.steps(event, status, after, status_after, action),
        frames_received(after.data_consumer) == frames_received(before.data_consumer) + taken,
        crate::ring::buffer_room(before.free_producer) >= taken.len() + before.held(),
    ensures
        ({
            let sent_before = buffers_sent(before.free_producer).len();
            let spent = buffers_sent(after.free_producer);
            &&& spent.take(sent_before as int) == buffers_sent(before.free_producer)
            &&& before.phase is Writing ==> spent.len() == sent_before + 1 && spent.last()
                == before.in_flight->0@.2
            &&& !(before.phase is Writing) ==> {
                &&& spent.len() == sent_before + taken.len() - (if action
                    == TxAction::WritePacket {
                    1int
                } else {
                    0int
                })
                &&& forall|i: int|
                    0 <= i < spent.len() - sent_before ==> #[trigger] spent[sent_before + i]
                        == taken[i].2
            }
        }),
{
    let burst = taken_since(before.data_consumer, after.data_consumer);
    assert(burst =~= taken);
    let sent_before = buffers_sent(before.free_producer).len() as int;
    let spent = buffers_sent(after.free_producer);
    if before.phase is Writing {
        assert(spent == buffers_sent(before.free_producer) + seq![before.in_flight->0@.2]);
    } else if draining(before, event) && taken.len() > 0 {
        let back = if action == TxAction::WritePacket {
            audio_of(burst.drop_last())
        } else {
            audio_of(burst)
        };
        assert(spent == buffers_sent(before.free_producer) + back);
        assert forall|i: int| 0 <= i < spent.len() - sent_before implies #[trigger] spent[sent_before
            + i] == taken[i].2 by {
            assert(spent[sent_before + i] == back[i]);
        }
    } else {
        assert(spent == buffers_sent(before.free_producer));
        assert(spent.take(sent_before) =~= spent);
    }
    assert(spent.take(sent_before) =~= buffers_sent(before.free_producer));
}

/// The two bytes that named the stream last in the course of `events`, as a number; none, if no
/// stream has been named.
pub open spec fn last_stream(events: Seq<TxEvent>) -> Option<int>
    decreases events.len(),
{
    if events.len() == 0 {
        None
    } else {
        match events.last() {
            TxEvent::StreamId { bytes: Some(bytes), .. } => Some(bytes[0] + 0x100 * bytes[1]),
            _ => last_stream(events.drop_last()),
        }
    }
}

/// Whether a stream has been named in this phase.
pub open spec fn is_named(phase: TxPhase) -> bool {
    phase is Announcing || phase is Polling || phase is Refreshing || phase is Writing
        || phase is Settling
}

proof fn lemma_run_keeps_settings(run: WorkerRun, at: int)
    requires
        run.holds(),
        run.workers[0].phase is LoopTop,
        0 <= at < run.workers.len(),
    ensures
        run.workers[at].socket_path == run.workers[0].socket_path,
        run.workers[at].num_channels == run.workers[0].num_channels,
        run.workers[at].sample_rate == run.workers[0].sample_rate,
        run.workers[at].frame_id == run.workers[0].frame_id,
        is_named(run.workers[at].phase) ==> (match run.workers[0].frame_id {
            Some(id) => run.workers[at].stream_id == id,
            None => last_stream(run.events.take(at)) == Some(run.workers[at].stream_id as int),
        }),
    decreases at,
{
    if at > 0 {
        lemma_run_keeps_settings(run, at - 1);
        assert(run.at(at - 1));
        let before = run.workers[at - 1];
        let event = run.events[at - 1];
        settings_never_change(
            before,
            event,
            run.statuses[at - 1].0,
            run.workers[at],
            run.statuses[at - 1].1,
            run.actions[at - 1],
        );
        assert(run.events.take(at).drop_last() =~= run.events.take(at - 1));
        if let TxEvent::StreamId { bytes: Some(bytes), metadata_version } = event {
            streams_are_named(
                before,
                bytes,
                metadata_version,
                run.statuses[at - 1].0,
                run.workers[at],
                run.statuses[at - 1].1,
                run.actions[at - 1],
            );
        }
    }
}

/// The packet that stands ready after a step that wants it written.
proof fn lemma_packet_stands_ready(run: WorkerRun, at: int)
    requires
        run.holds(),
        0 < at < run.workers.len(),
        run.actions[at - 1] == TxAction::WritePacket,
    ensures
        is_named(run.workers[at].phase),
        run.workers[at].send_buffer@ == packet(
            frames_received(run.workers[at].data_consumer).last(),
            run.workers[at].stream_id as u64,
            run.workers[at].num_channels,
            run.workers[at].sample_rate,
        ),
{
    assert(run.at(at - 1));
    packets_carry_the_newest_frame(
        run.workers[at - 1],
        run.events[at - 1],
        run.statuses[at - 1].0,
        run.workers[at],
        run.statuses[at - 1].1,
        run.actions[at - 1],
    );
}

/// A number of two bytes among eight.
proof fn lemma_small_number(b: Seq<u8>, start: int, value: int)
    requires
        0 <= start,
        start + 8 <= b.len(),
        0 <= value < 0x1_0000,
        b[start + 7] + 0x100 * b[start + 6] + 0x1_0000 * b[start + 5] + 0x100_0000 * b[start + 4]
            + 0x1_0000_0000 * b[start + 3] + 0x100_0000_0000 * b[start + 2] + 0x1_0000_0000_0000
            * b[start + 1] + 0x100_0000_0000_0000 * b[start] == value,
    ensures
        b[start] == 0 && b[start + 1] == 0 && b[start + 2] == 0 && b[start + 3] == 0 && b[start + 4]
            == 0 && b[start + 5] == 0,
        0x100 * b[start + 6] + b[start + 7] == value,
{
}

/// Every packet that a worker wants written announces what its processor was made for. Whatever the
/// worker was told since it was made, the packet reads back the sample rate and the channel count
/// that were given to the constructor; the stream that was given, or else the one that was read
/// last; and, byte for byte, the frame that was taken last.
pub proof fn packets_announce_what_was_asked_for(
    socket_path: String,
    num_channels: u8,
    sample_rate: u32,
    max_frames: usize,
    frame_id: Option<u16>,
    processor: AudioProcessor,
    run: WorkerRun,
    at: int,
    samples: nat,
)
    requires
        AudioProcessor::made(
            socket_path,
            num_channels,
            sample_rate,
            max_frames,
            frame_id,
            processor,
            run.workers[0],
        ),
        1 <= num_channels <= 16,
        sample_rate == 16_000 || sample_rate == 44_100 || sample_rate == 48_000 || sample_rate
            == 96_000,
        run.holds(),
        0 < at < run.workers.len(),
        run.actions[at - 1] == TxAction::WritePacket,
        1 <= samples <= 4095,
        frames_received(run.workers[at].data_consumer).last().2.len() == samples * (
        num_channels as nat * 3),
    ensures
        ({
            let bytes = run.workers[at].send_buffer@;
            let frame = frames_received(run.workers[at].data_consumer).last();
            &&& bytes.len() == 28 + frame.2.len()
            &&& bytes[16] == (if sample_rate == 16_000 {
                0xA8int
            } else if sample_rate == 44_100 {
                0xA9
            } else if sample_rate == 48_000 {
                0xAA
            } else {
                0xAB
            })
            &&& bytes[17] == 0x50
            &&& 0x100 * bytes[18] + bytes[19] == 0x1000 * (num_channels - 1) + samples
            &&& bytes[20] == 0 && bytes[21] == 0 && bytes[22] == 0 && bytes[23] == 0 && bytes[24]
                == 0 && bytes[25] == 0
            &&& frame_id matches Some(id) ==> 0x100 * bytes[26] + bytes[27] == id
            &&& frame_id is None ==> last_stream(run.events.take(at)) == Some(
                0x100 * bytes[26] + bytes[27],
            )
            &&& bytes.subrange(28, bytes.len() as int) == frame.2
        }),
{
    let worker = run.workers[at];
    let frame = frames_received(worker.data_consumer).last();
    lemma_run_keeps_settings(run, at);
    lemma_packet_stands_ready(run, at);
    packet_layout(frame, worker.stream_id as u64, num_channels, sample_rate, samples);
    lemma_small_number(worker.send_buffer@, 20, worker.stream_id as int);
}

/// Whatever a worker asks for, it takes every answer to that, and no answer to anything else.
pub proof fn every_answer_is_taken(worker: TxWorker, action: TxAction, event: TxEvent)
    requires
        worker.asks(action),
    ensures
        worker.expects(event) <==> match action {
            TxAction::Observe => event is Observed,
            TxAction::Park { .. } => event is Observed,
            TxAction::Connect => event is Connected,
            TxAction::WriteGreeting => event is Written,
            TxAction::WritePacket => event is Written,
            TxAction::ReadStreamId => event is StreamId,
            TxAction::SendMetadata { .. } => event is Announced,
            TxAction::Stop => false,
        },
{
}

/// A new worker takes any look at the world.
pub proof fn new_workers_look_first(worker: TxWorker, event: TxEvent)
    requires
        worker.phase is LoopTop,
    ensures
        worker.expects(event) <==> event is Observed,
{
}

/// Taking a burst at its live edge takes out all that waits, keeps the newest frame as it is, and
/// counts each of the others as dropped. With room for them, their buffers go back in order. Where
/// nothing is taken, nothing changes.
pub proof fn bursts_coalesce_to_the_newest(
    consumer: rtrb::Consumer<QueuedFrame>,
    free_producer: rtrb::Producer<Vec<u8>>,
    status: AudioProcessorStatus,
    newest: Option<(i64, u32, Seq<u8>)>,
    consumer_after: rtrb::Consumer<QueuedFrame>,
    free_producer_after: rtrb::Producer<Vec<u8>>,
    status_after: AudioProcessorStatus,
) -> (taken: Seq<(i64, u32, Seq<u8>)>)
    requires
        coalesced(
            consumer,
            free_producer,
            status,
            newest,
            consumer_after,
            free_producer_after,
            status_after,
        ),
    ensures
        frames_received(consumer_after) == frames_received(consumer) + taken,
        frames_waiting(consumer).is_prefix_of(taken),
        newest is None <==> taken.len() == 0,
        frames_waiting(consumer).len() > 0 ==> newest is Some,
        newest matches Some(frame) ==> frame == taken.last(),
        newest is None ==> status_after == status && free_producer_after == free_producer,
        newest is Some ==> status_after.frames_dropped == (status.frames_dropped + taken.len() - 1)
            % 0x1_0000_0000_0000_0000,
        status_after.frames_queued == status.frames_queued,
        status_after.frames_sent == status.frames_sent,
        status_after.started == status.started,
        status_after.connected == status.connected,
        newest is Some && crate::ring::buffer_room(free_producer) >= taken.len() - 1 ==> {
            let sent_before = buffers_sent(free_producer).len();
            let spent = buffers_sent(free_producer_after);
            &&& spent.len() == sent_before + taken.len() - 1
            &&& spent.take(sent_before as int) == buffers_sent(free_producer)
            &&& forall|i: int|
                0 <= i < taken.len() - 1 ==> #[trigger] spent[sent_before + i] == taken[i].2
        },
{
    let taken = taken_since(consumer, consumer_after);
    if newest is Some && crate::ring::buffer_room(free_producer) >= taken.len() - 1 {
        let sent_before = buffers_sent(free_producer).len() as int;
        let spent = buffers_sent(free_producer_after);
        let back = audio_of(taken.drop_last());
        assert(spent == buffers_sent(free_producer) + back);
        assert(spent.take(sent_before) =~= buffers_sent(free_producer));
        assert forall|i: int| 0 <= i < taken.len() - 1 implies #[trigger] spent[sent_before + i]
            == taken[i].2 by {
            assert(spent[sent_before + i] == back[i]);
        }
    }
    taken
}

} // verus!
