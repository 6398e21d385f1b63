//! What a processor and its handle are for, as a host sees it.

use crate::boundary::{copied, given_up, heard, made_for_any_size, made_for_size, made_for_stream};
use crate::boundary::{made_handle, replaced, shown_to_host, titled};
use crate::bytes::{le_bytes_are_digits, le_value_of_two, sample_bits};
use crate::frame::header_representable;
use crate::gate::ReclaimStep;
use crate::handle::{AudioProcessorHandle, AudioProcessorLease, RetiredProcessor};
use crate::laws::{new_processor_is_prewarmed, prewarmed};
use crate::metadata::{announces, control_message, control_message_reads_back, field_bytes};
use crate::metadata::sets_field;
use crate::processor::{config_valid, AudioProcessor};
use crate::render::{lemma_mono_bytes_len, mono_bytes, FrameLimits};
use crate::ring::{buffers_waiting, frame_room, frames_received, frames_sent};
use crate::status::{counted, AudioProcessorStatus, AudioProcessorStatusCounters};
use crate::worker::TxWorker;
use vstd::prelude::*;

verus! {

/// Counting adds up, modulo two to the sixty-fourth.
pub proof fn counting_adds_up(counter: u64, count: nat)
    ensures
        counter + count <= u64::MAX ==> counted(counter, count) == counter + count,
        (counted(counter, count) - counter - count) % 0x1_0000_0000_0000_0000 == 0,
        counted(counter, 0) == counter,
{
}

/// A reading shows every flag and every counter as it is.
pub proof fn readings_show_everything(counters: AudioProcessorStatusCounters)
    ensures
        counters@.started == counters.started,
        counters@.connected == counters.connected,
        counters@.frames_queued == counters.frames_queued,
        counters@.frames_sent == counters.frames_sent,
        counters@.frames_dropped == counters.frames_dropped,
        counters@.connection_attempts == counters.connection_attempts,
        counters@.connection_failures == counters.connection_failures,
        counters@.last_connected_unix_ms == counters.last_connected_unix_ms,
        counters@.last_send_unix_ms == counters.last_send_unix_ms,
        counters.reading() == counters@,
{
}

/// An idle reading shows nothing.
pub proof fn idle_readings_are_empty(status: AudioProcessorStatus)
    requires
        status == AudioProcessorStatus::idle(),
    ensures
        !status.started && !status.connected,
        status.frames_queued == 0 && status.frames_sent == 0 && status.frames_dropped == 0,
        status.connection_attempts == 0 && status.connection_failures == 0,
        status.last_connected_unix_ms == 0 && status.last_send_unix_ms == 0,
{
}

/// A processor can be made exactly for the settings that a frame header can announce, whatever the
/// sample count, and for quanta of at least one sample.
pub proof fn valid_settings_are_announceable(
    channels: u8,
    sample_rate: u32,
    max_frames: usize,
    samples: u16,
)
    requires
        samples <= 4095,
    ensures
        config_valid(channels, sample_rate, max_frames) <==> max_frames >= 1
            && header_representable(samples, sample_rate, channels, 24),
        config_valid(channels, sample_rate, max_frames) ==> 1 <= channels <= 16 && (sample_rate
            == 16_000 || sample_rate == 44_100 || sample_rate == 48_000 || sample_rate == 96_000),
        1 <= channels <= 16 && (sample_rate == 16_000 || sample_rate == 44_100 || sample_rate
            == 48_000 || sample_rate == 96_000) && max_frames >= 1 ==> config_valid(
            channels,
            sample_rate,
            max_frames,
        ),
{
}

/// Limits admit exactly the quanta of whole samples of every channel that fit.
pub proof fn limits_admit_whole_samples(limits: FrameLimits, len: nat)
    requires
        limits.num_channels > 0,
    ensures
        limits.takes(len) <==> len <= limits.max_frame_bytes && exists|samples: nat|
            samples >= 1 && len == #[trigger] (samples * (limits.num_channels as nat * 3)),
{
    let stride = limits.num_channels as nat * 3;
    if limits.takes(len) {
        let samples = len / stride;
        assert(len == samples * stride && samples >= 1) by (nonlinear_arith)
            requires
                samples == len / stride,
                len % stride == 0,
                stride > 0,
                len > 0,
        ;
    }
    assert forall|samples: nat|
        samples >= 1 && len == #[trigger] (samples * stride) && len
            <= limits.max_frame_bytes implies limits.takes(len) by {
        assert(len % stride == 0 && len > 0) by (nonlinear_arith)
            requires
                len == samples * stride,
                stride > 0,
                samples >= 1,
        ;
    }
}

/// Limits admit whole samples of one channel exactly if that is their channel, and as many as a
/// header counts and as fit.
pub proof fn limits_admit_mono_samples(limits: FrameLimits, count: nat)
    ensures
        limits.takes_mono(count) <==> limits.num_channels == 1 && 1 <= count <= 4095 && 3 * count
            <= limits.max_frame_bytes,
{
}

/// A new processor takes exactly the quanta of one up to `max_frames` samples of every channel, but
/// of one at least and of 4095 at most.
pub proof fn new_processors_take_what_they_were_made_for(
    socket_path: String,
    num_channels: u8,
    sample_rate: u32,
    max_frames: usize,
    frame_id: Option<u16>,
    processor: AudioProcessor,
    worker: TxWorker,
    samples: nat,
)
    requires
        AudioProcessor::made(
            socket_path,
            num_channels,
            sample_rate,
            max_frames,
            frame_id,
            processor,
            worker,
        ),
        1 <= num_channels <= 16,
    ensures
        processor.limits.takes(samples * (num_channels as nat * 3)) <==> 1 <= samples <= 4095 && (
        samples == 1 || samples <= max_frames),
        processor.limits.takes_mono(samples) <==> num_channels == 1 && 1 <= samples <= 4095 && (
        samples == 1 || samples <= max_frames),
{
    let stride = num_channels as nat * 3;
    let most = crate::processor::clamped_frames(max_frames) as nat;
    let len = samples * stride;
    limits_admit_whole_samples(processor.limits, len);
    assert(processor.limits.max_frame_bytes == most * stride) by (nonlinear_arith)
        requires
            processor.limits.max_frame_bytes == most * num_channels * 3,
            stride == num_channels as nat * 3,
    ;
    assert(len <= most * stride <==> samples <= most) by (nonlinear_arith)
        requires
            len == samples * stride,
            stride > 0,
    ;
    if samples == 0 {
        assert(len == 0);
        assert forall|other: nat| other >= 1 implies len != #[trigger] (other * (
        processor.limits.num_channels as nat * 3)) by {
            assert(other * stride > 0) by (nonlinear_arith)
                requires
                    other >= 1,
                    stride > 0,
            ;
        }
    } else {
        assert(len == samples * (processor.limits.num_channels as nat * 3));
    }
}

/// A new processor is started and has counted nothing, nobody has told it to stop, it has no names,
/// and its worker is about to connect to the path that was given, as the stream that was given.
/// Nothing is queued, and there is room and a buffer for sixteen quanta.
pub proof fn new_processors_are_ready(
    socket_path: String,
    num_channels: u8,
    sample_rate: u32,
    max_frames: usize,
    frame_id: Option<u16>,
    processor: AudioProcessor,
    worker: TxWorker,
)
    requires
        AudioProcessor::made(
            socket_path,
            num_channels,
            sample_rate,
            max_frames,
            frame_id,
            processor,
            worker,
        ),
    ensures
        processor.status@.started,
        !processor.status@.connected,
        processor.status@.frames_queued == 0,
        processor.status@.frames_sent == 0,
        processor.status@.frames_dropped == 0,
        processor.status@.connection_attempts == 0,
        processor.status@.connection_failures == 0,
        processor.status@.last_connected_unix_ms == 0,
        processor.status@.last_send_unix_ms == 0,
        !processor.shutdown,
        processor.metadata.metadata@.0 is None,
        processor.metadata.metadata@.1 is None,
        processor.metadata.version == 0,
        processor.limits.num_channels == num_channels,
        worker.num_channels == num_channels,
        worker.sample_rate == sample_rate,
        worker.max_frame_bytes == processor.limits.max_frame_bytes,
        worker.socket_path == socket_path,
        worker.frame_id == frame_id,
        worker.phase is LoopTop,
        frames_sent(processor.render.data_producer).len() == 0,
        frames_received(worker.data_consumer).len() == 0,
        processor.render.rejected_buffer is None,
        buffers_waiting(processor.render.free_consumer).len() >= 16,
        frame_room(processor.render.data_producer) >= 16,
        processor.shares_frames(worker),
        processor.shares_buffers(worker),
{
    new_processor_is_prewarmed(
        socket_path,
        num_channels,
        sample_rate,
        max_frames,
        frame_id,
        processor,
        worker,
    );
}

/// What is queued is what was offered: the very bytes with the very position and generation, behind
/// all that was queued before. It is queued exactly if it is of whole samples, fits, and finds a
/// buffer and room. One of two counters moves on, and nothing else that is shown changes.
pub proof fn offers_are_queued_as_they_are(
    before: AudioProcessor,
    data: Seq<u8>,
    sample_position: i64,
    transport_generation: u32,
    after: AudioProcessor,
    queued: bool,
)
    requires
        before.limits.num_channels > 0,
        before.added(data, sample_position, transport_generation, after, queued),
    ensures
        queued <==> {
            &&& data.len() <= before.limits.max_frame_bytes
            &&& exists|samples: nat|
                samples >= 1 && data.len() == #[trigger] (samples * (
                before.limits.num_channels as nat * 3))
            &&& before.render.rejected_buffer is Some || buffers_waiting(
                before.render.free_consumer,
            ).len() > 0
            &&& frame_room(before.render.data_producer) > 0
        },
        queued ==> frames_sent(after.render.data_producer) == frames_sent(
            before.render.data_producer,
        ).push((sample_position, transport_generation, data)),
        !queued ==> frames_sent(after.render.data_producer) == frames_sent(
            before.render.data_producer,
        ),
        after.status@.frames_queued == (before.status@.frames_queued + (if queued {
            1int
        } else {
            0int
        })) % 0x1_0000_0000_0000_0000,
        after.status@.frames_dropped == (before.status@.frames_dropped + (if queued {
            0int
        } else {
            1int
        })) % 0x1_0000_0000_0000_0000,
        only_offers_counted(before.status@, after.status@),
        after.limits == before.limits,
        after.metadata == before.metadata,
        after.shutdown == before.shutdown,
{
    limits_admit_whole_samples(before.limits, data.len());
}

/// Nothing but the two counters of offers differs.
pub open spec fn only_offers_counted(
    before: AudioProcessorStatus,
    after: AudioProcessorStatus,
) -> bool {
    &&& after.started == before.started
    &&& after.connected == before.connected
    &&& after.frames_sent == before.frames_sent
    &&& after.connection_attempts == before.connection_attempts
    &&& after.connection_failures == before.connection_failures
    &&& after.last_connected_unix_ms == before.last_connected_unix_ms
    &&& after.last_send_unix_ms == before.last_send_unix_ms
}

/// A quantum that found no room leaves its buffer on the render side, filled; the next offer takes
/// that one and no other. No buffer is taken for a quantum that is not admitted.
pub proof fn rejected_buffers_are_kept(
    before: AudioProcessor,
    data: Seq<u8>,
    sample_position: i64,
    transport_generation: u32,
    after: AudioProcessor,
    queued: bool,
)
    requires
        before.wf(),
        before.added(data, sample_position, transport_generation, after, queued),
    ensures
        after.render.rejected_buffer is Some <==> (before.render.rejected_buffer is Some
            && !before.limits.takes(data.len())) || (before.limits.takes(data.len())
            && frame_room(before.render.data_producer) == 0 && (
        before.render.rejected_buffer is Some || buffers_waiting(
            before.render.free_consumer,
        ).len() > 0)),
        before.render.rejected_buffer is Some ==> after.render.free_consumer
            == before.render.free_consumer,
        !before.limits.takes(data.len()) ==> after.render == before.render,
{
}

/// Whole samples of one channel are queued as three bytes each, the low byte first, in their order,
/// with the very position and generation.
pub proof fn mono_offers_are_queued_as_they_are(
    before: AudioProcessor,
    samples: Seq<i32>,
    sample_position: i64,
    transport_generation: u32,
    after: AudioProcessor,
    queued: bool,
    index: int,
)
    requires
        before.added_mono(samples, sample_position, transport_generation, after, queued),
    ensures
        queued <==> {
            &&& before.limits.num_channels == 1
            &&& 1 <= samples.len() <= 4095
            &&& 3 * samples.len() <= before.limits.max_frame_bytes
            &&& before.render.rejected_buffer is Some || buffers_waiting(
                before.render.free_consumer,
            ).len() > 0
            &&& frame_room(before.render.data_producer) > 0
        },
        queued ==> {
            let sent = frames_sent(after.render.data_producer);
            let data = sent.last().2;
            &&& sent.drop_last() == frames_sent(before.render.data_producer)
            &&& sent.last().0 == sample_position
            &&& sent.last().1 == transport_generation
            &&& data.len() == 3 * samples.len()
            &&& 0 <= index < samples.len() ==> data[3 * index] + 0x100 * data[3 * index + 1]
                + 0x1_0000 * data[3 * index + 2] == (samples[index] as int) % 0x100_0000
        },
        !queued ==> frames_sent(after.render.data_producer) == frames_sent(
            before.render.data_producer,
        ),
        after.status@.frames_queued == (before.status@.frames_queued + (if queued {
            1int
        } else {
            0int
        })) % 0x1_0000_0000_0000_0000,
        after.status@.frames_dropped == (before.status@.frames_dropped + (if queued {
            0int
        } else {
            1int
        })) % 0x1_0000_0000_0000_0000,
        only_offers_counted(before.status@, after.status@),
        after.limits == before.limits,
        after.metadata == before.metadata,
        after.shutdown == before.shutdown,
{
    if queued {
        let before_sent = frames_sent(before.render.data_producer);
        let frame = (sample_position, transport_generation, mono_bytes(samples));
        assert(before_sent.push(frame).drop_last() =~= before_sent);
        assert(before_sent.push(frame).last() == frame);
        lemma_mono_bytes_len(samples);
        if 0 <= index < samples.len() {
            lemma_mono_sample(samples, index);
        }
    }
}

/// The three bytes of one sample.
proof fn lemma_mono_sample(samples: Seq<i32>, index: int)
    requires
        0 <= index < samples.len(),
    ensures
        ({
            let data = mono_bytes(samples);
            data[3 * index] + 0x100 * data[3 * index + 1] + 0x1_0000 * data[3 * index + 2] == (
            samples[index] as int) % 0x100_0000
        }),
    decreases samples.len(),
{
    let rest = samples.drop_last();
    lemma_mono_bytes_len(samples);
    lemma_mono_bytes_len(rest);
    if index == samples.len() - 1 {
        let bits = sample_bits(samples.last());
        le_bytes_are_digits(bits, 3, 0);
        le_bytes_are_digits(bits, 3, 1);
        le_bytes_are_digits(bits, 3, 2);
        reveal_with_fuel(crate::bytes::byte_span, 4);
        assert(bits < 0x100_0000);
        assert(bits == bits % 256 + 0x100 * ((bits / 0x100) % 256) + 0x1_0000 * ((bits / 0x1_0000)
            % 256));
    } else {
        lemma_mono_sample(rest, index);
    }
}

/// A processor that is told to stop no longer shows connected, and one that has stopped no longer
/// shows started either. Nothing that was counted is lost, and what is queued stays queued.
pub proof fn stopping_keeps_what_was_counted(
    before: AudioProcessor,
    told: AudioProcessor,
    after: AudioProcessor,
)
    requires
        before.told_to_stop(told),
        before.stopped(after),
    ensures
        told.shutdown && after.shutdown,
        !told.status@.connected && !after.status@.connected,
        told.status@.started == before.status@.started,
        !after.status@.started,
        same_counts(before.status@, told.status@),
        same_counts(before.status@, after.status@),
        told.render == before.render && after.render == before.render,
        told.limits == before.limits && after.limits == before.limits,
        told.metadata == before.metadata && after.metadata == before.metadata,
{
}

/// The counters and times are the same.
pub open spec fn same_counts(one: AudioProcessorStatus, other: AudioProcessorStatus) -> bool {
    &&& one.frames_queued == other.frames_queued
    &&& one.frames_sent == other.frames_sent
    &&& one.frames_dropped == other.frames_dropped
    &&& one.connection_attempts == other.connection_attempts
    &&& one.connection_failures == other.connection_failures
    &&& one.last_connected_unix_ms == other.last_connected_unix_ms
    &&& one.last_send_unix_ms == other.last_send_unix_ms
}

/// Names that are given to a processor are shown, both of them, and are news exactly if they differ
/// from those before. News, and only news, gives them another version, which is what makes a worker
/// announce them.
pub proof fn new_names_are_news(
    before: AudioProcessor,
    names: (Option<Seq<char>>, Option<Seq<char>>),
    after: AudioProcessor,
    changed: bool,
)
    requires
        before.renamed(names, after, changed),
    ensures
        after.metadata.metadata@.0 == names.0,
        after.metadata.metadata@.1 == names.1,
        changed <==> before.metadata.metadata@.0 != names.0 || before.metadata.metadata@.1
            != names.1,
        changed <==> after.metadata.version != before.metadata.version,
        before.metadata.version < u64::MAX ==> after.metadata.version <= before.metadata.version
            + 1,
        after.status == before.status,
        after.render == before.render,
        after.limits == before.limits,
        after.shutdown == before.shutdown,
{
}

/// Names that are given to a handle are kept for every later processor, and reach the one in place
/// at once, to which they are news exactly if they differ.
pub proof fn handles_keep_their_names(
    before: AudioProcessorHandle,
    names: (Option<Seq<char>>, Option<Seq<char>>),
    after: AudioProcessorHandle,
    changed: bool,
)
    requires
        before.wf(),
        before.named(names, after, changed),
    ensures
        after.desired_metadata@.0 == names.0,
        after.desired_metadata@.1 == names.1,
        before.current is None ==> after.current is None && !changed,
        before.current matches Some(processor) ==> {
            &&& after.current is Some
            &&& after.current->0.metadata.metadata@.0 == names.0
            &&& after.current->0.metadata.metadata@.1 == names.1
            &&& changed <==> processor.metadata.metadata@.0 != names.0
                || processor.metadata.metadata@.1 != names.1
            &&& changed <==> after.current->0.metadata.version != processor.metadata.version
            &&& after.current->0.status == processor.status
            &&& after.current->0.render == processor.render
            &&& after.current->0.limits == processor.limits
            &&& after.current->0.shutdown == processor.shutdown
        },
        after.gate == before.gate,
{
}

/// An offer to a handle is an offer to the processor in place. Without one it leads to nothing, and
/// nothing is counted.
pub proof fn handles_pass_offers_on(
    before: AudioProcessorHandle,
    data: Seq<u8>,
    sample_position: i64,
    transport_generation: u32,
    after: AudioProcessorHandle,
    queued: bool,
)
    requires
        before.offered(data, sample_position, transport_generation, after, queued),
    ensures
        before.current matches Some(processor) ==> after.current is Some && processor.added(
            data,
            sample_position,
            transport_generation,
            after.current->0,
            queued,
        ),
        before.current is None ==> after.current is None && !queued,
        after.desired_metadata == before.desired_metadata,
        after.gate == before.gate,
{
}

/// A handle shows the flags and counters of the processor in place, and idle ones without one.
pub proof fn handles_show_the_processor_in_place(handle: AudioProcessorHandle)
    ensures
        handle.current matches Some(processor) ==> handle.shown_status() == processor.status@
            && processor.shown_status() == processor.status@,
        shown_to_host(Some(handle)) == handle.shown_status(),
        !shown_to_host(None).started && !shown_to_host(None).connected,
        shown_to_host(None).frames_queued == 0 && shown_to_host(None).frames_sent == 0
            && shown_to_host(None).frames_dropped == 0,
        handle.current is None ==> !handle.shown_status().started
            && !handle.shown_status().connected && handle.shown_status().frames_queued == 0
            && handle.shown_status().frames_sent == 0 && handle.shown_status().frames_dropped == 0
            && handle.shown_status().connection_attempts == 0
            && handle.shown_status().connection_failures == 0
            && handle.shown_status().last_connected_unix_ms == 0
            && handle.shown_status().last_send_unix_ms == 0,
{
}

/// A processor that is put in place behind a handle is made for the settings that were given, and
/// has nothing of the one before it but the names that are desired. Its worker goes with it. The one
/// before it is handed out, told to stop, with all that it had counted.
pub proof fn replacements_are_what_was_asked_for(
    before: AudioProcessorHandle,
    socket_path: String,
    channels: u8,
    sample_rate: u32,
    max_frames: usize,
    frame_id: Option<u16>,
    after: AudioProcessorHandle,
    worker: TxWorker,
    retired: RetiredProcessor,
    samples: nat,
)
    requires
        1 <= channels <= 16,
        before.initialized(
            socket_path,
            channels,
            sample_rate,
            max_frames,
            frame_id,
            after,
            worker,
        ),
        retired.was(before),
    ensures
        after.current is Some,
        after.current->0.limits.num_channels == channels,
        after.current->0.limits.takes(samples * (channels as nat * 3)) <==> 1 <= samples <= 4095 && (
        samples == 1 || samples <= max_frames),
        worker.num_channels == channels,
        worker.sample_rate == sample_rate,
        worker.socket_path == socket_path,
        worker.frame_id == frame_id,
        worker.phase is LoopTop,
        after.current->0.status@.started && !after.current->0.status@.connected,
        after.current->0.status@.frames_queued == 0 && after.current->0.status@.frames_sent == 0
            && after.current->0.status@.frames_dropped == 0,
        !after.current->0.shutdown,
        prewarmed(after.current->0, 16),
        after.current->0.shares_frames(worker),
        after.current->0.shares_buffers(worker),
        after.desired_metadata@ == before.desired_metadata@,
        after.current->0.metadata.metadata@ == before.desired_metadata@,
        after.current->0.metadata.version == 0 <==> before.desired_metadata@.0 is None
            && before.desired_metadata@.1 is None,
        after.gate@.counts == before.gate@.counts,
        after.gate@.epoch != before.gate@.epoch,
        retired.processor is Some <==> before.current is Some,
        retired.processor matches Some(processor) ==> processor.shutdown
            && !processor.status@.connected && same_counts(
            processor.status@,
            before.current->0.status@,
        ),
        retired.slot == before.gate@.epoch % 2,
{
    let made = choose|made: AudioProcessor|
        {
            &&& #[trigger] AudioProcessor::made(
                socket_path,
                channels,
                sample_rate,
                max_frames,
                frame_id,
                made,
                worker,
            )
            &&& made.keeps_all_but_metadata(after.current->0)
        };
    new_processors_take_what_they_were_made_for(
        socket_path,
        channels,
        sample_rate,
        max_frames,
        frame_id,
        made,
        worker,
        samples,
    );
    new_processors_are_ready(
        socket_path,
        channels,
        sample_rate,
        max_frames,
        frame_id,
        made,
        worker,
    );
}

/// Taking the processor out leaves an inactive handle that still knows the names, and hands out the
/// processor, told to stop, with all that it had counted.
pub proof fn taking_out_keeps_the_names(
    before: AudioProcessorHandle,
    after: AudioProcessorHandle,
    retired: RetiredProcessor,
)
    requires
        before.vacated(after, retired),
    ensures
        after.current is None,
        after.desired_metadata@ == before.desired_metadata@,
        after.gate@.counts == before.gate@.counts,
        after.gate@.epoch != before.gate@.epoch,
        retired.processor is Some <==> before.current is Some,
        retired.processor matches Some(processor) ==> processor.shutdown
            && !processor.status@.connected && same_counts(
            processor.status@,
            before.current->0.status@,
        ) && processor.render == before.current->0.render,
        retired.slot == before.gate@.epoch % 2,
{
}

/// A reader that comes in is counted once, in the slot of the epoch now, and knows whether there is
/// a processor; when it goes out, the counts are as they were.
pub proof fn readers_come_and_go(
    before: AudioProcessorHandle,
    lease: AudioProcessorLease,
    inside: AudioProcessorHandle,
    after: AudioProcessorHandle,
)
    requires
        before.entered(lease, inside),
        inside.left(lease, after),
    ensures
        lease.active <==> before.current is Some,
        lease.slot == before.gate@.epoch % 2,
        inside.gate@.counts.0 + inside.gate@.counts.1 == before.gate@.counts.0
            + before.gate@.counts.1 + 1,
        inside.gate@.count(lease.slot as nat) == before.gate@.count(lease.slot as nat) + 1,
        after.gate@ == before.gate@,
        after.current == before.current,
        after.desired_metadata == before.desired_metadata,
{
}

/// A host gets a handle exactly if it names a path and settings that a header can announce; and then
/// the processor in place is made for them, and knows no names.
pub proof fn hosts_get_what_they_ask_for(
    socket_path: Option<String>,
    channels: u8,
    sample_rate: u32,
    max_frames: usize,
    frame_id: Option<u16>,
    made: Option<(AudioProcessorHandle, TxWorker)>,
    samples: nat,
)
    requires
        made_handle(socket_path, channels, sample_rate, max_frames, frame_id, made),
    ensures
        made is Some <==> socket_path is Some && 1 <= channels <= 16 && (sample_rate == 16_000
            || sample_rate == 44_100 || sample_rate == 48_000 || sample_rate == 96_000)
            && max_frames >= 1,
        made matches Some((handle, worker)) ==> {
            &&& handle.current is Some
            &&& handle.current->0.limits.num_channels == channels
            &&& handle.current->0.limits.takes(samples * (channels as nat * 3)) <==> 1 <= samples
                <= 4095 && samples <= max_frames
            &&& prewarmed(handle.current->0, 16)
            &&& handle.shown_status().started
            &&& !handle.shown_status().connected
            &&& handle.shown_status().frames_queued == 0
            &&& handle.shown_status().frames_dropped == 0
            &&& worker.socket_path == socket_path->0
            &&& worker.num_channels == channels
            &&& worker.sample_rate == sample_rate
            &&& worker.frame_id == frame_id
            &&& handle.desired_metadata@.0 is None && handle.desired_metadata@.1 is None
            &&& handle.gate@.counts.0 == 0 && handle.gate@.counts.1 == 0
        },
{
    if let Some((handle, worker)) = made {
        new_processors_take_what_they_were_made_for(
            socket_path->0,
            channels,
            sample_rate,
            max_frames,
            frame_id,
            handle.current->0,
            worker,
            samples,
        );
        new_processors_are_ready(
            socket_path->0,
            channels,
            sample_rate,
            max_frames,
            frame_id,
            handle.current->0,
            worker,
        );
    }
}

/// The shorter ways to ask for a handle: for quanta of any size that a header can announce, of up to a
/// given size, or as a given stream.
pub proof fn hosts_may_ask_for_less(
    socket_path: Option<String>,
    channels: u8,
    sample_rate: u32,
    max_frames: usize,
    frame_id: u16,
    any_size: Option<(AudioProcessorHandle, TxWorker)>,
    sized: Option<(AudioProcessorHandle, TxWorker)>,
    streamed: Option<(AudioProcessorHandle, TxWorker)>,
)
    requires
        made_for_any_size(socket_path, channels, sample_rate, any_size),
        made_for_size(socket_path, channels, sample_rate, max_frames, sized),
        made_for_stream(socket_path, channels, sample_rate, frame_id, streamed),
    ensures
        made_handle(socket_path, channels, sample_rate, 4095, None, any_size),
        made_handle(socket_path, channels, sample_rate, max_frames, None, sized),
        made_handle(socket_path, channels, sample_rate, 4095, Some(frame_id), streamed),
{
}

/// The shorter ways to make a processor: for quanta of any size that a header can announce, of up to
/// a given size, or for a given stream.
pub proof fn processors_may_be_made_for_less(
    socket_path: String,
    num_channels: u8,
    sample_rate: u32,
    max_frames: usize,
    frame_id: u16,
    any_size: (AudioProcessor, TxWorker),
    sized: (AudioProcessor, TxWorker),
    streamed: (AudioProcessor, TxWorker),
)
    requires
        AudioProcessor::made_for_any_size(
            socket_path,
            num_channels,
            sample_rate,
            any_size.0,
            any_size.1,
        ),
        AudioProcessor::made_for_size(
            socket_path,
            num_channels,
            sample_rate,
            max_frames,
            sized.0,
            sized.1,
        ),
        AudioProcessor::made_for_stream(
            socket_path,
            num_channels,
            sample_rate,
            max_frames,
            frame_id,
            streamed.0,
            streamed.1,
        ),
    ensures
        AudioProcessor::made(
            socket_path,
            num_channels,
            sample_rate,
            4095,
            None,
            any_size.0,
            any_size.1,
        ),
        AudioProcessor::made(
            socket_path,
            num_channels,
            sample_rate,
            max_frames,
            None,
            sized.0,
            sized.1,
        ),
        AudioProcessor::made(
            socket_path,
            num_channels,
            sample_rate,
            max_frames,
            Some(frame_id),
            streamed.0,
            streamed.1,
        ),
{
}

/// A new handle has no processor, no readers and no names.
pub proof fn new_handles_are_empty(handle: AudioProcessorHandle)
    requires
        handle.is_new(),
    ensures
        handle.current is None,
        handle.gate@.counts.0 == 0 && handle.gate@.counts.1 == 0,
        handle.gate@.epoch == 0,
        handle.desired_metadata@.0 is None && handle.desired_metadata@.1 is None,
{
}

/// A processor that was taken out is reclaimed as soon as no reader of its slot is left, and not
/// before.
pub proof fn retired_processors_wait_for_their_readers(
    handle: AudioProcessorHandle,
    retired: RetiredProcessor,
    spins: usize,
)
    requires
        retired.slot < 2,
    ensures
        handle.waits(retired, spins) == ReclaimStep::Reclaim <==> (if retired.slot == 0 {
            handle.gate@.counts.0 == 0
        } else {
            handle.gate@.counts.1 == 0
        }),
        handle.waits(retired, spins) is Spin ==> spins < 64 && handle.waits(retired, spins)->spins
            == spins + 1,
        handle.waits(retired, spins) is Yield ==> spins >= 64,
{
}

/// A handle that is given up hands out the processor in place, told to stop, with all that it had
/// counted.
pub proof fn handles_given_up_hand_out_their_processor(
    handle: AudioProcessorHandle,
    retired: Option<RetiredProcessor>,
    nothing: Option<RetiredProcessor>,
)
    requires
        given_up(Some(handle), retired),
        given_up(None, nothing),
    ensures
        retired is Some,
        nothing is None,
        retired->0.processor is Some <==> handle.current is Some,
        retired->0.processor matches Some(processor) ==> processor.shutdown
            && !processor.status@.connected && same_counts(
            processor.status@,
            handle.current->0.status@,
        ),
{
}

/// A host replaces the processor behind a handle exactly if it names a path and settings that a
/// header can announce. Otherwise the handle stays as it is, with the processor that is in place.
pub proof fn hosts_replace_with_what_they_ask_for(
    before: AudioProcessorHandle,
    socket_path: Option<String>,
    channels: u8,
    sample_rate: u32,
    max_frames: usize,
    after: AudioProcessorHandle,
    made: Option<(TxWorker, RetiredProcessor)>,
)
    requires
        replaced(before, socket_path, channels, sample_rate, max_frames, after, made),
    ensures
        made is Some <==> socket_path is Some && 1 <= channels <= 16 && (sample_rate == 16_000
            || sample_rate == 44_100 || sample_rate == 48_000 || sample_rate == 96_000)
            && max_frames >= 1,
        made is None ==> after == before,
        made matches Some((worker, retired)) ==> before.initialized(
            socket_path->0,
            channels,
            sample_rate,
            max_frames,
            None,
            after,
            worker,
        ) && retired.was(before),
{
}

/// A host's audio reaches the handle as it is; only missing or empty audio does not.
pub proof fn hosts_are_heard(
    before: AudioProcessorHandle,
    data: Option<Seq<u8>>,
    sample_position: i64,
    transport_generation: u32,
    after: AudioProcessorHandle,
    queued: bool,
)
    requires
        heard(before, data, sample_position, transport_generation, after, queued),
    ensures
        data matches Some(data) ==> data.len() > 0 ==> before.offered(
            data,
            sample_position,
            transport_generation,
            after,
            queued,
        ),
        data is None || data->0.len() == 0 ==> after == before && !queued,
{
}

/// A host's names reach the handle cleaned up, each for itself; names of another handle reach it as
/// they are.
pub proof fn hosts_name_their_tracks(
    before: AudioProcessorHandle,
    instance_id: Option<Seq<char>>,
    label: Option<Seq<char>>,
    named: AudioProcessorHandle,
    changed: bool,
    other: AudioProcessorHandle,
    after: AudioProcessorHandle,
    changed_other: bool,
)
    requires
        titled(before, instance_id, label, named, changed),
        copied(other, Some(named.desired_metadata@), after, changed_other),
    ensures
        sets_field(instance_id, named.desired_metadata@.0),
        sets_field(label, named.desired_metadata@.1),
        before.named(named.desired_metadata@, named, changed),
        after.desired_metadata@ == named.desired_metadata@,
        other.named(named.desired_metadata@, after, changed_other),
{
}

/// Without a handle to copy from, nothing changes.
pub proof fn hosts_copy_from_somewhere(
    before: AudioProcessorHandle,
    after: AudioProcessorHandle,
    changed: bool,
)
    requires
        copied(before, None, after, changed),
    ensures
        after == before,
        !changed,
{
}

/// A message is sent exactly if there is a name to announce. It starts with four letters, then come
/// the stream and the lengths of both names in two bytes each, the low one first, and then the names
/// as they are; a missing one is empty.
pub proof fn control_messages_are_laid_out(
    stream_id: u16,
    names: (Option<Seq<char>>, Option<Seq<char>>),
    message: Option<Seq<u8>>,
)
    requires
        announces(stream_id, names, message),
        names.0 matches Some(text) ==> vstd::utf8::encode_utf8(text).len() <= 0xFFFF,
        names.1 matches Some(text) ==> vstd::utf8::encode_utf8(text).len() <= 0xFFFF,
    ensures
        message is Some <==> names.0 is Some || names.1 is Some,
        message matches Some(bytes) ==> {
            let first = match names.0 {
                Some(text) => vstd::utf8::encode_utf8(text),
                None => Seq::<u8>::empty(),
            };
            let second = match names.1 {
                Some(text) => vstd::utf8::encode_utf8(text),
                None => Seq::<u8>::empty(),
            };
            &&& bytes.len() == 10 + first.len() + second.len()
            &&& bytes[0] == 0x4D && bytes[1] == 0x45 && bytes[2] == 0x54 && bytes[3] == 0x41
            &&& bytes[4] + 0x100 * bytes[5] == stream_id
            &&& bytes[6] + 0x100 * bytes[7] == first.len()
            &&& bytes[8] + 0x100 * bytes[9] == second.len()
            &&& bytes.subrange(10, 10 + first.len() as int) == first
            &&& bytes.subrange(10 + first.len() as int, bytes.len() as int) == second
        },
{
    if let Some(bytes) = message {
        assert(bytes == control_message(stream_id, names));
        control_message_reads_back(stream_id, names);
        le_value_of_two(bytes.subrange(4, 6));
        le_value_of_two(bytes.subrange(6, 8));
        le_value_of_two(bytes.subrange(8, 10));
        assert(field_bytes(names.0).len() + field_bytes(names.1).len() + 10 == bytes.len());
    }
}

} // verus!
