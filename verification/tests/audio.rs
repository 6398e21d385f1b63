use audio_transport::boundary::{
    audio_processor_add, audio_processor_destroy, audio_processor_handle_copy_track_metadata,
    audio_processor_handle_initialize_preallocated, audio_processor_handle_new,
    audio_processor_new, audio_processor_new_preallocated, audio_processor_new_with_id,
    audio_processor_set_track_metadata, audio_processor_shutdown, audio_processor_status,
    new_initialized_processor_handle,
};
use audio_transport::frame::{pack_frame, QueuedFrame, DEFAULT_MAX_FRAMES, SAMPLE_CLOCK_BYTES};
use audio_transport::admission::try_render_state;
use audio_transport::gate::{lease_stands, next_epoch, reclaim_step, slot_of, ReclaimStep};
use audio_transport::handle::AudioProcessorHandle;
use audio_transport::metadata::{metadata_control_message, TrackMetadata};
use audio_transport::processor::{valid_processor_config, AudioProcessor};
use audio_transport::render::FrameLimits;
use audio_transport::ring::RING_SIZE;
use audio_transport::status::{AudioProcessorStatus, AudioProcessorStatusCounters};
use audio_transport::worker::{
    rest_until_heartbeat, MetadataOutcome, TxAction, TxEvent, TxPhase, TxWorker, GREETING,
    METADATA_HEARTBEAT_NANOS, RECONNECT_INTERVAL_NANOS,
};
use frame_header::{EncodingFlag, Endianness, FrameHeader};
use rtrb::RingBuffer;

const SOCKET_PATH: &str = "/tmp/audio.sock";

struct ReceivedFrame {
    header: FrameHeader,
    sample_position: i64,
    transport_generation: u32,
    audio_data: Vec<u8>,
}

/// Reads a packet as the far end of the socket does.
fn received(packet: &[u8]) -> ReceivedFrame {
    let total_size = u32::from_le_bytes(packet[..4].try_into().unwrap()) as usize;
    assert_eq!(total_size, packet.len());
    let frame_data = &packet[4..];
    let encoded_frame = &frame_data[SAMPLE_CLOCK_BYTES..];
    let header = FrameHeader::decode(&mut &encoded_frame[..]).unwrap();
    let header_size = header.size();
    ReceivedFrame {
        header,
        sample_position: i64::from_le_bytes(frame_data[..8].try_into().unwrap()),
        transport_generation: u32::from_le_bytes(frame_data[8..12].try_into().unwrap()),
        audio_data: encoded_frame[header_size..].to_vec(),
    }
}

/// A socket that takes everything.
struct Socket {
    shutdown: bool,
    metadata_version: u64,
    since_metadata: u64,
    greetings: usize,
    announced: Vec<u16>,
    frames: Vec<ReceivedFrame>,
}

impl Socket {
    fn new() -> Socket {
        Socket {
            shutdown: false,
            metadata_version: 0,
            since_metadata: 0,
            greetings: 0,
            announced: Vec::new(),
            frames: Vec::new(),
        }
    }

    fn look(&self) -> TxEvent {
        TxEvent::Observed {
            shutdown: self.shutdown,
            metadata_version: self.metadata_version,
            since_metadata: self.since_metadata,
        }
    }

    /// Runs a worker until it rests or stops.
    fn serve(&mut self, worker: &mut TxWorker, status: &mut AudioProcessorStatusCounters) -> TxAction {
        let mut event = self.look();
        for _ in 0..1000 {
            let action = worker.step(event, status);
            event = match action {
                TxAction::Observe => self.look(),
                TxAction::Connect => TxEvent::Connected { ok: true },
                TxAction::WriteGreeting => {
                    self.greetings += 1;
                    TxEvent::Written { ok: true, now: 1 }
                }
                TxAction::ReadStreamId => TxEvent::StreamId {
                    bytes: Some(1u16.to_le_bytes()),
                    metadata_version: self.metadata_version,
                },
                TxAction::SendMetadata { stream_id } => {
                    self.announced.push(stream_id);
                    self.since_metadata = 0;
                    TxEvent::Announced { outcome: MetadataOutcome::Sent, now: 1000 }
                }
                TxAction::WritePacket => {
                    self.frames.push(received(&worker.send_buffer));
                    TxEvent::Written { ok: true, now: 2000 }
                }
                TxAction::Park { .. } | TxAction::Stop => return action,
            };
        }
        panic!("the worker neither rests nor stops");
    }
}

fn status_of(handle: &mut AudioProcessorHandle) -> &mut AudioProcessorStatusCounters {
    &mut handle.current.as_mut().expect("a processor is in place").status
}

fn counts(status: AudioProcessorStatus) -> (u64, u64, u64) {
    (status.frames_queued, status.frames_sent, status.frames_dropped)
}

#[test]
fn test_audio_processor_lifecycle() {
    let mut socket = Socket::new();
    let (mut processor, mut worker) =
        audio_processor_new(Some(SOCKET_PATH.to_owned()), 2, 48_000).expect("settings are valid");
    assert_eq!(worker.socket_path, SOCKET_PATH);

    let num_samples = 10;
    let mut test_data = vec![0u8; 3 * 2 * num_samples];
    for i in (0..test_data.len()).step_by(6) {
        test_data[i..i + 6].copy_from_slice(&[0x12, 0x34, 0x56, 0x78, 0x9A, 0xBC]);
    }

    for sample_position in [48_000, 48_010, 48_020] {
        assert!(audio_processor_add(Some(&mut processor), Some(&test_data), sample_position, 1));
        let rest = socket.serve(&mut worker, status_of(&mut processor));
        assert!(matches!(rest, TxAction::Park { nanos: METADATA_HEARTBEAT_NANOS }));
    }
    assert_eq!(socket.greetings, 1);
    assert_eq!(socket.frames.len(), 3);

    let first_frame = &socket.frames[0];
    assert_eq!(first_frame.header.channels(), 2, "Expected stereo");
    assert_eq!(first_frame.header.bits_per_sample(), 24, "Expected 24-bit audio");
    assert_eq!(first_frame.header.sample_rate(), 48_000, "Expected 48kHz sample rate");
    assert_eq!(first_frame.header.pts(), None);
    assert_eq!(first_frame.sample_position, 48_000);
    assert_eq!(first_frame.transport_generation, 1);
    assert_eq!(first_frame.audio_data.len(), 3 * 2 * num_samples);
    for i in (0..first_frame.audio_data.len()).step_by(6) {
        assert_eq!(&first_frame.audio_data[i..i + 3], &[0x12, 0x34, 0x56]);
        assert_eq!(&first_frame.audio_data[i + 3..i + 6], &[0x78, 0x9A, 0xBC]);
    }

    let status = audio_processor_status(Some(&processor));
    assert!(status.started && status.connected);
    assert_eq!(counts(status), (3, 3, 0));
    assert_eq!(status.last_connected_unix_ms, 1000);
    assert_eq!(status.last_send_unix_ms, 2000);

    let retired = audio_processor_shutdown(Some(&mut processor)).expect("there is a handle");
    let mut retired = retired.processor.expect("a processor was in place");
    assert!(retired.shutdown);
    assert!(!retired.status().connected);
    socket.shutdown = true;
    assert!(matches!(socket.serve(&mut worker, &mut retired.status), TxAction::Stop));
    assert!(!retired.status().started);
    assert!(matches!(worker.phase, TxPhase::Stopped));
    assert!(audio_processor_destroy(Some(processor)).expect("given").processor.is_none());
}

#[test]
fn variable_host_quanta_are_framed_with_their_actual_sample_counts() {
    let mut socket = Socket::new();
    let (mut processor, mut worker) =
        AudioProcessor::new_preallocated(SOCKET_PATH.to_owned(), 2, 48_000, 1024);
    socket.serve(&mut worker, &mut processor.status);
    assert!(processor.status().connected);

    for (index, frames) in [64usize, 512, 17].into_iter().enumerate() {
        let data = vec![index as u8 + 1; frames * 2 * 3];
        processor.add(&data, 10_000 + index as i64, 4);
        socket.serve(&mut worker, &mut processor.status);
        assert_eq!(socket.frames.len(), index + 1);
    }

    let frames = &socket.frames;
    assert_eq!(
        frames.iter().map(|frame| usize::from(frame.header.sample_size())).collect::<Vec<_>>(),
        vec![64, 512, 17]
    );
    assert_eq!(
        frames.iter().map(|frame| frame.audio_data.len()).collect::<Vec<_>>(),
        vec![64 * 6, 512 * 6, 17 * 6]
    );
    assert_eq!(
        frames.iter().map(|frame| frame.sample_position).collect::<Vec<_>>(),
        vec![10_000, 10_001, 10_002]
    );
    processor.shutdown();
    assert!(!processor.status().started);
}

#[test]
fn constructor_prewarms_and_pool_pressure_drops_without_growing_backlog() {
    let (mut processor, mut worker) =
        AudioProcessor::new_preallocated("/tmp/au-tx-no-server-test.sock".to_owned(), 2, 48_000, 64);
    assert!(processor.status().started);
    assert_eq!(processor.waiting_buffers(&worker), RING_SIZE);

    let data = vec![0x7f; 64 * 2 * 3];
    for sample_position in 0..(RING_SIZE as i64 + 5) {
        processor.add(&data, sample_position, 1);
        // Nobody listens: every attempt to connect fails.
        let look = TxEvent::Observed { shutdown: false, metadata_version: 0, since_metadata: 0 };
        worker.step(look, &mut processor.status);
        worker.step(TxEvent::Connected { ok: false }, &mut processor.status);
        worker.step(look, &mut processor.status);
    }
    assert_eq!(processor.waiting_buffers(&worker), 0);

    let status = processor.status();
    assert_eq!(status.frames_queued, RING_SIZE as u64);
    assert_eq!(status.frames_dropped, 5);
    processor.shutdown();
    let status = processor.status();
    assert!(!status.started && !status.connected);
    assert_eq!((status.frames_queued, status.frames_dropped), (RING_SIZE as u64, 5));
}

#[test]
fn socket_worker_coalesces_an_accumulated_burst_to_the_live_edge() {
    let (mut producer, mut consumer) = RingBuffer::<QueuedFrame>::new(RING_SIZE);
    let (mut free_producer, mut free_consumer) = RingBuffer::<Vec<u8>>::new(RING_SIZE);
    let mut status = AudioProcessorStatusCounters::default();

    for sample_position in [240, 480, 720] {
        producer
            .push(QueuedFrame {
                sample_position,
                transport_generation: 3,
                data: vec![(sample_position / 240) as u8; 12],
            })
            .expect("test queue has capacity");
    }

    let live = AudioProcessor::take_live_edge(&mut consumer, &mut free_producer, &mut status)
        .expect("newest frame");

    assert_eq!(live.sample_position, 720);
    assert_eq!(live.transport_generation, 3);
    assert_eq!(live.data, vec![3; 12]);
    assert_eq!(status.frames_dropped, 2);
    assert_eq!(free_consumer.pop().expect("first recycled buffer"), vec![1; 12]);
    assert_eq!(free_consumer.pop().expect("second recycled buffer"), vec![2; 12]);
    assert!(consumer.pop().is_err());
    assert!(AudioProcessor::take_live_edge(&mut consumer, &mut free_producer, &mut status).is_none());
    assert_eq!(status.frames_dropped, 2);
}

#[test]
fn stable_handle_waits_for_a_render_lease_before_reclaiming() {
    let mut handle = AudioProcessorHandle::new();
    handle.initialize(SOCKET_PATH.to_owned(), 2, 48_000, 128, None);
    let render_lease = handle.acquire();
    assert!(render_lease.active);

    let retired = handle.deinitialize();
    assert!(handle.current.is_none());
    assert!(retired.processor.is_some());
    assert_eq!(handle.reclaim_step(&retired, 0), ReclaimStep::Spin { spins: 1 });
    assert_eq!(handle.reclaim_step(&retired, 63), ReclaimStep::Spin { spins: 64 });
    assert_eq!(handle.reclaim_step(&retired, 64), ReclaimStep::Yield);
    let late_lease = handle.acquire();
    assert!(!late_lease.active);
    handle.release(render_lease);
    assert_eq!(handle.reclaim_step(&retired, 64), ReclaimStep::Reclaim);
    handle.release(late_lease);
    assert!(!handle.status().started);
}

#[test]
fn stable_handle_survives_render_status_metadata_and_reinitialize_races() {
    let mut handle = AudioProcessorHandle::new();
    handle.initialize(SOCKET_PATH.to_owned(), 2, 48_000, 128, None);
    let data = vec![0x5a; 128 * 2 * 3];
    assert!(handle.add(&data, 0, 1));
    handle.set_track_metadata(Some("instance-0".to_owned()), Some("track-0".to_owned()));

    for iteration in 0..12usize {
        let lease = handle.acquire();
        let retired = handle.deinitialize();
        assert!(!handle.status().started);
        assert!(!handle.add(&data, iteration as i64, 1));
        handle.set_track_metadata(
            Some(format!("instance-{}", iteration % 8)),
            Some(format!("track-{}", iteration % 16)),
        );
        handle.release(lease);
        assert_eq!(handle.reclaim_step(&retired, 0), ReclaimStep::Reclaim);
        handle.initialize(
            SOCKET_PATH.to_owned(),
            if iteration % 2 == 0 { 1 } else { 2 },
            [44_100, 48_000, 96_000][iteration % 3],
            128,
            None,
        );
        assert!(handle.status().started);
        handle.add(&data, iteration as i64, 1);
    }

    let desired = handle.desired_metadata.clone();
    let processor = handle.current.as_ref().expect("final initialized processor");
    assert_eq!(processor.metadata.metadata, desired);
    assert_eq!(desired.label, Some("track-11".to_owned()));

    handle.deinitialize();
    assert!(handle.current.is_none());
    assert_eq!(handle.gate.counts, [0, 0]);
}

#[test]
fn a_replacement_starts_afresh() {
    let mut handle = AudioProcessorHandle::new();
    handle.initialize(SOCKET_PATH.to_owned(), 2, 48_000, 128, None);
    assert!(handle.add(&[0; 6], 0, 1));
    assert!(!handle.add(&[0; 5], 0, 1));
    let (_worker, retired) = handle.initialize(SOCKET_PATH.to_owned(), 1, 96_000, 128, Some(2));
    assert_eq!(counts(handle.status()), (0, 0, 0));
    assert!(handle.status().started);
    assert_eq!(handle.gate.look(), 2);
    assert_eq!(retired.slot, 1);
    let retired = retired.processor.expect("a processor was in place");
    assert!(retired.shutdown);
    assert_eq!(counts(retired.status()), (1, 0, 1));
}

#[test]
fn whole_samples_are_queued_as_24_bit_numbers() {
    let mut socket = Socket::new();
    let (mut processor, mut worker) = AudioProcessor::new(SOCKET_PATH.to_owned(), 1, 48_000);
    assert!(processor.add_s24_mono(&[-8_388_607, 0, 8_388_607, -1, -8_388_608], -120, 7));
    socket.serve(&mut worker, &mut processor.status);
    let frame = &socket.frames[0];
    assert_eq!(frame.header.sample_size(), 5);
    assert_eq!(frame.header.channels(), 1);
    assert_eq!(frame.header.pts(), None);
    assert_eq!(frame.sample_position, -120);
    assert_eq!(frame.transport_generation, 7);
    assert_eq!(
        frame.audio_data,
        vec![1, 0, 0x80, 0, 0, 0, 0xff, 0xff, 0x7f, 0xff, 0xff, 0xff, 0, 0, 0x80]
    );
    assert!(!processor.add_s24_mono(&[], 0, 0));
    assert!(!processor.add_s24_mono(&vec![0; DEFAULT_MAX_FRAMES + 1], 0, 0));
    assert!(processor.add_s24_mono(&vec![0; DEFAULT_MAX_FRAMES], 0, 0));
    assert_eq!(processor.status().frames_dropped, 2);
    let (mut stereo, _worker) = AudioProcessor::new(SOCKET_PATH.to_owned(), 2, 48_000);
    assert!(!stereo.add_s24_mono(&[1, 2], 0, 0));
    assert_eq!(counts(stereo.status()), (0, 0, 1));
}

#[test]
fn quanta_that_do_not_fit_are_dropped() {
    let (mut processor, _worker) =
        AudioProcessor::new_preallocated(SOCKET_PATH.to_owned(), 2, 48_000, 4);
    assert_eq!(processor.limits.max_frame_bytes, 24);
    assert!(!processor.add(&[], 0, 0));
    assert!(!processor.add(&[0; 5], 0, 0));
    assert!(!processor.add(&[0; 30], 0, 0));
    assert!(processor.add(&[0; 24], 0, 0));
    assert!(processor.add(&[0; 6], 0, 0));
    assert_eq!(counts(processor.status()), (2, 0, 3));
    let limits = FrameLimits { num_channels: 1, max_frame_bytes: 9 };
    assert!(limits.accepts(9) && !limits.accepts(12) && !limits.accepts(4));
    assert!(limits.accepts_mono(3) && !limits.accepts_mono(4) && !limits.accepts_mono(0));
}

#[test]
fn only_one_call_uses_the_render_side() {
    let mut status = AudioProcessorStatusCounters::default();
    assert!(try_render_state(false, &mut status));
    assert_eq!(status.frames_dropped, 0);
    assert!(!try_render_state(true, &mut status));
    assert_eq!(status.frames_dropped, 1);
}

#[test]
fn the_largest_quantum_is_clamped_to_what_a_header_counts() {
    for (max_frames, frames) in [(0usize, 1usize), (1, 1), (4095, 4095), (4096, 4095), (usize::MAX, 4095)] {
        let (processor, worker) =
            AudioProcessor::new_configured(SOCKET_PATH.to_owned(), 16, 96_000, max_frames, Some(3));
        assert_eq!(processor.limits.max_frame_bytes, frames * 16 * 3);
        assert_eq!(worker.max_frame_bytes, frames * 16 * 3);
        assert_eq!(worker.frame_id, Some(3));
    }
}

#[test]
fn a_rejected_buffer_is_filled_again() {
    let (mut processor, mut worker) = AudioProcessor::new(SOCKET_PATH.to_owned(), 1, 16_000);
    // A frame that finds its ring full keeps its buffer on this side.
    let (full, mut full_consumer) = RingBuffer::<QueuedFrame>::new(0);
    let ring = std::mem::replace(&mut processor.render.data_producer, full);
    assert!(!processor.add(&[1, 2, 3], 0, 0));
    assert_eq!(processor.render.rejected_buffer, Some(vec![1, 2, 3]));
    assert!(full_consumer.pop().is_err());
    processor.render.data_producer = ring;
    assert!(processor.add(&[4, 5, 6], 9, 8));
    assert_eq!(processor.render.rejected_buffer, None);
    assert_eq!(counts(processor.status()), (1, 0, 1));
    let live = AudioProcessor::take_live_edge(
        &mut worker.data_consumer,
        &mut worker.free_producer,
        &mut processor.status,
    )
    .expect("one frame");
    assert_eq!((live.sample_position, live.transport_generation), (9, 8));
    assert_eq!(live.data, vec![4, 5, 6]);
}

#[test]
fn buffers_go_round() {
    let mut socket = Socket::new();
    let (mut processor, mut worker) =
        AudioProcessor::new_preallocated(SOCKET_PATH.to_owned(), 1, 44_100, 8);
    for round in 0..100i64 {
        for burst in 0..20i64 {
            processor.add(&[round as u8, burst as u8, 0], round * 20 + burst, 1);
        }
        socket.serve(&mut worker, &mut processor.status);
    }
    // Of every burst 16 frames found a buffer, and of those the newest was sent.
    assert_eq!(counts(processor.status()), (1600, 100, 400 + 1500));
    assert_eq!(socket.frames.len(), 100);
    for (round, frame) in socket.frames.iter().enumerate() {
        assert_eq!(frame.sample_position, round as i64 * 20 + 15);
        assert_eq!(frame.audio_data, vec![round as u8, 15, 0]);
    }
}

#[test]
fn what_was_queued_last_is_what_is_sent() {
    let mut socket = Socket::new();
    let (mut processor, mut worker) =
        AudioProcessor::new_preallocated(SOCKET_PATH.to_owned(), 1, 48_000, 8);
    assert_eq!(worker.waiting_frames(&processor), 0);
    assert_eq!(worker.room_for_buffers(&processor), 0);
    socket.serve(&mut worker, &mut processor.status);
    assert!(socket.frames.is_empty());
    for number in 1..=5u8 {
        assert!(processor.add(&[number, 0, 0], i64::from(number), 2));
        assert_eq!(worker.waiting_frames(&processor), usize::from(number));
        assert_eq!(worker.room_for_buffers(&processor), usize::from(number));
        assert_eq!(processor.waiting_buffers(&worker), RING_SIZE - usize::from(number));
    }
    socket.serve(&mut worker, &mut processor.status);
    assert_eq!(socket.frames.len(), 1);
    assert_eq!(socket.frames[0].audio_data, vec![5, 0, 0]);
    assert_eq!(socket.frames[0].sample_position, 5);
    assert_eq!(worker.waiting_frames(&processor), 0);
    assert_eq!(worker.room_for_buffers(&processor), 0);
    assert_eq!(processor.waiting_buffers(&worker), RING_SIZE);
    assert_eq!(counts(processor.status()), (5, 1, 4));
}

#[test]
fn a_given_stream_name_overrides_the_one_read() {
    for (frame_id, expected) in [(None, 0x0201u64), (Some(7u16), 7)] {
        let (mut processor, mut worker) =
            AudioProcessor::new_configured(SOCKET_PATH.to_owned(), 1, 48_000, 8, frame_id);
        processor.add(&[1, 2, 3], 0, 0);
        let status = &mut processor.status;
        let look = TxEvent::Observed { shutdown: false, metadata_version: 4, since_metadata: 0 };
        assert!(matches!(worker.step(look, status), TxAction::Connect));
        assert!(matches!(
            worker.step(TxEvent::Connected { ok: true }, status),
            TxAction::WriteGreeting
        ));
        assert!(matches!(
            worker.step(TxEvent::Written { ok: true, now: 0 }, status),
            TxAction::ReadStreamId
        ));
        let named = TxEvent::StreamId { bytes: Some([1, 2]), metadata_version: 4 };
        match worker.step(named, status) {
            TxAction::SendMetadata { stream_id } => assert_eq!(u64::from(stream_id), expected),
            other => panic!("not announced: {other:?}"),
        }
        assert!(!status.connected);
        let announced = TxEvent::Announced { outcome: MetadataOutcome::Failed, now: 77 };
        assert!(matches!(worker.step(announced, status), TxAction::WritePacket));
        assert!(status.connected);
        assert_eq!(status.last_connected_unix_ms, 77);
        let frame = received(&worker.send_buffer);
        assert_eq!(frame.header.id(), Some(expected));
        assert_eq!(worker.sent_metadata_version, 4);
    }
    assert_eq!(&GREETING, b"AUD2");
}

#[test]
fn failures_are_counted_and_followed_by_a_pause() {
    let look = TxEvent::Observed { shutdown: false, metadata_version: 0, since_metadata: 0 };
    let greet = TxEvent::Connected { ok: true };
    let ask = TxEvent::Written { ok: true, now: 5 };
    let name = TxEvent::StreamId { bytes: Some([1, 0]), metadata_version: 0 };
    let announce = TxEvent::Announced { outcome: MetadataOutcome::Sent, now: 6 };
    let failures = [
        vec![look, TxEvent::Connected { ok: false }],
        vec![look, greet, TxEvent::Written { ok: false, now: 5 }],
        vec![look, greet, ask, TxEvent::StreamId { bytes: None, metadata_version: 0 }],
        vec![look, greet, ask, name, announce, TxEvent::Written { ok: false, now: 5 }],
    ];
    for events in failures {
        let (mut processor, mut worker) = AudioProcessor::new(SOCKET_PATH.to_owned(), 1, 48_000);
        processor.add(&[1, 2, 3], 0, 0);
        let status = &mut processor.status;
        for event in events {
            worker.step(event, status);
        }
        assert!(matches!(worker.phase, TxPhase::Backoff));
        assert_eq!((status.connection_attempts, status.connection_failures), (1, 1));
        assert!(!status.connected);
        assert_eq!((status.frames_sent, status.frames_dropped), (0, 0));
        match worker.step(look, status) {
            TxAction::Park { nanos } => assert_eq!(nanos, RECONNECT_INTERVAL_NANOS),
            other => panic!("no pause: {other:?}"),
        }
        assert!(matches!(worker.step(look, status), TxAction::Connect));
        assert_eq!(status.connection_attempts, 2);
    }
}

#[test]
fn a_frame_that_no_header_can_announce_is_dropped_by_the_worker() {
    let (mut processor, mut worker) = AudioProcessor::new(SOCKET_PATH.to_owned(), 2, 48_000);
    let mut socket = Socket::new();
    let odd = QueuedFrame { sample_position: 0, transport_generation: 0, data: vec![1; 7] };
    processor.render.data_producer.push(odd).expect("there is room");
    socket.serve(&mut worker, &mut processor.status);
    assert!(socket.frames.is_empty());
    assert_eq!(processor.status().frames_dropped, 1);
    assert!(processor.status().connected);
}

#[test]
fn metadata_is_announced_when_it_changes_and_when_it_is_due() {
    let (mut processor, mut worker) = AudioProcessor::new(SOCKET_PATH.to_owned(), 2, 48_000);
    let mut socket = Socket::new();
    socket.serve(&mut worker, &mut processor.status);
    assert_eq!(socket.announced, vec![1]);
    assert!(processor.set_track_metadata(Some("a".to_owned()), None));
    assert!(!processor.set_track_metadata(Some("a".to_owned()), None));
    socket.metadata_version = processor.metadata.version;
    assert_eq!(socket.metadata_version, 1);
    socket.serve(&mut worker, &mut processor.status);
    assert_eq!(socket.announced, vec![1, 1]);
    socket.serve(&mut worker, &mut processor.status);
    assert_eq!(socket.announced.len(), 2);
    socket.since_metadata = METADATA_HEARTBEAT_NANOS;
    socket.serve(&mut worker, &mut processor.status);
    assert_eq!(socket.announced.len(), 3);

    // A version that could not be announced is tried again, one that could not be read is not.
    let look = TxEvent::Observed { shutdown: false, metadata_version: 2, since_metadata: 0 };
    let idle = TxEvent::Observed { shutdown: false, metadata_version: 2, since_metadata: 3 };
    for (outcome, announced_again) in
        [(MetadataOutcome::Failed, true), (MetadataOutcome::Unreadable, false)]
    {
        assert!(matches!(worker.step(look, &mut processor.status), TxAction::SendMetadata { .. }));
        worker.step(TxEvent::Announced { outcome, now: 0 }, &mut processor.status);
        assert!(matches!(worker.step(idle, &mut processor.status), TxAction::Park { .. }));
        let action = worker.step(look, &mut processor.status);
        assert_eq!(matches!(action, TxAction::SendMetadata { .. }), announced_again);
        if announced_again {
            let failed = TxEvent::Announced { outcome: MetadataOutcome::Failed, now: 0 };
            worker.step(failed, &mut processor.status);
            worker.step(idle, &mut processor.status);
        }
    }
}

#[test]
fn shutdown_ends_every_phase_within_eight_steps() {
    let look = TxEvent::Observed { shutdown: false, metadata_version: 0, since_metadata: 0 };
    let path = [
        look,
        TxEvent::Connected { ok: true },
        TxEvent::Written { ok: true, now: 0 },
        TxEvent::StreamId { bytes: Some([9, 0]), metadata_version: 0 },
        TxEvent::Announced { outcome: MetadataOutcome::Sent, now: 0 },
        TxEvent::Written { ok: true, now: 0 },
        look,
    ];
    for taken in 0..=path.len() {
        let (mut processor, mut worker) = AudioProcessor::new(SOCKET_PATH.to_owned(), 1, 48_000);
        processor.add(&[1, 2, 3], 0, 0);
        for event in &path[..taken] {
            worker.step(*event, &mut processor.status);
        }
        processor.request_shutdown();
        assert!(!processor.status().connected);
        let mut steps = 0;
        while !matches!(worker.phase, TxPhase::Stopped) {
            let event = match worker.phase {
                TxPhase::Connecting => TxEvent::Connected { ok: true },
                TxPhase::Greeting | TxPhase::Writing { .. } => TxEvent::Written { ok: true, now: 0 },
                TxPhase::AwaitingId => TxEvent::StreamId { bytes: Some([9, 0]), metadata_version: 0 },
                TxPhase::Announcing | TxPhase::Refreshing { .. } => {
                    TxEvent::Announced { outcome: MetadataOutcome::Sent, now: 0 }
                }
                _ => TxEvent::Observed { shutdown: true, metadata_version: 0, since_metadata: 0 },
            };
            worker.step(event, &mut processor.status);
            steps += 1;
        }
        assert!(steps <= 8);
        assert!(!processor.status().started);
        assert!(!processor.status().connected);
        assert_eq!(processor.status().connection_failures, 0);
    }
}

#[test]
fn an_idle_connection_rests_until_the_metadata_is_due() {
    assert_eq!(rest_until_heartbeat(0), 2_000_000_000);
    assert_eq!(rest_until_heartbeat(500_000_000), 1_500_000_000);
    assert_eq!(rest_until_heartbeat(1_999_500_000), 1_000_000);
    assert_eq!(rest_until_heartbeat(1_999_000_000), 1_000_000);
    assert_eq!(rest_until_heartbeat(u64::MAX), 1_000_000);
}

#[test]
fn packets_are_laid_out_to_the_byte() {
    let frame = QueuedFrame {
        sample_position: -2,
        transport_generation: 0x0A0B_0C0D,
        data: vec![1, 2, 3, 4, 5, 6],
    };
    let mut header = vec![9; 40];
    let mut packet = vec![9; 40];
    assert_eq!(pack_frame(&frame, 0x1122, 2, 44_100, &mut header, &mut packet), Ok(true));
    let mut expected_header = Vec::new();
    FrameHeader::new(
        EncodingFlag::PCMSigned, 1, 44_100, 2, 24, Endianness::LittleEndian, Some(0x1122), None,
    )
    .unwrap()
    .encode(&mut expected_header)
    .unwrap();
    assert_eq!(header, expected_header);
    assert_eq!(header, vec![0xA9, 0x50, 0x10, 0x01, 0, 0, 0, 0, 0, 0, 0x11, 0x22]);
    let mut expected = vec![34, 0, 0, 0, 0xFE, 0xFF, 0xFF, 0xFF, 0xFF, 0xFF, 0xFF, 0xFF];
    expected.extend([0x0D, 0x0C, 0x0B, 0x0A]);
    expected.extend(&header);
    expected.extend(&frame.data);
    assert_eq!(packet, expected);

    assert_eq!(pack_frame(&frame, 1, 3, 44_100, &mut header, &mut packet), Ok(false));
    assert_eq!(packet, expected);
    assert!(pack_frame(&frame, 1, 2, 22_050, &mut header, &mut packet).is_err());
    assert_eq!(packet, expected);
    let wide = QueuedFrame { sample_position: 0, transport_generation: 0, data: vec![0; 17 * 3] };
    assert!(pack_frame(&wide, 1, 17, 48_000, &mut header, &mut packet).is_err());
    let long = vec![0; (DEFAULT_MAX_FRAMES + 1) * 3];
    let long = QueuedFrame { sample_position: 0, transport_generation: 0, data: long };
    assert_eq!(pack_frame(&long, 1, 1, 48_000, &mut header, &mut packet), Ok(false));
}

#[test]
fn settings_are_checked() {
    for rate in [16_000, 44_100, 48_000, 96_000] {
        assert!(valid_processor_config(1, rate, 1));
        assert!(valid_processor_config(16, rate, 1));
        assert!(!valid_processor_config(0, rate, 1));
        assert!(!valid_processor_config(17, rate, 1));
        assert!(!valid_processor_config(2, rate, 0));
    }
    assert!(!valid_processor_config(2, 88_200, 1));
    let path = || Some(SOCKET_PATH.to_owned());
    assert!(new_initialized_processor_handle(None, 2, 48_000, 1, None).is_none());
    assert!(audio_processor_new(path(), 0, 48_000).is_none());
    assert!(audio_processor_new_preallocated(path(), 2, 48_000, 0).is_none());
    let (handle, worker) = audio_processor_new_with_id(path(), 2, 48_000, 5).expect("valid");
    assert_eq!(worker.frame_id, Some(5));
    assert!(audio_processor_status(Some(&handle)).started);
    let (handle, worker) = audio_processor_new_preallocated(path(), 2, 48_000, 10).expect("valid");
    assert_eq!(worker.frame_id, None);
    assert_eq!(handle.current.expect("in place").limits.max_frame_bytes, 60);
}

#[test]
fn missing_handles_and_buffers_are_ignored() {
    let data = [1, 2, 3];
    assert!(!audio_processor_add(None, Some(&data), 0, 0));
    assert!(!audio_processor_status(None).started);
    assert!(!audio_processor_set_track_metadata(None, Some("a"), None));
    assert!(audio_processor_shutdown(None).is_none());
    assert!(audio_processor_destroy(None).is_none());
    assert!(!audio_processor_handle_copy_track_metadata(None, None));
    let mut handle = audio_processor_handle_new();
    assert!(!audio_processor_add(Some(&mut handle), Some(&data), 0, 0));
    assert_eq!(counts(audio_processor_status(Some(&handle))), (0, 0, 0));
    let path = || Some(SOCKET_PATH.to_owned());
    assert!(
        audio_processor_handle_initialize_preallocated(None, path(), 1, 48_000, 8).is_none()
    );
    assert!(audio_processor_handle_initialize_preallocated(Some(&mut handle), None, 1, 48_000, 8)
        .is_none());
    assert!(audio_processor_handle_initialize_preallocated(Some(&mut handle), path(), 1, 1, 8)
        .is_none());
    assert!(handle.current.is_none());
    let (_worker, retired) =
        audio_processor_handle_initialize_preallocated(Some(&mut handle), path(), 1, 48_000, 8)
            .expect("settings are valid");
    assert!(retired.processor.is_none());
    assert!(!audio_processor_add(Some(&mut handle), None, 0, 0));
    assert!(!audio_processor_add(Some(&mut handle), Some(&[]), 0, 0));
    assert_eq!(counts(audio_processor_status(Some(&handle))), (0, 0, 0));
    assert!(audio_processor_add(Some(&mut handle), Some(&data), 0, 0));
    assert!(!audio_processor_add(Some(&mut handle), Some(&data[..2]), 0, 0));
    assert_eq!(counts(audio_processor_status(Some(&handle))), (1, 0, 1));
}

#[test]
fn names_survive_and_are_copied() {
    let mut source = audio_processor_handle_new();
    assert!(!audio_processor_set_track_metadata(Some(&mut source), Some("  id \n"), Some(" \t")));
    assert_eq!(source.desired_metadata.instance_id, Some("id".to_owned()));
    assert_eq!(source.desired_metadata.label, None);
    let mut handle = audio_processor_handle_new();
    assert!(!audio_processor_handle_copy_track_metadata(Some(&mut handle), None));
    assert!(!audio_processor_handle_copy_track_metadata(Some(&mut handle), Some(&source)));
    let (_worker, _) = audio_processor_handle_initialize_preallocated(
        Some(&mut handle),
        Some(SOCKET_PATH.to_owned()),
        2,
        48_000,
        8,
    )
    .expect("settings are valid");
    let processor = handle.current.as_ref().expect("in place");
    assert_eq!(processor.metadata.metadata, source.desired_metadata);
    assert_eq!(processor.metadata.version, 1);
    assert!(!audio_processor_handle_copy_track_metadata(Some(&mut handle), Some(&source)));
    assert!(audio_processor_set_track_metadata(Some(&mut handle), Some("id"), Some("drums")));
    assert!(!audio_processor_set_track_metadata(Some(&mut handle), Some("id"), Some("drums ")));
    assert_eq!(handle.current.as_ref().expect("in place").metadata.version, 2);
    audio_processor_shutdown(Some(&mut handle));
    assert_eq!(handle.desired_metadata.label, Some("drums".to_owned()));
    handle.initialize(SOCKET_PATH.to_owned(), 1, 16_000, 8, None);
    let metadata = &handle.current.as_ref().expect("in place").metadata;
    assert_eq!(metadata.metadata.label, Some("drums".to_owned()));
}

#[test]
fn control_messages_are_laid_out_to_the_byte() {
    let nameless = TrackMetadata { instance_id: None, label: None };
    assert!(nameless.is_empty());
    assert_eq!(metadata_control_message(1, &nameless), None);
    let named = TrackMetadata { instance_id: Some("i\u{e9}".to_owned()), label: Some("lab".to_owned()) };
    assert!(!named.is_empty());
    assert_eq!(
        metadata_control_message(0x0102, &named),
        Some(b"META\x02\x01\x03\x00\x03\x00i\xC3\xA9lab".to_vec())
    );
    let half = TrackMetadata { instance_id: None, label: Some("x".to_owned()) };
    assert_eq!(metadata_control_message(7, &half), Some(b"META\x07\x00\x00\x00\x01\x00x".to_vec()));
}

#[test]
fn a_reader_that_two_replacements_passed_by_gets_no_lease() {
    let mut handle = AudioProcessorHandle::new();
    handle.initialize(SOCKET_PATH.to_owned(), 1, 48_000, 8, None);
    let seen = handle.gate.look();
    let (_worker, retired) = handle.initialize(SOCKET_PATH.to_owned(), 1, 48_000, 8, None);
    assert_eq!(handle.reclaim_step(&retired, 0), ReclaimStep::Reclaim);
    handle.gate.enter(slot_of(seen));
    let picked = handle.current.is_some();
    let retired = handle.deinitialize();
    assert!(picked && retired.processor.is_some());
    assert_eq!(handle.reclaim_step(&retired, 0), ReclaimStep::Reclaim);
    assert_eq!(slot_of(handle.gate.look()), slot_of(seen));
    assert!(!lease_stands(seen, handle.gate.look()));
    handle.gate.leave(slot_of(seen));
    assert_eq!(handle.gate.counts, [0, 0]);
}

#[test]
fn epochs_start_over() {
    let mut handle = AudioProcessorHandle::new();
    handle.gate.epoch = usize::MAX;
    let lease = handle.acquire();
    assert_eq!(lease.slot, 1);
    let retired = handle.deinitialize();
    assert_eq!((handle.gate.look(), retired.slot), (0, 1));
    assert_eq!(handle.reclaim_step(&retired, 0), ReclaimStep::Spin { spins: 1 });
    handle.release(lease);
    assert_eq!(handle.reclaim_step(&retired, 0), ReclaimStep::Reclaim);
}

#[test]
fn slots_alternate() {
    assert_eq!((slot_of(0), slot_of(1), slot_of(6), slot_of(usize::MAX)), (0, 1, 0, 1));
    assert_eq!((next_epoch(0), next_epoch(1), next_epoch(usize::MAX)), (1, 2, 0));
    assert!(lease_stands(0, 0) && lease_stands(3, 3));
    assert!(!lease_stands(0, 1) && !lease_stands(0, 2) && !lease_stands(2, 0));
    assert_eq!(reclaim_step(0, 99), ReclaimStep::Reclaim);
    assert_eq!(reclaim_step(1, 0), ReclaimStep::Spin { spins: 1 });
}
