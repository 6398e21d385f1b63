use audio_transport::bytes::{le_u16, push_le, push_le_i64, push_s24};
use audio_transport::clock::{clamp_millis, now_unix_ms};
use audio_transport::metadata::{metadata_field, PublishedMetadata, MAX_METADATA_FIELD_BYTES};
use audio_transport::status::{AudioProcessorStatus, AudioProcessorStatusCounters};
use audio_transport::text::truncate_utf8;

#[test]
fn truncation_ends_at_a_character() {
    assert_eq!(truncate_utf8("abc", 3), "abc");
    assert_eq!(truncate_utf8("abc", 100), "abc");
    assert_eq!(truncate_utf8("abc", 2), "ab");
    assert_eq!(truncate_utf8("a\u{e9}b", 2), "a");
    assert_eq!(truncate_utf8("a\u{e9}b", 3), "a\u{e9}");
    assert_eq!(truncate_utf8("\u{1F600}x", 3), "");
    assert_eq!(truncate_utf8("\u{1F600}x", 4), "\u{1F600}");
    assert_eq!(truncate_utf8("abc", 0), "");
    assert_eq!(truncate_utf8("", 0), "");
    let once = truncate_utf8("\u{20AC}\u{20AC}", 5);
    assert_eq!(once, "\u{20AC}");
    assert_eq!(truncate_utf8(once, 5), once);
}

#[test]
fn fields_are_trimmed_and_cut() {
    assert_eq!(metadata_field(None), None);
    assert_eq!(metadata_field(Some("")), None);
    assert_eq!(metadata_field(Some(" \t\r\n\u{3000}")), None);
    assert_eq!(metadata_field(Some("\u{a0} kick drum \u{2003}")), Some("kick drum".to_owned()));
    let long = "\u{e9}".repeat(300);
    let field = metadata_field(Some(&long)).expect("something is left");
    assert_eq!(field, "\u{e9}".repeat(256));
    let odd = format!("a{}", "\u{e9}".repeat(300));
    let field = metadata_field(Some(&odd)).expect("something is left");
    assert_eq!(field.len(), MAX_METADATA_FIELD_BYTES - 1);
}

#[test]
fn published_metadata_moves_on_only_with_its_names() {
    let mut published = PublishedMetadata::new();
    assert!(published.metadata.is_empty());
    assert!(!published.set_track_metadata(None, None));
    assert!(published.set_track_metadata(None, Some("a".to_owned())));
    assert!(!published.set_track_metadata(None, Some("a".to_owned())));
    assert!(published.set_track_metadata(Some("a".to_owned()), None));
    assert_eq!(published.version, 2);
    published.version = u64::MAX;
    assert!(published.set_track_metadata(None, None));
    assert_eq!(published.version, 0);
}

#[test]
fn numbers_are_laid_out_low_byte_first() {
    let mut out = vec![9];
    push_le(&mut out, 0x0102_0304, 4);
    push_le(&mut out, 0x0102_0304, 2);
    push_le_i64(&mut out, -2);
    push_s24(&mut out, -8_388_607);
    push_s24(&mut out, 0x0112_3456);
    let mut expected = vec![9, 4, 3, 2, 1, 4, 3];
    expected.extend((-2i64).to_le_bytes());
    expected.extend([1, 0, 0x80, 0x56, 0x34, 0x12]);
    assert_eq!(out, expected);
    assert_eq!(le_u16([0x34, 0x12]), 0x1234);
}

#[test]
fn times_are_clamped() {
    assert_eq!(clamp_millis(None), 0);
    assert_eq!(clamp_millis(Some(7)), 7);
    assert_eq!(clamp_millis(Some(u128::from(u64::MAX))), u64::MAX);
    assert_eq!(clamp_millis(Some(u128::from(u64::MAX) + 1)), u64::MAX);
    let before = now_unix_ms();
    assert!(before > 1_600_000_000_000);
    assert!(now_unix_ms() < before + 60_000);
}

#[test]
fn counters_wrap_around() {
    let idle = AudioProcessorStatus::default();
    assert!(!idle.started && !idle.connected);
    assert_eq!(idle.last_send_unix_ms, 0);
    let mut counters = AudioProcessorStatusCounters::default();
    counters.frames_dropped = u64::MAX;
    counters.count_dropped(3);
    counters.count_queued();
    counters.count_sent(12);
    counters.count_attempt();
    counters.count_failure();
    let status = counters.snapshot();
    assert_eq!(status.frames_dropped, 2);
    assert_eq!((status.frames_queued, status.frames_sent, status.last_send_unix_ms), (1, 1, 12));
    assert_eq!((status.connection_attempts, status.connection_failures), (1, 1));
}
