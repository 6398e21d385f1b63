use audio_transport::archive::{
    archive_webrtc_copy_last_error, archive_webrtc_destroy, archive_webrtc_new,
    archive_webrtc_receive, archive_webrtc_send, archive_webrtc_status, valid_signaling_url,
    ArchiveWebRtcHandle, ArchiveWebRtcStatus, PeerUpdate, SharedState, SocketTick,
    MAX_MESSAGE_BYTES, MESSAGES_PER_TICK, QUEUE_CAPACITY, STATE_CONNECTED, STATE_DISCOVERING,
    STATE_FAILED,
};
use std::collections::VecDeque;

const URL: &str = "wss://api.infidelity.io/v1/archive-rendezvous/id?protocol=matchbox-v1";

fn connection() -> ArchiveWebRtcHandle {
    archive_webrtc_new(Some(URL), false).expect("the address is allowed")
}

fn arrives(peer: u128) -> Vec<PeerUpdate> {
    vec![PeerUpdate { peer, connected: true }]
}

fn leaves(peer: u128) -> Vec<PeerUpdate> {
    vec![PeerUpdate { peer, connected: false }]
}

fn sent(tick: SocketTick) -> (u128, Vec<Vec<u8>>) {
    match tick {
        SocketTick::Send { peer, messages } => (peer, messages),
        other => panic!("nothing was sent: {other:?}"),
    }
}

#[test]
fn production_signaling_is_origin_and_protocol_scoped() {
    for debug_build in [false, true] {
        assert!(valid_signaling_url(
            "wss://api.infidelity.io/v1/archive-rendezvous/id?protocol=matchbox-v1",
            debug_build
        ));
        assert!(!valid_signaling_url(
            "wss://example.com/v1/archive-rendezvous/id?protocol=matchbox-v1",
            debug_build
        ));
        assert!(!valid_signaling_url(
            "wss://api.infidelity.io/v1/archive-rendezvous/id",
            debug_build
        ));
    }
}

#[test]
fn status_layout_defaults_to_idle_values() {
    let status = ArchiveWebRtcStatus::default();
    assert_eq!(status.state, 0);
    assert_eq!(status.messages_sent, 0);
    assert_eq!(status.bytes_received, 0);
}

#[test]
fn local_signaling_is_for_debug_builds_and_the_direct_protocol() {
    for url in [
        "ws://127.0.0.1:8080/x?protocol=matchbox-v1",
        "ws://localhost:9/?protocol=matchbox-v1",
    ] {
        assert!(valid_signaling_url(url, true));
        assert!(!valid_signaling_url(url, false));
    }
    assert!(!valid_signaling_url("ws://localhost:9/", true));
    assert!(!valid_signaling_url("ws://localhost/?protocol=matchbox-v1", true));
    assert!(!valid_signaling_url("", true));
    assert!(valid_signaling_url(URL, false));
    assert!(!valid_signaling_url(&URL[1..], true));
}

#[test]
fn connections_need_an_allowed_address() {
    assert!(archive_webrtc_new(None, true).is_none());
    assert!(archive_webrtc_new(Some("wss://example.com/"), true).is_none());
    let handle = connection();
    let status = archive_webrtc_status(Some(&handle));
    assert_eq!(status.state, STATE_DISCOVERING);
    assert_eq!(status.messages_received, 0);
    assert!(handle.running);
    assert_eq!(archive_webrtc_status(None).state, 0);
}

#[test]
fn messages_of_wrong_length_are_refused() {
    let mut handle = connection();
    assert!(!archive_webrtc_send(None, Some(&[1])));
    assert!(!archive_webrtc_send(Some(&mut handle), None));
    assert!(!archive_webrtc_send(Some(&mut handle), Some(&[])));
    let longest = vec![7u8; MAX_MESSAGE_BYTES];
    assert!(archive_webrtc_send(Some(&mut handle), Some(&longest)));
    let longer = vec![7u8; MAX_MESSAGE_BYTES + 1];
    assert!(!archive_webrtc_send(Some(&mut handle), Some(&longer)));
    assert_eq!(handle.outbound.len(), 1);
    assert_eq!(handle.outbound[0], longest);
}

#[test]
fn a_full_queue_refuses_and_ticks_send_in_order() {
    let mut handle = connection();
    for number in 0..QUEUE_CAPACITY {
        assert!(archive_webrtc_send(Some(&mut handle), Some(&[number as u8, 1])));
    }
    assert!(!archive_webrtc_send(Some(&mut handle), Some(&[99])));

    assert!(matches!(handle.tick(&Vec::new(), VecDeque::new()), SocketTick::Idle));
    let (peer, messages) = sent(handle.tick(&arrives(5), VecDeque::new()));
    assert_eq!(peer, 5);
    assert_eq!(messages.len(), MESSAGES_PER_TICK);
    assert_eq!(messages[0], vec![0, 1]);
    assert_eq!(messages[7], vec![7, 1]);
    let (_, messages) = sent(handle.tick(&Vec::new(), VecDeque::new()));
    assert_eq!(messages[0], vec![8, 1]);
    let status = archive_webrtc_status(Some(&handle));
    assert_eq!(status.state, STATE_CONNECTED);
    assert_eq!(status.messages_sent, 16);
    assert_eq!(status.bytes_sent, 32);
    assert!(archive_webrtc_send(Some(&mut handle), Some(&[99])));
}

#[test]
fn the_last_peer_to_connect_counts() {
    let mut handle = connection();
    let (peer, messages) = sent(handle.tick(&arrives(1), VecDeque::new()));
    assert_eq!((peer, messages.len()), (1, 0));
    let (peer, _) = sent(handle.tick(&arrives(2), VecDeque::new()));
    assert_eq!(peer, 2);
    let (peer, _) = sent(handle.tick(&leaves(1), VecDeque::new()));
    assert_eq!(peer, 2);
    assert_eq!(archive_webrtc_status(Some(&handle)).state, STATE_CONNECTED);
    assert!(matches!(handle.tick(&leaves(2), VecDeque::new()), SocketTick::Idle));
    assert_eq!(archive_webrtc_status(Some(&handle)).state, STATE_DISCOVERING);
}

#[test]
fn messages_are_handed_out_in_order() {
    let mut handle = connection();
    let arrived: VecDeque<Vec<u8>> = vec![vec![1], vec![2, 2], vec![]].into();
    assert!(matches!(handle.tick(&Vec::new(), arrived), SocketTick::Idle));
    assert_eq!(archive_webrtc_receive(None, Some(MAX_MESSAGE_BYTES)), None);
    assert_eq!(archive_webrtc_receive(Some(&mut handle), None), None);
    assert_eq!(archive_webrtc_receive(Some(&mut handle), Some(MAX_MESSAGE_BYTES - 1)), None);
    assert_eq!(archive_webrtc_receive(Some(&mut handle), Some(MAX_MESSAGE_BYTES)), Some(vec![1]));
    assert_eq!(archive_webrtc_receive(Some(&mut handle), Some(usize::MAX)), Some(vec![2, 2]));
    assert_eq!(archive_webrtc_receive(Some(&mut handle), Some(MAX_MESSAGE_BYTES)), Some(vec![]));
    assert_eq!(archive_webrtc_receive(Some(&mut handle), Some(MAX_MESSAGE_BYTES)), None);
    let status = archive_webrtc_status(Some(&handle));
    assert_eq!(status.messages_received, 3);
    assert_eq!(status.bytes_received, 3);
}

#[test]
fn more_than_fits_ends_the_connection() {
    let mut handle = connection();
    let arrived: VecDeque<Vec<u8>> = (0..QUEUE_CAPACITY + 2).map(|n| vec![n as u8]).collect();
    assert!(archive_webrtc_send(Some(&mut handle), Some(&[1])));
    assert!(matches!(handle.tick(&arrives(3), arrived), SocketTick::Stop));
    let status = archive_webrtc_status(Some(&handle));
    assert_eq!(status.state, STATE_FAILED);
    assert_eq!(status.messages_received, 64);
    assert_eq!(status.messages_sent, 0);
    assert_eq!(handle.state.last_error, "The direct archive receive queue is full.");
    assert!(!archive_webrtc_send(Some(&mut handle), Some(&[1])));
    assert_eq!(archive_webrtc_receive(Some(&mut handle), Some(MAX_MESSAGE_BYTES)), Some(vec![0]));
}

#[test]
fn a_connection_that_was_given_up_stops() {
    let mut handle = connection();
    assert!(archive_webrtc_send(Some(&mut handle), Some(&[1])));
    archive_webrtc_destroy(None);
    archive_webrtc_destroy(Some(&mut handle));
    let arrived: VecDeque<Vec<u8>> = vec![vec![1]].into();
    assert!(matches!(handle.tick(&arrives(1), arrived), SocketTick::Stop));
    let status = archive_webrtc_status(Some(&handle));
    assert_eq!(status.state, STATE_DISCOVERING);
    assert_eq!(status.messages_received, 0);
    assert!(!archive_webrtc_send(Some(&mut handle), Some(&[1])));
}

#[test]
fn the_end_of_a_connection_is_told() {
    let mut handle = connection();
    handle.connection_ended(None);
    assert_eq!(handle.state.last_error, "The direct archive connection ended.");
    assert_eq!(archive_webrtc_status(Some(&handle)).state, STATE_FAILED);
    let mut handle = connection();
    handle.connection_ended(Some("no route"));
    assert_eq!(handle.state.last_error, "The direct archive connection failed: no route");
    assert!(!archive_webrtc_send(Some(&mut handle), Some(&[1])));
}

#[test]
fn the_last_error_is_cut_to_its_destination() {
    let mut handle = connection();
    let none = archive_webrtc_copy_last_error(None, Some(8));
    assert_eq!((none.required, none.bytes), (0, None));
    let empty = archive_webrtc_copy_last_error(Some(&handle), Some(8));
    assert_eq!((empty.required, empty.bytes), (1, Some(vec![0])));
    handle.state.fail("caf\u{e9}".to_owned());
    for (capacity, bytes) in [
        (None, None),
        (Some(0), None),
        (Some(1), Some(vec![0])),
        (Some(5), Some(vec![b'c', b'a', b'f', 0xC3, 0])),
        (Some(6), Some(vec![b'c', b'a', b'f', 0xC3, 0xA9, 0])),
        (Some(100), Some(vec![b'c', b'a', b'f', 0xC3, 0xA9, 0])),
    ] {
        let error = archive_webrtc_copy_last_error(Some(&handle), capacity);
        assert_eq!((error.required, error.bytes), (6, bytes));
    }
}

#[test]
fn shared_state_counts_around() {
    let mut state = SharedState::new();
    assert_eq!(state.snapshot().state, STATE_DISCOVERING);
    assert!(!state.cancelled);
    state.messages_received = u64::MAX;
    let mut handle = connection();
    handle.state = state;
    let arrived: VecDeque<Vec<u8>> = vec![vec![1, 2]].into();
    handle.tick(&Vec::new(), arrived);
    assert_eq!(handle.state.snapshot().messages_received, 0);
    handle.state.fail("over".to_owned());
    assert_eq!(handle.state.snapshot().state, STATE_FAILED);
    assert_eq!(handle.state.last_error, "over");
}
