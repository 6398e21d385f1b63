//! What the archive transport is for: whatever one side queues, the other side receives.

use crate::archive::{
    after_updates, contents, opened, shown_by, signaling_allowed, told, total_bytes,
    ArchiveWebRtcHandle, PeerUpdate, SharedState, SocketTick,
};
use crate::text::occurs_in;
use vstd::prelude::*;
use vstd::utf8::encode_utf8;

verus! {

/// An address is allowed whatever stands between the production origin and the protocol, and
/// whatever stands behind it, in every build.
pub proof fn production_addresses_are_allowed(before: Seq<char>, after: Seq<char>, debug_build: bool)
    ensures
        signaling_allowed(
            "wss://api.infidelity.io/v1/archive-rendezvous/"@ + before + "protocol=matchbox-v1"@
                + after,
            debug_build,
        ),
{
    let origin = "wss://api.infidelity.io/v1/archive-rendezvous/"@;
    let protocol = "protocol=matchbox-v1"@;
    let url = origin + before + protocol + after;
    let at = (origin + before).len() as int;
    assert(url.subrange(at, at + protocol.len()) =~= protocol);
    assert(origin.is_prefix_of(url));
}

/// A local address is allowed in a debug build and in no other, whatever stands between the host and
/// the protocol, and whatever stands behind it.
pub proof fn local_addresses_are_for_debug_builds(
    numeric: bool,
    before: Seq<char>,
    after: Seq<char>,
    debug_build: bool,
)
    ensures
        signaling_allowed(
            (if numeric {
                "ws://127.0.0.1:"@
            } else {
                "ws://localhost:"@
            }) + before + "protocol=matchbox-v1"@ + after,
            debug_build,
        ) == debug_build,
{
    let origin = if numeric {
        "ws://127.0.0.1:"@
    } else {
        "ws://localhost:"@
    };
    let protocol = "protocol=matchbox-v1"@;
    let url = origin + before + protocol + after;
    let at = (origin + before).len() as int;
    assert(url.subrange(at, at + protocol.len()) =~= protocol);
    assert(origin.is_prefix_of(url));
    reveal_strlit("ws://127.0.0.1:");
    reveal_strlit("ws://localhost:");
    reveal_strlit("wss://api.infidelity.io/v1/archive-rendezvous/");
    let production = "wss://api.infidelity.io/v1/archive-rendezvous/"@;
    assert(origin[2] == ':');
    assert(production[2] == 's');
    assert(url[2] == origin[2]);
    if production.is_prefix_of(url) {
        assert(url[2] == production[2]);
    }
}

/// An address that is allowed has the protocol somewhere in it, and has in front either the
/// production origin or, in a debug build, a local one.
pub proof fn other_addresses_are_not_allowed(url: Seq<char>, debug_build: bool)
    requires
        signaling_allowed(url, debug_build),
    ensures
        exists|at: int|
            0 <= at <= url.len() - "protocol=matchbox-v1"@.len() && #[trigger] url.subrange(
                at,
                at + "protocol=matchbox-v1"@.len(),
            ) == "protocol=matchbox-v1"@,
        url.take("wss://api.infidelity.io/v1/archive-rendezvous/"@.len() as int)
            == "wss://api.infidelity.io/v1/archive-rendezvous/"@ || (debug_build && (url.take(
            "ws://127.0.0.1:"@.len() as int,
        ) == "ws://127.0.0.1:"@ || url.take("ws://localhost:"@.len() as int)
            == "ws://localhost:"@)),
{
    let production = "wss://api.infidelity.io/v1/archive-rendezvous/"@;
    if production.is_prefix_of(url) {
        assert(url.take(production.len() as int) =~= production);
    } else if "ws://127.0.0.1:"@.is_prefix_of(url) {
        assert(url.take("ws://127.0.0.1:"@.len() as int) =~= "ws://127.0.0.1:"@);
    } else {
        assert(url.take("ws://localhost:"@.len() as int) =~= "ws://localhost:"@);
    }
}

/// One text occurs in another exactly if that is something, the text, and something.
pub proof fn occurrence_is_a_split(part: Seq<char>, before: Seq<char>, after: Seq<char>)
    ensures
        occurs_in(part, before + part + after),
{
    let at = before.len() as int;
    assert((before + part + after).subrange(at, at + part.len()) =~= part);
}

/// A connection is opened exactly through an allowed address. It looks for its peer, has nothing to
/// send or to hand out, and has counted nothing.
pub proof fn allowed_addresses_open_connections(
    url: Option<Seq<char>>,
    debug_build: bool,
    handle: Option<ArchiveWebRtcHandle>,
)
    requires
        opened(url, debug_build, handle),
    ensures
        url matches Some(text) ==> (handle is Some <==> signaling_allowed(text, debug_build)),
        url is None ==> handle is None,
        handle matches Some(made) ==> {
            &&& made.wf()
            &&& made.running
            &&& made.peer is None
            &&& made.outbound@.len() == 0
            &&& made.inbound@.len() == 0
            &&& made.state.state == 1
            &&& made.state.messages_sent == 0
            &&& made.state.messages_received == 0
            &&& made.state.bytes_sent == 0
            &&& made.state.bytes_received == 0
            &&& !made.state.cancelled
            &&& made.state.last_error@.len() == 0
        },
{
}

/// What is shown of a connection is what it has; without one, nothing.
pub proof fn connections_show_what_they_have(handle: ArchiveWebRtcHandle)
    ensures
        shown_by(Some(handle)).state == handle.state.state,
        shown_by(Some(handle)).messages_sent == handle.state.messages_sent,
        shown_by(Some(handle)).messages_received == handle.state.messages_received,
        shown_by(Some(handle)).bytes_sent == handle.state.bytes_sent,
        shown_by(Some(handle)).bytes_received == handle.state.bytes_received,
        shown_by(None).state == 0,
        shown_by(None).messages_sent == 0 && shown_by(None).messages_received == 0,
        shown_by(None).bytes_sent == 0 && shown_by(None).bytes_received == 0,
{
}

/// The bytes of messages add up, one message at a time.
pub proof fn bytes_add_up(messages: Seq<Seq<u8>>, message: Seq<u8>)
    ensures
        total_bytes(Seq::<Seq<u8>>::empty()) == 0,
        total_bytes(messages.push(message)) == total_bytes(messages) + message.len(),
{
    assert(messages.push(message).drop_last() =~= messages);
}

/// The contents of messages are their bytes, in order.
pub proof fn contents_are_bytes(messages: Seq<Vec<u8>>, index: int)
    requires
        0 <= index < messages.len(),
    ensures
        contents(messages).len() == messages.len(),
        contents(messages)[index] == messages[index]@,
{
}

/// A message is queued exactly if it has between one and 16384 bytes, the socket runs, and fewer than
/// sixty-four wait. It goes behind all that wait, as it is; one that is refused changes nothing.
pub proof fn messages_are_queued_as_they_are(
    before: ArchiveWebRtcHandle,
    bytes: Option<Seq<u8>>,
    after: ArchiveWebRtcHandle,
    queued: bool,
    index: int,
)
    requires
        before.queues(bytes, after, queued),
    ensures
        queued <==> bytes is Some && 1 <= bytes->0.len() <= 16384 && before.running
            && before.outbound@.len() < 64,
        queued ==> after.outbound@.len() == before.outbound@.len() + 1 && after.outbound@.last()@
            == bytes->0,
        queued && 0 <= index < before.outbound@.len() ==> after.outbound@[index]@
            == before.outbound@[index]@,
        !queued ==> after.outbound@ == before.outbound@,
        after.inbound@ == before.inbound@,
        after.state == before.state,
        after.peer == before.peer,
        after.running == before.running,
{
    if queued {
        let queue = contents(after.outbound@);
        assert(queue[queue.len() - 1] == after.outbound@.last()@);
        if 0 <= index < before.outbound@.len() {
            assert(queue[index] == after.outbound@[index]@);
            assert(contents(before.outbound@)[index] == before.outbound@[index]@);
        }
    }
}

/// A message is handed out exactly if there is one and the destination could take the longest. It is
/// the oldest, as it came, and the others stay, in order.
pub proof fn messages_are_handed_out_as_they_came(
    before: ArchiveWebRtcHandle,
    capacity: Option<usize>,
    after: ArchiveWebRtcHandle,
    message: Option<Seq<u8>>,
    index: int,
)
    requires
        before.hands_out(capacity, after, message),
    ensures
        message is Some <==> capacity is Some && capacity->0 >= 16384 && before.inbound@.len() > 0,
        message matches Some(bytes) ==> bytes == before.inbound@[0]@,
        message is Some ==> after.inbound@.len() == before.inbound@.len() - 1,
        message is Some && 0 <= index < after.inbound@.len() ==> after.inbound@[index]
            == before.inbound@[index + 1],
        message is None ==> after.inbound@ == before.inbound@,
        after.outbound@ == before.outbound@,
        after.state == before.state,
        after.peer == before.peer,
        after.running == before.running,
{
}

/// Whether `peer` is the one to talk to after `updates`: it connected, nobody connected later, and it
/// has not gone since; or it was the one before, nobody connected, and it has not gone.
pub open spec fn is_peer_after(
    before: Option<u128>,
    updates: Seq<PeerUpdate>,
    peer: u128,
) -> bool {
    ||| exists|at: int|
        {
            &&& 0 <= at < updates.len()
            &&& (#[trigger] updates[at]).connected
            &&& updates[at].peer == peer
            &&& forall|later: int|
                at < later < updates.len() ==> !(#[trigger] updates[later]).connected
                    && updates[later].peer != peer
        }
    ||| before == Some(peer) && forall|later: int|
        0 <= later < updates.len() ==> !(#[trigger] updates[later]).connected
            && updates[later].peer != peer
}

proof fn lemma_peer_after(before: Option<u128>, state: u32, updates: Seq<PeerUpdate>, peer: u128)
    ensures
        after_updates(before, state, updates).0 == Some(peer) <==> is_peer_after(
            before,
            updates,
            peer,
        ),
    decreases updates.len(),
{
    if updates.len() > 0 {
        let rest = updates.drop_last();
        let last = updates.len() - 1;
        lemma_peer_after(before, state, rest, peer);
        if updates[last].connected {
            if updates[last].peer == peer {
                assert(is_peer_after(before, updates, peer));
            }
        } else if updates[last].peer == peer {
            assert(!is_peer_after(before, updates, peer));
        } else {
            if is_peer_after(before, rest, peer) {
                if exists|at: int|
                    {
                        &&& 0 <= at < rest.len()
                        &&& (#[trigger] rest[at]).connected
                        &&& rest[at].peer == peer
                        &&& forall|later: int|
                            at < later < rest.len() ==> !(#[trigger] rest[later]).connected
                                && rest[later].peer != peer
                    } {
                    let at = choose|at: int|
                        {
                            &&& 0 <= at < rest.len()
                            &&& (#[trigger] rest[at]).connected
                            &&& rest[at].peer == peer
                            &&& forall|later: int|
                                at < later < rest.len() ==> !(#[trigger] rest[later]).connected
                                    && rest[later].peer != peer
                        };
                    assert(updates[at].connected && updates[at].peer == peer);
                    assert forall|later: int| at < later < updates.len() implies !(
                    #[trigger] updates[later]).connected && updates[later].peer != peer by {
                        if later < last {
                            assert(rest[later] == updates[later]);
                        }
                    }
                } else {
                    assert forall|later: int| 0 <= later < updates.len() implies !(
                    #[trigger] updates[later]).connected && updates[later].peer != peer by {
                        if later < last {
                            assert(rest[later] == updates[later]);
                        }
                    }
                }
            }
            if is_peer_after(before, updates, peer) {
                if exists|at: int|
                    {
                        &&& 0 <= at < updates.len()
                        &&& (#[trigger] updates[at]).connected
                        &&& updates[at].peer == peer
                        &&& forall|later: int|
                            at < later < updates.len() ==> !(#[trigger] updates[later]).connected
                                && updates[later].peer != peer
                    } {
                    let at = choose|at: int|
                        {
                            &&& 0 <= at < updates.len()
                            &&& (#[trigger] updates[at]).connected
                            &&& updates[at].peer == peer
                            &&& forall|later: int|
                                at < later < updates.len() ==> !(
                                #[trigger] updates[later]).connected && updates[later].peer
                                    != peer
                        };
                    assert(at < last);
                    assert(rest[at] == updates[at]);
                    assert forall|later: int| at < later < rest.len() implies !(
                    #[trigger] rest[later]).connected && rest[later].peer != peer by {
                        assert(rest[later] == updates[later]);
                    }
                } else {
                    assert forall|later: int| 0 <= later < rest.len() implies !(
                    #[trigger] rest[later]).connected && rest[later].peer != peer by {
                        assert(rest[later] == updates[later]);
                    }
                }
            }
        }
    }
}

proof fn lemma_state_after(peer: Option<u128>, state: u32, updates: Seq<PeerUpdate>)
    requires
        peer is Some <==> state == 2,
        peer is None <==> state == 1,
    ensures
        ({
            let after = after_updates(peer, state, updates);
            &&& after.0 is Some <==> after.1 == 2
            &&& after.0 is None <==> after.1 == 1
        }),
    decreases updates.len(),
{
    if updates.len() > 0 {
        lemma_state_after(peer, state, updates.drop_last());
    }
}

proof fn lemma_updates_decide_the_state(
    peer: Option<u128>,
    state: u32,
    updates: Seq<PeerUpdate>,
)
    ensures
        ({
            let after = after_updates(peer, state, updates);
            let some_connected = exists|i: int|
                0 <= i < updates.len() && (#[trigger] updates[i]).connected;
            let own_gone = exists|i: int|
                0 <= i < updates.len() && peer == Some((#[trigger] updates[i]).peer);
            &&& some_connected ==> (after.0 is Some && after.1 == 2 || after.0 is None && after.1
                == 1)
            &&& !some_connected && own_gone ==> after == (None::<u128>, 1u32)
            &&& !some_connected && !own_gone ==> after == (peer, state)
        }),
    decreases updates.len(),
{
    if updates.len() > 0 {
        let rest = updates.drop_last();
        let last = updates.len() - 1;
        lemma_updates_decide_the_state(peer, state, rest);
        assert forall|i: int| 0 <= i < rest.len() implies #[trigger] rest[i] == updates[i] by {}
        if exists|i: int| 0 <= i < rest.len() && (#[trigger] rest[i]).connected {
            let i = choose|i: int| 0 <= i < rest.len() && (#[trigger] rest[i]).connected;
            assert(updates[i].connected);
        } else if updates[last].connected {
        } else {
            assert forall|i: int| 0 <= i < updates.len() implies !(
            #[trigger] updates[i]).connected by {
                if i < last {
                    assert(!rest[i].connected);
                }
            }
            if exists|i: int| 0 <= i < rest.len() && peer == Some((#[trigger] rest[i]).peer) {
                let i = choose|i: int|
                    0 <= i < rest.len() && peer == Some((#[trigger] rest[i]).peer);
                assert(peer == Some(updates[i].peer));
            } else if peer == Some(updates[last].peer) {
            } else {
                assert forall|i: int| 0 <= i < updates.len() implies peer != Some(
                    (#[trigger] updates[i]).peer,
                ) by {
                    if i < last {
                        assert(peer != Some(rest[i].peer));
                    }
                }
            }
        }
    }
}

/// The state follows the news of peers: once somebody has connected it shows whether there is a peer
/// to talk to; when only the peer has gone it shows that there is none; and news of others alone
/// leave it as it was.
pub proof fn states_follow_the_news(
    before: ArchiveWebRtcHandle,
    updates: Seq<PeerUpdate>,
    messages: Seq<Seq<u8>>,
    after: ArchiveWebRtcHandle,
    tick: SocketTick,
)
    requires
        before.wf(),
        !before.state.cancelled,
        before.inbound@.len() + messages.len() <= 64,
        before.ticks(updates, messages, after, tick),
    ensures
        (exists|i: int| 0 <= i < updates.len() && (#[trigger] updates[i]).connected) ==> (
        after.peer is Some && after.state.state == 2 || after.peer is None && after.state.state
            == 1),
        (forall|i: int| 0 <= i < updates.len() ==> !(#[trigger] updates[i]).connected) && (exists|
            i: int,
        |
            0 <= i < updates.len() && before.peer == Some((#[trigger] updates[i]).peer))
            ==> after.peer is None && after.state.state == 1,
        (forall|i: int|
            0 <= i < updates.len() ==> !(#[trigger] updates[i]).connected && before.peer != Some(
                updates[i].peer,
            )) ==> after.peer == before.peer && after.state.state == before.state.state,
{
    lemma_updates_decide_the_state(before.peer, before.state.state, updates);
}

/// The last peer to connect is the one to talk to until it goes; who else goes does not matter. The
/// state shows whether there is one. This is so after every tick of a connection that has not been
/// given up, whatever came in, unless more came in than there was space for.
pub proof fn ticks_follow_the_peers(
    before: ArchiveWebRtcHandle,
    updates: Seq<PeerUpdate>,
    messages: Seq<Seq<u8>>,
    after: ArchiveWebRtcHandle,
    tick: SocketTick,
    peer: u128,
)
    requires
        before.wf(),
        !before.state.cancelled,
        before.ticks(updates, messages, after, tick),
    ensures
        after.peer == Some(peer) <==> is_peer_after(before.peer, updates, peer),
        before.inbound@.len() + messages.len() <= 64 ==> (tick is Idle <==> after.peer is None),
        before.inbound@.len() + messages.len() <= 64 && (before.peer is Some
            <==> before.state.state == 2) && (before.peer is None <==> before.state.state == 1)
            ==> {
            &&& after.peer is Some <==> after.state.state == 2
            &&& after.peer is None <==> after.state.state == 1
        },
{
    lemma_peer_after(before.peer, before.state.state, updates, peer);
    if (before.peer is Some <==> before.state.state == 2) && (before.peer is None
        <==> before.state.state == 1) {
        lemma_state_after(before.peer, before.state.state, updates);
    }
}

/// A tick with a peer sends what waits, oldest first, to that peer: up to eight messages, and fewer
/// only if no more wait. What it sends is counted, message by message and byte by byte, and what it
/// does not send waits on, in order. So a message that waits alone leaves at once.
pub proof fn ticks_send_what_waits(
    before: ArchiveWebRtcHandle,
    updates: Seq<PeerUpdate>,
    messages: Seq<Seq<u8>>,
    after: ArchiveWebRtcHandle,
    tick: SocketTick,
    index: int,
)
    requires
        before.wf(),
        !before.state.cancelled,
        before.inbound@.len() + messages.len() <= 64,
        after.peer is Some,
        before.ticks(updates, messages, after, tick),
    ensures
        tick is Send,
        tick->peer == after.peer->0,
        tick->messages@.len() <= 8,
        tick->messages@.len() <= before.outbound@.len(),
        tick->messages@.len() < 8 ==> tick->messages@.len() == before.outbound@.len(),
        before.outbound@.len() > 0 ==> tick->messages@.len() > 0,
        0 <= index < tick->messages@.len() ==> tick->messages@[index]@
            == before.outbound@[index]@,
        after.outbound@.len() == before.outbound@.len() - tick->messages@.len(),
        0 <= index < after.outbound@.len() ==> after.outbound@[index]
            == before.outbound@[tick->messages@.len() + index],
        after.state.messages_sent == (before.state.messages_sent + tick->messages@.len())
            % 0x1_0000_0000_0000_0000,
        after.state.bytes_sent == (before.state.bytes_sent + total_bytes(
            contents(tick->messages@),
        )) % 0x1_0000_0000_0000_0000,
        after.running == before.running,
        after.state.last_error@ == before.state.last_error@,
{
}

/// A tick without a peer sends nothing, and all that waits waits on.
pub proof fn ticks_without_a_peer_wait(
    before: ArchiveWebRtcHandle,
    updates: Seq<PeerUpdate>,
    messages: Seq<Seq<u8>>,
    after: ArchiveWebRtcHandle,
    tick: SocketTick,
)
    requires
        before.wf(),
        !before.state.cancelled,
        before.inbound@.len() + messages.len() <= 64,
        after.peer is None,
        before.ticks(updates, messages, after, tick),
    ensures
        tick is Idle,
        after.outbound@ == before.outbound@,
        after.state.messages_sent == before.state.messages_sent,
        after.state.bytes_sent == before.state.bytes_sent,
        after.running == before.running,
        after.state.last_error@ == before.state.last_error@,
{
}

/// A tick takes in all that came, in order, behind what is there, and counts it, message by message
/// and byte by byte.
pub proof fn ticks_take_in_what_came(
    before: ArchiveWebRtcHandle,
    updates: Seq<PeerUpdate>,
    messages: Seq<Seq<u8>>,
    after: ArchiveWebRtcHandle,
    tick: SocketTick,
    index: int,
)
    requires
        before.wf(),
        !before.state.cancelled,
        before.inbound@.len() + messages.len() <= 64,
        before.ticks(updates, messages, after, tick),
    ensures
        after.inbound@.len() == before.inbound@.len() + messages.len(),
        0 <= index < before.inbound@.len() ==> after.inbound@[index]@ == before.inbound@[index]@,
        0 <= index < messages.len() ==> after.inbound@[before.inbound@.len() + index]@
            == messages[index],
        after.state.messages_received == (before.state.messages_received + messages.len())
            % 0x1_0000_0000_0000_0000,
        after.state.bytes_received == (before.state.bytes_received + total_bytes(messages))
            % 0x1_0000_0000_0000_0000,
{
    let whole = contents(before.inbound@) + messages;
    assert(messages.take(messages.len() as int) =~= messages);
    assert(contents(after.inbound@) == whole);
    assert(contents(after.inbound@).len() == after.inbound@.len());
    if 0 <= index < before.inbound@.len() {
        assert(contents(after.inbound@)[index] == after.inbound@[index]@);
        assert(contents(before.inbound@)[index] == before.inbound@[index]@);
    }
    if 0 <= index < messages.len() {
        let at = before.inbound@.len() + index;
        assert(contents(after.inbound@)[at] == after.inbound@[at]@);
    }
}

/// A connection that was given up is stopped by its next tick, which does nothing else; one that
/// brings more than there is space for is stopped too, with an error, and keeps what fits.
pub proof fn ticks_stop_when_they_must(
    before: ArchiveWebRtcHandle,
    updates: Seq<PeerUpdate>,
    messages: Seq<Seq<u8>>,
    after: ArchiveWebRtcHandle,
    tick: SocketTick,
    index: int,
)
    requires
        before.wf(),
        before.ticks(updates, messages, after, tick),
    ensures
        tick is Stop <==> before.state.cancelled || before.inbound@.len() + messages.len() > 64,
        tick is Stop ==> !after.running && after.outbound@.len() == 0,
        tick is Stop ==> after.state.messages_sent == before.state.messages_sent
            && after.state.bytes_sent == before.state.bytes_sent,
        before.state.cancelled ==> after.state@ == before.state@ && after.inbound@
            == before.inbound@ && after.state.last_error@ == before.state.last_error@,
        !before.state.cancelled && tick is Stop ==> {
            &&& after.state.state == 3
            &&& after.state.last_error@ == "The direct archive receive queue is full."@
            &&& after.inbound@.len() == 64
            &&& after.state.messages_received == (before.state.messages_received + 64
                - before.inbound@.len()) % 0x1_0000_0000_0000_0000
            &&& 0 <= index < before.inbound@.len() ==> after.inbound@[index]@
                == before.inbound@[index]@
            &&& before.inbound@.len() <= index < 64 ==> after.inbound@[index]@ == messages[index
                - before.inbound@.len()]
        },
        after.state.cancelled == before.state.cancelled,
{
    if !before.state.cancelled && tick is Stop {
        let fits = messages.take(64 - before.inbound@.len());
        assert(contents(after.inbound@) == contents(before.inbound@) + fits);
        assert(contents(after.inbound@).len() == after.inbound@.len());
        if 0 <= index < 64 {
            assert(contents(after.inbound@)[index] == after.inbound@[index]@);
            if index < before.inbound@.len() {
                assert(contents(before.inbound@)[index] == before.inbound@[index]@);
            }
        }
    }
}

/// A connection that ends by itself has failed, tells why, sends nothing more, and still hands out
/// what came in. One that is given up only says so.
pub proof fn endings_are_told(
    before: ArchiveWebRtcHandle,
    error: Option<Seq<char>>,
    ended: ArchiveWebRtcHandle,
    given_up: ArchiveWebRtcHandle,
)
    requires
        before.ends(error, ended),
        before.gives_up(given_up),
    ensures
        ended.state.state == 3,
        error is None ==> ended.state.last_error@ == "The direct archive connection ended."@,
        error matches Some(text) ==> ended.state.last_error@
            == "The direct archive connection failed: "@ + text,
        !ended.running,
        ended.outbound@.len() == 0,
        ended.inbound@ == before.inbound@,
        ended.state.messages_sent == before.state.messages_sent,
        ended.state.messages_received == before.state.messages_received,
        ended.state.bytes_sent == before.state.bytes_sent,
        ended.state.bytes_received == before.state.bytes_received,
        given_up.state.cancelled,
        given_up.state@ == before.state@,
        given_up.outbound@ == before.outbound@,
        given_up.inbound@ == before.inbound@,
        given_up.state.last_error@ == before.state.last_error@,
{
}

/// An error is shown as the state and told as it is; what was counted stays.
pub proof fn errors_are_kept(before: SharedState, message: Seq<char>, after: SharedState)
    requires
        before.failed(message, after),
    ensures
        after.state == 3,
        after.last_error@ == message,
        after.messages_sent == before.messages_sent,
        after.messages_received == before.messages_received,
        after.bytes_sent == before.bytes_sent,
        after.bytes_received == before.bytes_received,
        after.cancelled == before.cancelled,
{
}

/// What is written of an error ends with a zero byte and fits its destination. Before that byte
/// stands the beginning of the text; all of it if it fits, and else as much as does. What is required
/// for all of it is told whether or not there is a destination.
pub proof fn errors_are_told_as_far_as_they_fit(
    text: Seq<char>,
    capacity: Option<usize>,
    required: nat,
    bytes: Option<Seq<u8>>,
)
    requires
        encode_utf8(text).len() < usize::MAX,
        told(Some(text), capacity, required, bytes),
    ensures
        required == encode_utf8(text).len() + 1,
        bytes is Some <==> capacity is Some && capacity->0 > 0,
        bytes matches Some(written) ==> {
            &&& 0 < written.len() <= capacity->0
            &&& written.len() <= required
            &&& written.len() < capacity->0 ==> written.len() == required
            &&& written.last() == 0
            &&& written.drop_last() == encode_utf8(text).take(written.len() - 1)
        },
{
    if let Some(written) = bytes {
        assert(written.drop_last() =~= encode_utf8(text).take(written.len() - 1));
    }
}

/// Without a connection nothing is told.
pub proof fn nothing_is_told_without_a_connection(
    capacity: Option<usize>,
    required: nat,
    bytes: Option<Seq<u8>>,
)
    requires
        told(None, capacity, required, bytes),
    ensures
        required == 0,
        bytes is None,
{
}

/// Whether `states` is a run of ticks, each of them with a peer, on a connection that is not given up
/// and to which nothing comes that does not fit. Nothing is queued meanwhile.
pub open spec fn is_sending_run(
    states: Seq<ArchiveWebRtcHandle>,
    updates: Seq<Seq<PeerUpdate>>,
    messages: Seq<Seq<Seq<u8>>>,
    ticks: Seq<SocketTick>,
) -> bool {
    &&& states.len() == ticks.len() + 1
    &&& updates.len() == ticks.len()
    &&& messages.len() == ticks.len()
    &&& forall|i: int|
        0 <= i < ticks.len() ==> {
            &&& (#[trigger] states[i]).wf()
            &&& !states[i].state.cancelled
            &&& states[i].inbound@.len() + messages[i].len() <= 64
            &&& states[i + 1].peer is Some
            &&& states[i].ticks(updates[i], messages[i], states[i + 1], ticks[i])
        }
}

/// Every queued message leaves after finitely many ticks with a peer: eight at a time, and once there
/// were as many ticks as it takes, none is left.
pub proof fn every_queued_message_leaves(
    states: Seq<ArchiveWebRtcHandle>,
    updates: Seq<Seq<PeerUpdate>>,
    messages: Seq<Seq<Seq<u8>>>,
    ticks: Seq<SocketTick>,
    at: int,
)
    requires
        is_sending_run(states, updates, messages, ticks),
        0 <= at < states.len(),
    ensures
        8 * at >= states[0].outbound@.len() ==> states[at].outbound@.len() == 0,
        8 * at < states[0].outbound@.len() ==> states[at].outbound@.len()
            == states[0].outbound@.len() - 8 * at,
    decreases at,
{
    if at > 0 {
        every_queued_message_leaves(states, updates, messages, ticks, at - 1);
        let before = states[at - 1];
        assert(before.wf());
        ticks_send_what_waits(
            before,
            updates[at - 1],
            messages[at - 1],
            states[at - 1 + 1],
            ticks[at - 1],
            0,
        );
    }
}

/// What one side queues, the other side receives. A message that one side queues behind fewer than
/// eight others leaves with its next tick with a peer; and once the other side has taken in what left,
/// and has handed out what was there before, it hands out that very message.
pub proof fn the_other_side_receives_what_was_queued(
    sender: ArchiveWebRtcHandle,
    bytes: Seq<u8>,
    queued: ArchiveWebRtcHandle,
    sender_updates: Seq<PeerUpdate>,
    sender_messages: Seq<Seq<u8>>,
    sent: ArchiveWebRtcHandle,
    sender_tick: SocketTick,
    receiver: ArchiveWebRtcHandle,
    receiver_updates: Seq<PeerUpdate>,
    received: ArchiveWebRtcHandle,
    receiver_tick: SocketTick,
)
    requires
        sender.wf() && queued.wf() && receiver.wf(),
        sender.queues(Some(bytes), queued, true),
        sender.outbound@.len() < 8,
        !queued.state.cancelled && !receiver.state.cancelled,
        queued.inbound@.len() + sender_messages.len() <= 64,
        queued.ticks(sender_updates, sender_messages, sent, sender_tick),
        sent.peer is Some,
        receiver.inbound@.len() + sender.outbound@.len() + 1 <= 64,
        receiver.ticks(
            receiver_updates,
            contents(sender_tick->messages@),
            received,
            receiver_tick,
        ),
    ensures
        sender_tick is Send,
        sent.outbound@.len() == 0,
        received.inbound@.len() == receiver.inbound@.len() + sender.outbound@.len() + 1,
        received.inbound@.last()@ == bytes,
        forall|after: ArchiveWebRtcHandle, message: Option<Seq<u8>>| #[trigger]
            received.hands_out(Some(16384), after, message) && receiver.inbound@.len() == 0
                && sender.outbound@.len() == 0 ==> message == Some(bytes),
{
    let position = sender.outbound@.len() as int;
    messages_are_queued_as_they_are(sender, Some(bytes), queued, true, 0);
    ticks_send_what_waits(queued, sender_updates, sender_messages, sent, sender_tick, position);
    let left = contents(sender_tick->messages@);
    contents_are_bytes(sender_tick->messages@, position);
    ticks_take_in_what_came(
        receiver,
        receiver_updates,
        left,
        received,
        receiver_tick,
        position,
    );
    assert forall|after: ArchiveWebRtcHandle, message: Option<Seq<u8>>| #[trigger]
        received.hands_out(Some(16384), after, message) && receiver.inbound@.len() == 0
            && sender.outbound@.len() == 0 implies message == Some(bytes) by {
        messages_are_handed_out_as_they_came(received, Some(16384), after, message, 0);
    }
}

} // verus!
