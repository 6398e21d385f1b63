//! Reliable, direct-only archive transport between two peers.
//!
//! Messages wait in two bounded queues. A tick of the socket brings news of peers and messages that
//! came in, and takes out messages that are to be sent.

use crate::status::counted;
use crate::text::{contains, occurs_in, starts_with};
use std::collections::VecDeque;
use vstd::prelude::*;
use vstd::utf8::encode_utf8;

verus! {

/// The one channel of a connection.
pub const CHANNEL_ID: usize = 0;

/// The longest message.
pub const MAX_MESSAGE_BYTES: usize = 16384;

/// How many messages wait in either direction.
pub const QUEUE_CAPACITY: usize = 64;

/// How many messages leave in one tick.
pub const MESSAGES_PER_TICK: usize = 8;

/// Looking for the peer.
pub const STATE_DISCOVERING: u32 = 1;

/// Connected to the peer.
pub const STATE_CONNECTED: u32 = 2;

/// Over, with an error.
pub const STATE_FAILED: u32 = 3;

/// A reading of a connection's state and counters.
#[derive(Debug, Clone, Copy)]
pub struct ArchiveWebRtcStatus {
    pub state: u32,
    pub messages_sent: u64,
    pub messages_received: u64,
    pub bytes_sent: u64,
    pub bytes_received: u64,
}

impl ArchiveWebRtcStatus {
    /// The reading of a connection that does not exist.
    pub open spec fn idle() -> ArchiveWebRtcStatus {
        ArchiveWebRtcStatus {
            state: 0,
            messages_sent: 0,
            messages_received: 0,
            bytes_sent: 0,
            bytes_received: 0,
        }
    }
}

impl Default for ArchiveWebRtcStatus {
    fn default() -> (status: Self)
        ensures
            status == ArchiveWebRtcStatus::idle(),
    {
        ArchiveWebRtcStatus {
            state: 0,
            messages_sent: 0,
            messages_received: 0,
            bytes_sent: 0,
            bytes_received: 0,
        }
    }
}

/// What the owner of a connection and its socket share.
#[derive(Debug)]
pub struct SharedState {
    pub state: u32,
    pub messages_sent: u64,
    pub messages_received: u64,
    pub bytes_sent: u64,
    pub bytes_received: u64,
    pub cancelled: bool,
    pub last_error: String,
}

impl View for SharedState {
    type V = ArchiveWebRtcStatus;

    open spec fn view(&self) -> ArchiveWebRtcStatus {
        ArchiveWebRtcStatus {
            state: self.state,
            messages_sent: self.messages_sent,
            messages_received: self.messages_received,
            bytes_sent: self.bytes_sent,
            bytes_received: self.bytes_received,
        }
    }
}

impl SharedState {
    /// A connection that looks for its peer.
    pub fn new() -> (state: Self)
        ensures
            state@ == (ArchiveWebRtcStatus {
                state: STATE_DISCOVERING,
                ..ArchiveWebRtcStatus::idle()
            }),
            !state.cancelled,
            state.last_error@ == Seq::<char>::empty(),
    {
        SharedState {
            state: STATE_DISCOVERING,
            messages_sent: 0,
            messages_received: 0,
            bytes_sent: 0,
            bytes_received: 0,
            cancelled: false,
            last_error: String::new(),
        }
    }

    /// What ending the connection with an error leads to.
    pub open spec fn failed(self, message: Seq<char>, after: SharedState) -> bool {
        &&& after@ == (ArchiveWebRtcStatus { state: STATE_FAILED, ..self@ })
        &&& after.last_error@ == message
        &&& after.cancelled == self.cancelled
    }

    /// Ends the connection with an error.
    pub fn fail(&mut self, message: String)
        ensures
            old(self).failed(message@, *final(self)),
    {
        self.last_error = message;
        self.state = STATE_FAILED;
    }

    /// Reads the state and the counters.
    pub fn snapshot(&self) -> (status: ArchiveWebRtcStatus)
        ensures
            status == self@,
    {
        ArchiveWebRtcStatus {
            state: self.state,
            messages_sent: self.messages_sent,
            messages_received: self.messages_received,
            bytes_sent: self.bytes_sent,
            bytes_received: self.bytes_received,
        }
    }
}

/// The bytes of each of `messages`.
pub open spec fn contents(messages: Seq<Vec<u8>>) -> Seq<Seq<u8>> {
    messages.map_values(|message: Vec<u8>| message@)
}

/// The bytes of `messages` taken together.
pub open spec fn total_bytes(messages: Seq<Seq<u8>>) -> nat
    decreases messages.len(),
{
    if messages.len() == 0 {
        0
    } else {
        total_bytes(messages.drop_last()) + messages.last().len()
    }
}

/// News of a peer: it has connected, or it has gone.
#[derive(Debug, Clone, Copy)]
pub struct PeerUpdate {
    pub peer: u128,
    pub connected: bool,
}

/// Whom the connection is with, and its state, after `updates`. The last peer to connect is the
/// one; when that one goes, there is none.
pub open spec fn after_updates(
    peer: Option<u128>,
    state: u32,
    updates: Seq<PeerUpdate>,
) -> (Option<u128>, u32)
    decreases updates.len(),
{
    if updates.len() == 0 {
        (peer, state)
    } else {
        let before = after_updates(peer, state, updates.drop_last());
        let update = updates.last();
        if update.connected {
            (Some(update.peer), STATE_CONNECTED)
        } else if before.0 == Some(update.peer) {
            (None, STATE_DISCOVERING)
        } else {
            before
        }
    }
}

/// What a tick asks for.
#[derive(Debug)]
pub enum SocketTick {
    /// End the socket.
    Stop,
    /// Nothing.
    Idle,
    /// Send these, in order, to this peer.
    Send { peer: u128, messages: Vec<Vec<u8>> },
}

/// What a caller is told of the last error: the length of its text with a closing zero byte, and
/// what to write.
#[derive(Debug)]
pub struct LastError {
    pub required: usize,
    pub bytes: Option<Vec<u8>>,
}

/// A connection: its state, its queues, its peer, and whether its socket still runs.
#[derive(Debug)]
pub struct ArchiveWebRtcHandle {
    pub state: SharedState,
    pub outbound: VecDeque<Vec<u8>>,
    pub inbound: VecDeque<Vec<u8>>,
    pub peer: Option<u128>,
    pub running: bool,
}

impl ArchiveWebRtcHandle {
    /// Neither queue is longer than it may be, and what is to be sent was admitted.
    pub open spec fn wf(self) -> bool {
        &&& self.outbound@.len() <= QUEUE_CAPACITY
        &&& self.inbound@.len() <= QUEUE_CAPACITY
        &&& forall|i: int|
            0 <= i < self.outbound@.len() ==> 0 < (#[trigger] self.outbound@[i])@.len()
                <= MAX_MESSAGE_BYTES
    }

    /// How many more messages may come in.
    pub open spec fn inbound_space(self) -> nat {
        (QUEUE_CAPACITY - self.inbound@.len()) as nat
    }

    /// Takes in news of peers.
    fn apply_updates(&mut self, updates: &Vec<PeerUpdate>)
        ensures
            (final(self).peer, final(self).state.state) == after_updates(
                old(self).peer,
                old(self).state.state,
                updates@,
            ),
            final(self).state@ == (ArchiveWebRtcStatus {
                state: final(self).state.state,
                ..old(self).state@
            }),
            final(self).state.cancelled == old(self).state.cancelled,
            final(self).state.last_error == old(self).state.last_error,
            final(self).outbound == old(self).outbound,
            final(self).inbound == old(self).inbound,
            final(self).running == old(self).running,
    {
        let mut index: usize = 0;
        while index < updates.len()
            invariant
                index <= updates@.len(),
                (self.peer, self.state.state) == after_updates(
                    old(self).peer,
                    old(self).state.state,
                    updates@.take(index as int),
                ),
                self.state@ == (ArchiveWebRtcStatus {
                    state: self.state.state,
                    ..old(self).state@
                }),
                self.state.cancelled == old(self).state.cancelled,
                self.state.last_error == old(self).state.last_error,
                self.outbound == old(self).outbound,
                self.inbound == old(self).inbound,
                self.running == old(self).running,
            decreases updates@.len() - index,
        {
            let update: PeerUpdate = updates[index];
            index = index + 1;
            proof {
                let seen = updates@.take(index as int);
                assert(seen.drop_last() =~= updates@.take(index - 1));
                assert(seen.last() == update);
            }
            if update.connected {
                self.peer = Some(update.peer);
                self.state.state = STATE_CONNECTED;
            } else {
                let gone: bool = match self.peer {
                    Some(peer) => peer == update.peer,
                    None => false,
                };
                if gone {
                    self.peer = None;
                    self.state.state = STATE_DISCOVERING;
                }
            }
        }
        assert(updates@.take(index as int) =~= updates@);
    }

    /// Queues messages that came in, as many as there is space for. Returns whether that was all.
    fn accept(&mut self, messages: VecDeque<Vec<u8>>) -> (all: bool)
        requires
            old(self).wf(),
        ensures
            final(self).wf(),
            all <==> messages@.len() <= old(self).inbound_space(),
            ({
                let count = if all {
                    messages@.len()
                } else {
                    old(self).inbound_space()
                };
                let accepted = contents(messages@).take(count as int);
                &&& contents(final(self).inbound@) == contents(old(self).inbound@) + accepted
                &&& final(self).state@ == (ArchiveWebRtcStatus {
                    messages_received: counted(old(self).state.messages_received, count),
                    bytes_received: counted(
                        old(self).state.bytes_received,
                        total_bytes(accepted),
                    ),
                    ..old(self).state@
                })
            }),
            final(self).state.cancelled == old(self).state.cancelled,
            final(self).state.last_error == old(self).state.last_error,
            final(self).outbound == old(self).outbound,
            final(self).peer == old(self).peer,
            final(self).running == old(self).running,
    {
        let mut rest = messages;
        let ghost all_in = contents(messages@);
        let ghost mut done: nat = 0;
        assert(all_in.take(0) =~= Seq::<Seq<u8>>::empty());
        assert(messages@.skip(0) =~= messages@);
        assert(contents(self.inbound@) + all_in.take(0) =~= contents(self.inbound@));
        while rest.len() > 0 && self.inbound.len() < QUEUE_CAPACITY
            invariant
                all_in == contents(messages@),
                done <= messages@.len(),
                rest@ == messages@.skip(done as int),
                self.inbound@.len() == old(self).inbound@.len() + done,
                self.inbound@.len() <= QUEUE_CAPACITY,
                contents(self.inbound@) == contents(old(self).inbound@) + all_in.take(done as int),
                self.state@ == (ArchiveWebRtcStatus {
                    messages_received: counted(old(self).state.messages_received, done),
                    bytes_received: counted(
                        old(self).state.bytes_received,
                        total_bytes(all_in.take(done as int)),
                    ),
                    ..old(self).state@
                }),
                self.state.cancelled == old(self).state.cancelled,
                self.state.last_error == old(self).state.last_error,
                self.outbound == old(self).outbound,
                self.peer == old(self).peer,
                self.running == old(self).running,
            decreases rest@.len(),
        {
            let ghost before = self.inbound@;
            let ghost left = rest@;
            match rest.pop_front() {
                Some(message) => {
                    let length: u64 = message.len() as u64;
                    self.inbound.push_back(message);
                    self.state.messages_received = self.state.messages_received.wrapping_add(1);
                    self.state.bytes_received = self.state.bytes_received.wrapping_add(length);
                    proof {
                        let taken = all_in.take(done as int);
                        let more = all_in.take(done as int + 1);
                        assert(message == messages@[done as int]);
                        assert(more =~= taken.push(message@));
                        assert(more.drop_last() =~= taken);
                        assert(left.subrange(1, left.len() as int) =~= messages@.skip(
                            done as int + 1,
                        ));
                        assert(contents(before.push(message)) =~= contents(before).push(message@));
                        assert(contents(old(self).inbound@) + more =~= (contents(
                            old(self).inbound@,
                        ) + taken).push(message@));
                        done = done + 1;
                    }
                },
                None => {},
            }
        }
        rest.len() == 0
    }

    /// Takes out the messages that leave in one tick.
    fn take_outgoing(&mut self) -> (outgoing: Vec<Vec<u8>>)
        requires
            old(self).wf(),
        ensures
            final(self).wf(),
            ({
                let count = if old(self).outbound@.len() < MESSAGES_PER_TICK {
                    old(self).outbound@.len()
                } else {
                    MESSAGES_PER_TICK as nat
                };
                &&& outgoing@ == old(self).outbound@.take(count as int)
                &&& final(self).outbound@ == old(self).outbound@.skip(count as int)
                &&& final(self).state@ == (ArchiveWebRtcStatus {
                    messages_sent: counted(old(self).state.messages_sent, count),
                    bytes_sent: counted(
                        old(self).state.bytes_sent,
                        total_bytes(contents(outgoing@)),
                    ),
                    ..old(self).state@
                })
            }),
            final(self).state.cancelled == old(self).state.cancelled,
            final(self).state.last_error == old(self).state.last_error,
            final(self).inbound == old(self).inbound,
            final(self).peer == old(self).peer,
            final(self).running == old(self).running,
    {
        let mut outgoing: Vec<Vec<u8>> = Vec::new();
        assert(outgoing@ =~= self.outbound@.take(0));
        assert(self.outbound@.skip(0) =~= self.outbound@);
        while outgoing.len() < MESSAGES_PER_TICK && self.outbound.len() > 0
            invariant
                outgoing@.len() <= MESSAGES_PER_TICK,
                outgoing@.len() <= old(self).outbound@.len(),
                outgoing@ == old(self).outbound@.take(outgoing@.len() as int),
                self.outbound@ == old(self).outbound@.skip(outgoing@.len() as int),
                self.state@ == (ArchiveWebRtcStatus {
                    messages_sent: counted(old(self).state.messages_sent, outgoing@.len()),
                    bytes_sent: counted(
                        old(self).state.bytes_sent,
                        total_bytes(contents(outgoing@)),
                    ),
                    ..old(self).state@
                }),
                self.state.cancelled == old(self).state.cancelled,
                self.state.last_error == old(self).state.last_error,
                self.inbound == old(self).inbound,
                self.peer == old(self).peer,
                self.running == old(self).running,
            decreases self.outbound@.len(),
        {
            let ghost before = outgoing@;
            match self.outbound.pop_front() {
                Some(message) => {
                    let length: u64 = message.len() as u64;
                    outgoing.push(message);
                    self.state.messages_sent = self.state.messages_sent.wrapping_add(1);
                    self.state.bytes_sent = self.state.bytes_sent.wrapping_add(length);
                    proof {
                        let all = old(self).outbound@;
                        assert(all.take(before.len() as int + 1) =~= before.push(message));
                        assert(all.skip(before.len() as int).subrange(
                            1,
                            all.len() - before.len(),
                        ) =~= all.skip(before.len() as int + 1));
                        assert(contents(outgoing@).drop_last() =~= contents(before));
                    }
                },
                None => {},
            }
        }
        outgoing
    }

    /// The socket is over: nothing more will be sent.
    fn end_socket(&mut self)
        ensures
            !final(self).running,
            final(self).outbound@.len() == 0,
            final(self).state == old(self).state,
            final(self).inbound == old(self).inbound,
            final(self).peer == old(self).peer,
    {
        self.running = false;
        self.outbound.clear();
    }

    /// What giving the connection up leads to.
    pub open spec fn gives_up(self, after: ArchiveWebRtcHandle) -> bool {
        &&& after.state.cancelled
        &&& after.state@ == self.state@
        &&& after.state.last_error == self.state.last_error
        &&& after.outbound == self.outbound
        &&& after.inbound == self.inbound
        &&& after.peer == self.peer
        &&& after.running == self.running
    }

    /// Whether a message of these bytes may be queued: it is there, not empty and not too long, the
    /// socket runs and the queue is not full.
    pub open spec fn admits(self, bytes: Option<Seq<u8>>) -> bool {
        &&& bytes is Some
        &&& 0 < bytes->0.len() <= MAX_MESSAGE_BYTES
        &&& self.running
        &&& self.outbound@.len() < QUEUE_CAPACITY
    }

    /// What an attempt to queue a message leads to.
    pub open spec fn queues(
        self,
        bytes: Option<Seq<u8>>,
        after: ArchiveWebRtcHandle,
        queued: bool,
    ) -> bool {
        &&& queued == self.admits(bytes)
        &&& queued ==> {
            &&& contents(after.outbound@) == contents(self.outbound@).push(bytes->0)
            &&& after.outbound@.len() == self.outbound@.len() + 1
        }
        &&& !queued ==> after.outbound == self.outbound
        &&& after.state == self.state
        &&& after.inbound == self.inbound
        &&& after.peer == self.peer
        &&& after.running == self.running
    }

    /// What an attempt to take a message that came in leads to.
    pub open spec fn hands_out(
        self,
        capacity: Option<usize>,
        after: ArchiveWebRtcHandle,
        message: Option<Seq<u8>>,
    ) -> bool {
        &&& message is Some <==> {
            &&& capacity is Some
            &&& capacity->0 >= MAX_MESSAGE_BYTES
            &&& self.inbound@.len() > 0
        }
        &&& message matches Some(message) ==> {
            &&& message == self.inbound@[0]@
            &&& after.inbound@ == self.inbound@.skip(1)
        }
        &&& message is None ==> after.inbound == self.inbound
        &&& after.state == self.state
        &&& after.outbound == self.outbound
        &&& after.peer == self.peer
        &&& after.running == self.running
    }

    /// What the end of the connection leads to.
    pub open spec fn ends(self, error: Option<Seq<char>>, after: ArchiveWebRtcHandle) -> bool {
        &&& !after.running
        &&& after.outbound@.len() == 0
        &&& after.inbound == self.inbound
        &&& after.peer == self.peer
        &&& after.state@ == (ArchiveWebRtcStatus { state: STATE_FAILED, ..self.state@ })
        &&& after.state.cancelled == self.state.cancelled
        &&& after.state.last_error@ == (match error {
            None => "The direct archive connection ended."@,
            Some(error) => "The direct archive connection failed: "@ + error,
        })
    }

    /// What a tick leads to.
    pub open spec fn ticks(
        self,
        updates: Seq<PeerUpdate>,
        messages: Seq<Seq<u8>>,
        after: ArchiveWebRtcHandle,
        tick: SocketTick,
    ) -> bool {
        let (peer, state) = after_updates(self.peer, self.state.state, updates);
        let fits = messages.len() <= self.inbound_space();
        let accepted = messages.take(
            if fits {
                messages.len() as int
            } else {
                self.inbound_space() as int
            },
        );
        let received = ArchiveWebRtcStatus {
            state,
            messages_received: counted(self.state.messages_received, accepted.len()),
            bytes_received: counted(self.state.bytes_received, total_bytes(accepted)),
            ..self.state@
        };
        &&& after.state.cancelled == self.state.cancelled
        &&& if self.state.cancelled {
            &&& tick is Stop
            &&& !after.running
            &&& after.outbound@.len() == 0
            &&& after.inbound == self.inbound
            &&& after.peer == self.peer
            &&& after.state == self.state
        } else {
            &&& contents(after.inbound@) == contents(self.inbound@) + accepted
            &&& after.peer == peer
            &&& if !fits {
                &&& tick is Stop
                &&& !after.running
                &&& after.outbound@.len() == 0
                &&& after.state@ == ArchiveWebRtcStatus { state: STATE_FAILED, ..received }
                &&& after.state.last_error@ == "The direct archive receive queue is full."@
            } else {
                &&& after.running == self.running
                &&& after.state.last_error == self.state.last_error
                &&& match peer {
                    None => {
                        &&& tick is Idle
                        &&& after.outbound == self.outbound
                        &&& after.state@ == received
                    },
                    Some(peer) => {
                        let count = if self.outbound@.len() < MESSAGES_PER_TICK {
                            self.outbound@.len()
                        } else {
                            MESSAGES_PER_TICK as nat
                        };
                        let outgoing = self.outbound@.take(count as int);
                        &&& tick matches SocketTick::Send { peer: to, messages: leaving }
                            && to == peer && leaving@ == outgoing
                        &&& after.outbound@ == self.outbound@.skip(count as int)
                        &&& after.state@ == ArchiveWebRtcStatus {
                            messages_sent: counted(self.state.messages_sent, count),
                            bytes_sent: counted(
                                self.state.bytes_sent,
                                total_bytes(contents(outgoing)),
                            ),
                            ..received
                        }
                    },
                }
            }
        }
    }

    /// One tick of the socket. News of peers comes first, then what came in, then what leaves. More
    /// coming in than there is space for ends the connection.
    pub fn tick(&mut self, updates: &Vec<PeerUpdate>, messages: VecDeque<Vec<u8>>) -> (tick:
        SocketTick)
        requires
            old(self).wf(),
        ensures
            final(self).wf(),
            old(self).ticks(updates@, contents(messages@), *final(self), tick),
    {
        if self.state.cancelled {
            self.end_socket();
            return SocketTick::Stop;
        }
        self.apply_updates(updates);
        if !self.accept(messages) {
            self.state.fail("The direct archive receive queue is full.".to_owned());
            self.end_socket();
            return SocketTick::Stop;
        }
        match self.peer {
            None => SocketTick::Idle,
            Some(peer) => SocketTick::Send { peer, messages: self.take_outgoing() },
        }
    }

    /// The connection has ended by itself, with or without an error.
    pub fn connection_ended(&mut self, error: Option<&str>)
        requires
            old(self).wf(),
        ensures
            final(self).wf(),
            old(self).ends(
                match error {
                    Some(error) => Some(error@),
                    None => None,
                },
                *final(self),
            ),
    {
        let message = match error {
            None => "The direct archive connection ended.".to_owned(),
            Some(error) => "The direct archive connection failed: ".to_owned().concat(error),
        };
        self.state.fail(message);
        self.end_socket();
    }
}

/// Whether a connection may be arranged through `url`: over the production origin, or in a debug
/// build over the local machine, and either way with the direct protocol.
pub open spec fn signaling_allowed(url: Seq<char>, debug_build: bool) -> bool {
    &&& occurs_in("protocol=matchbox-v1"@, url)
    &&& {
        ||| "wss://api.infidelity.io/v1/archive-rendezvous/"@.is_prefix_of(url)
        ||| debug_build && ("ws://127.0.0.1:"@.is_prefix_of(url)
            || "ws://localhost:"@.is_prefix_of(url))
    }
}

/// Whether a connection may be arranged through `url`.
pub fn valid_signaling_url(url: &str, debug_build: bool) -> (valid: bool)
    ensures
        valid == signaling_allowed(url@, debug_build),
{
    let production = starts_with(url, "wss://api.infidelity.io/v1/archive-rendezvous/");
    let direct_protocol = contains(url, "protocol=matchbox-v1");
    if production && direct_protocol {
        return true;
    }
    debug_build && direct_protocol && (starts_with(url, "ws://127.0.0.1:") || starts_with(
        url,
        "ws://localhost:",
    ))
}

/// What asking for a connection through `url` gives: a new one, if one may be arranged through it.
pub open spec fn opened(
    url: Option<Seq<char>>,
    debug_build: bool,
    handle: Option<ArchiveWebRtcHandle>,
) -> bool {
    &&& handle is Some <==> url is Some && signaling_allowed(url->0, debug_build)
    &&& handle matches Some(handle) ==> {
        &&& handle.wf()
        &&& handle.state@ == (ArchiveWebRtcStatus {
            state: STATE_DISCOVERING,
            ..ArchiveWebRtcStatus::idle()
        })
        &&& !handle.state.cancelled
        &&& handle.state.last_error@ == Seq::<char>::empty()
        &&& handle.outbound@.len() == 0
        &&& handle.inbound@.len() == 0
        &&& handle.peer is None
        &&& handle.running
    }
}

/// A connection through `signaling_url`, if one may be arranged through it. Its socket is about to
/// run.
pub fn archive_webrtc_new(signaling_url: Option<&str>, debug_build: bool) -> (handle: Option<
    ArchiveWebRtcHandle,
>)
    ensures
        opened(
            match signaling_url {
                Some(url) => Some(url@),
                None => None,
            },
            debug_build,
            handle,
        ),
{
    let url = match signaling_url {
        Some(url) => url,
        None => {
            return None;
        },
    };
    if !valid_signaling_url(url, debug_build) {
        return None;
    }
    Some(
        ArchiveWebRtcHandle {
            state: SharedState::new(),
            outbound: VecDeque::new(),
            inbound: VecDeque::new(),
            peer: None,
            running: true,
        },
    )
}

/// Gives the connection up, if there is one. Its socket ends at its next tick.
pub fn archive_webrtc_destroy(handle: Option<&mut ArchiveWebRtcHandle>)
    ensures
        handle matches Some(given) ==> given.gives_up(*final(given)),
{
    match handle {
        Some(handle) => {
            handle.state.cancelled = true;
        },
        None => {},
    }
}

/// The state and the counters that are shown of a connection; without one they are idle.
pub open spec fn shown_by(handle: Option<ArchiveWebRtcHandle>) -> ArchiveWebRtcStatus {
    match handle {
        Some(handle) => handle.state@,
        None => ArchiveWebRtcStatus::idle(),
    }
}

/// Reads the state and the counters of a connection; without one they are idle.
pub fn archive_webrtc_status(handle: Option<&ArchiveWebRtcHandle>) -> (status: ArchiveWebRtcStatus)
    ensures
        status == shown_by(
            match handle {
                Some(handle) => Some(*handle),
                None => None,
            },
        ),
{
    match handle {
        Some(handle) => handle.state.snapshot(),
        None => ArchiveWebRtcStatus::default(),
    }
}

/// Queues a message to be sent. It is refused without a connection, if it is missing, empty or too
/// long, and when the queue is full or the socket is over.
pub fn archive_webrtc_send(handle: Option<&mut ArchiveWebRtcHandle>, bytes: Option<&[u8]>) -> (queued:
    bool)
    requires
        handle matches Some(given) ==> given.wf(),
    ensures
        handle is None ==> !queued,
        handle matches Some(given) ==> {
            &&& final(given).wf()
            &&& given.queues(
                match bytes {
                    Some(bytes) => Some(bytes@),
                    None => None,
                },
                *final(given),
                queued,
            )
        },
{
    let handle = match handle {
        Some(handle) => handle,
        None => {
            return false;
        },
    };
    let bytes = match bytes {
        Some(bytes) => bytes,
        None => {
            return false;
        },
    };
    if bytes.len() == 0 || bytes.len() > MAX_MESSAGE_BYTES {
        return false;
    }
    if !handle.running || handle.outbound.len() >= QUEUE_CAPACITY {
        return false;
    }
    let ghost before = contents(handle.outbound@);
    let message = vstd::slice::slice_to_vec(bytes);
    handle.outbound.push_back(message);
    assert(contents(handle.outbound@) =~= before.push(bytes@));
    true
}

/// Takes the oldest message that came in, for a destination of `capacity` bytes, if there is one.
/// A destination that the longest message would not fit gets none.
pub fn archive_webrtc_receive(
    handle: Option<&mut ArchiveWebRtcHandle>,
    capacity: Option<usize>,
) -> (message: Option<Vec<u8>>)
    requires
        handle matches Some(given) ==> given.wf(),
    ensures
        handle is None ==> message is None,
        handle matches Some(given) ==> {
            &&& final(given).wf()
            &&& given.hands_out(
                capacity,
                *final(given),
                match message {
                    Some(message) => Some(message@),
                    None => None,
                },
            )
        },
{
    let handle = match handle {
        Some(handle) => handle,
        None => {
            return None;
        },
    };
    let capacity: usize = match capacity {
        Some(capacity) => capacity,
        None => {
            return None;
        },
    };
    if capacity < MAX_MESSAGE_BYTES || handle.inbound.len() == 0 {
        return None;
    }
    let ghost before = handle.inbound@;
    let message = handle.inbound.pop_front();
    assert(handle.inbound@ =~= before.skip(1));
    message
}

/// What a caller is told of the error `text` that has a destination of `capacity` bytes.
pub open spec fn told(
    text: Option<Seq<char>>,
    capacity: Option<usize>,
    required: nat,
    bytes: Option<Seq<u8>>,
) -> bool {
    match text {
        None => required == 0 && bytes is None,
        Some(text) => {
            let whole = encode_utf8(text);
            &&& required == (if whole.len() < usize::MAX {
                whole.len() + 1int
            } else {
                usize::MAX as int
            })
            &&& bytes is Some <==> capacity is Some && capacity->0 > 0
            &&& bytes matches Some(bytes) ==> bytes == whole.take(
                if whole.len() < capacity->0 {
                    whole.len() as int
                } else {
                    capacity->0 - 1
                },
            ).push(0)
        },
    }
}

/// The text of the last error, cut to a destination of `capacity` bytes and closed with a zero
/// byte. Without a destination only its length is told.
pub fn archive_webrtc_copy_last_error(
    handle: Option<&ArchiveWebRtcHandle>,
    capacity: Option<usize>,
) -> (error: LastError)
    ensures
        told(
            match handle {
                Some(handle) => Some(handle.state.last_error@),
                None => None,
            },
            capacity,
            error.required as nat,
            match error.bytes {
                Some(bytes) => Some(bytes@),
                None => None,
            },
        ),
{
    let handle = match handle {
        Some(handle) => handle,
        None => {
            return LastError { required: 0, bytes: None };
        },
    };
    let text: &[u8] = handle.state.last_error.as_str().as_bytes();
    let required: usize = if text.len() < usize::MAX {
        text.len() + 1
    } else {
        usize::MAX
    };
    match capacity {
        Some(capacity) if capacity > 0 => {
            let copied: usize = if text.len() < capacity {
                text.len()
            } else {
                capacity - 1
            };
            let mut bytes: Vec<u8> = vstd::slice::slice_to_vec(
                vstd::slice::slice_subrange(text, 0, copied),
            );
            bytes.push(0);
            assert(text@.subrange(0, copied as int) =~= text@.take(copied as int));
            LastError { required, bytes: Some(bytes) }
        },
        _ => LastError { required, bytes: None },
    }
}

} // verus!
