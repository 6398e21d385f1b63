//! What a processor reports of itself.

use vstd::prelude::*;

verus! {

/// A reading of a processor's flags and counters.
#[derive(Debug, Clone, Copy)]
pub struct AudioProcessorStatus {
    pub started: bool,
    pub connected: bool,
    pub frames_queued: u64,
    pub frames_sent: u64,
    pub frames_dropped: u64,
    pub connection_attempts: u64,
    pub connection_failures: u64,
    pub last_connected_unix_ms: u64,
    pub last_send_unix_ms: u64,
}

impl AudioProcessorStatus {
    /// The reading of a processor that does not exist: stopped, and nothing counted.
    pub open spec fn idle() -> AudioProcessorStatus {
        AudioProcessorStatus {
            started: false,
            connected: false,
            frames_queued: 0,
            frames_sent: 0,
            frames_dropped: 0,
            connection_attempts: 0,
            connection_failures: 0,
            last_connected_unix_ms: 0,
            last_send_unix_ms: 0,
        }
    }
}

impl Default for AudioProcessorStatus {
    fn default() -> (status: Self)
        ensures
            status == AudioProcessorStatus::idle(),
    {
        AudioProcessorStatus {
            started: false,
            connected: false,
            frames_queued: 0,
            frames_sent: 0,
            frames_dropped: 0,
            connection_attempts: 0,
            connection_failures: 0,
            last_connected_unix_ms: 0,
            last_send_unix_ms: 0,
        }
    }
}

/// `count` more on a counter that wraps around at the top of its range.
pub open spec fn counted(counter: u64, count: nat) -> u64 {
    ((counter + count) % 0x1_0000_0000_0000_0000) as u64
}

/// The flags and counters themselves. Every counter wraps around at the top of its range.
#[derive(Debug)]
pub struct AudioProcessorStatusCounters {
    pub started: bool,
    pub connected: bool,
    pub frames_queued: u64,
    pub frames_sent: u64,
    pub frames_dropped: u64,
    pub connection_attempts: u64,
    pub connection_failures: u64,
    pub last_connected_unix_ms: u64,
    pub last_send_unix_ms: u64,
}

impl View for AudioProcessorStatusCounters {
    type V = AudioProcessorStatus;

    open spec fn view(&self) -> AudioProcessorStatus {
        AudioProcessorStatus {
            started: self.started,
            connected: self.connected,
            frames_queued: self.frames_queued,
            frames_sent: self.frames_sent,
            frames_dropped: self.frames_dropped,
            connection_attempts: self.connection_attempts,
            connection_failures: self.connection_failures,
            last_connected_unix_ms: self.last_connected_unix_ms,
            last_send_unix_ms: self.last_send_unix_ms,
        }
    }
}

impl Default for AudioProcessorStatusCounters {
    fn default() -> (counters: Self)
        ensures
            counters@ == AudioProcessorStatus::idle(),
    {
        AudioProcessorStatusCounters {
            started: false,
            connected: false,
            frames_queued: 0,
            frames_sent: 0,
            frames_dropped: 0,
            connection_attempts: 0,
            connection_failures: 0,
            last_connected_unix_ms: 0,
            last_send_unix_ms: 0,
        }
    }
}

impl AudioProcessorStatusCounters {
    /// What is read of the flags and counters.
    pub open spec fn reading(self) -> AudioProcessorStatus {
        self@
    }

    /// Reads every flag and counter.
    pub fn snapshot(&self) -> (status: AudioProcessorStatus)
        ensures
            status == self.reading(),
    {
        AudioProcessorStatus {
            started: self.started,
            connected: self.connected,
            frames_queued: self.frames_queued,
            frames_sent: self.frames_sent,
            frames_dropped: self.frames_dropped,
            connection_attempts: self.connection_attempts,
            connection_failures: self.connection_failures,
            last_connected_unix_ms: self.last_connected_unix_ms,
            last_send_unix_ms: self.last_send_unix_ms,
        }
    }

    /// Counts a frame that went into the ring.
    pub fn count_queued(&mut self)
        ensures
            final(self)@ == (AudioProcessorStatus {
                frames_queued: counted(old(self).frames_queued, 1),
                ..old(self)@
            }),
    {
        self.frames_queued = self.frames_queued.wrapping_add(1);
    }

    /// Counts `count` frames that were thrown away.
    pub fn count_dropped(&mut self, count: u64)
        ensures
            final(self)@ == (AudioProcessorStatus {
                frames_dropped: counted(old(self).frames_dropped, count as nat),
                ..old(self)@
            }),
    {
        self.frames_dropped = self.frames_dropped.wrapping_add(count);
    }

    /// Counts a frame that was written to the socket at `now` milliseconds.
    pub fn count_sent(&mut self, now: u64)
        ensures
            final(self)@ == (AudioProcessorStatus {
                frames_sent: counted(old(self).frames_sent, 1),
                last_send_unix_ms: now,
                ..old(self)@
            }),
    {
        self.frames_sent = self.frames_sent.wrapping_add(1);
        self.last_send_unix_ms = now;
    }

    /// Counts an attempt to connect.
    pub fn count_attempt(&mut self)
        ensures
            final(self)@ == (AudioProcessorStatus {
                connection_attempts: counted(old(self).connection_attempts, 1),
                ..old(self)@
            }),
    {
        self.connection_attempts = self.connection_attempts.wrapping_add(1);
    }

    /// Counts a connection that could not be made or broke down.
    pub fn count_failure(&mut self)
        ensures
            final(self)@ == (AudioProcessorStatus {
                connection_failures: counted(old(self).connection_failures, 1),
                ..old(self)@
            }),
    {
        self.connection_failures = self.connection_failures.wrapping_add(1);
    }
}

} // verus!
