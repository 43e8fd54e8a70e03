//! The server's global playback clock.

use vstd::prelude::*;

verus! {

/// The server's monotonic playback position: how many frames and how much
/// audio time the broadcaster has emitted since it started.
///
/// Only the broadcaster advances it, and it never decreases.
pub struct ServerPlaybackPosition {
    /// Index of the next frame to be broadcast; equals the number of frames
    /// emitted so far.
    pub current_frame_index: u64,
    /// Wall-clock time the server started broadcasting, in milliseconds since
    /// the Unix epoch.
    pub server_start_ms: i64,
    /// Total duration of audio emitted so far, in microseconds.
    pub total_duration_us: u128,
}

impl ServerPlaybackPosition {
    /// A fresh position: nothing emitted yet.
    pub fn new(server_start_ms: i64) -> (r: ServerPlaybackPosition)
        ensures
            r.current_frame_index == 0,
            r.total_duration_us == 0,
            r.server_start_ms == server_start_ms,
    {
        ServerPlaybackPosition { current_frame_index: 0, server_start_ms, total_duration_us: 0 }
    }

    /// Record that one more frame of the given duration has been emitted.
    ///
    /// The clock is monotonic: both the frame index and the total duration
    /// grow by exactly the amount emitted.
    pub fn advance(&mut self, duration_us: u64)
        requires
            old(self).current_frame_index < u64::MAX,
            old(self).total_duration_us + duration_us <= u128::MAX,
        ensures
            final(self).current_frame_index == old(self).current_frame_index + 1,
            final(self).total_duration_us == old(self).total_duration_us + duration_us,
            final(self).server_start_ms == old(self).server_start_ms,
    {
        self.current_frame_index = self.current_frame_index + 1;
        self.total_duration_us = self.total_duration_us + duration_us as u128;
    }

    /// The playback position in whole milliseconds.
    pub fn total_duration_ms(&self) -> (r: u128)
        ensures
            r == self.total_duration_us / 1000,
    {
        self.total_duration_us / 1000
    }
}

} // verus!
