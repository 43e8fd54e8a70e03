//! A small internet-radio streaming engine.
//!
//! A producer decodes audio files into timed frames, a broadcaster paces the
//! frames in real time and fans them out to listeners, a burst buffer lets
//! new listeners catch up, and a session layer tracks each listener's
//! position, drift and liveness.

use vstd::prelude::*;

pub mod auth;
pub mod burst;
pub mod catalog;
pub mod clock;
pub mod error;
pub mod events;
pub mod frame;
pub mod janitor;
pub mod listener;
pub mod pacing;
pub mod paths;
pub mod position;
pub mod producer;
pub mod session;
pub mod song;
pub mod station;
pub mod text;

verus! {

/// How much catch-up audio the burst buffer guarantees to new listeners,
/// in microseconds.
pub const BURST_TARGET_US: u64 = 3_000_000;

/// The only sample rate the station accepts; files at any other rate are skipped.
pub const EXPECTED_SAMPLE_RATE: u32 = 44100;

/// Nominal samples per encoded frame at the expected rate.
pub const SAMPLES_PER_FRAME: u32 = 1152;

/// Capacity, in frames, of the producer-to-broadcaster hand-off queue.
pub const DISK_BUFFER_FRAMES: usize = 200;

/// Capacity, in frames, of the broadcast fan-out bus.
pub const BROADCAST_BUFFER_FRAMES: usize = 200;

/// A listener whose last heartbeat is older than this is evicted.
pub const HEARTBEAT_TIMEOUT_SECONDS: i64 = 20;

/// How often the janitor wakes, in seconds.
pub const JANITOR_INTERVAL_SECONDS: i64 = 10;

/// If the broadcaster falls further behind schedule than this, it resets its
/// schedule anchor instead of over-speeding, in microseconds.
pub const SCHEDULE_RESET_THRESHOLD_US: u64 = 100_000;

} // verus!
