//! The broadcaster's real-time schedule.
//!
//! The broadcaster paces frames by accumulated frame duration, not by
//! wall-clock frame rate: after sending a frame it advances a schedule
//! anchor by the frame's duration and sleeps until the anchor. If it has
//! fallen behind, it resets the anchor to the present instead of
//! over-speeding the following frames.

use vstd::prelude::*;
use crate::SCHEDULE_RESET_THRESHOLD_US;

verus! {

/// What the broadcaster does after sending one frame.
pub struct PacingOutcome {
    /// The new schedule anchor, in microseconds of monotonic time.
    pub next_send_time_us: u64,
    /// How long to sleep before the next frame, in microseconds.
    pub sleep_us: u64,
    /// Whether the broadcaster fell far enough behind to warrant a warning.
    pub late_warning: bool,
}

/// The schedule anchor after one frame: the old anchor advanced by the
/// frame's duration, or the present moment if that instant already passed.
pub open spec fn spec_schedule(next_us: int, duration_us: int, now_us: int) -> int {
    if next_us + duration_us >= now_us {
        next_us + duration_us
    } else {
        now_us
    }
}

/// Advance the schedule anchor past one frame.
///
/// On time, the broadcaster sleeps exactly until the advanced anchor; behind
/// schedule, it does not sleep and re-anchors at the present, warning if it
/// was behind by more than the reset threshold.
pub fn schedule_after_frame(next_send_time_us: u64, frame_duration_us: u64, now_us: u64) -> (r:
    PacingOutcome)
    requires
        next_send_time_us + frame_duration_us <= u64::MAX,
    ensures
        r.next_send_time_us == spec_schedule(
            next_send_time_us as int,
            frame_duration_us as int,
            now_us as int,
        ),
        r.next_send_time_us >= now_us,
        r.next_send_time_us >= next_send_time_us,
        next_send_time_us + frame_duration_us >= now_us ==> r.sleep_us == next_send_time_us
            + frame_duration_us - now_us && !r.late_warning,
        next_send_time_us + frame_duration_us < now_us ==> r.sleep_us == 0 && (r.late_warning
            <==> now_us - (next_send_time_us + frame_duration_us) > SCHEDULE_RESET_THRESHOLD_US),
{
    let target = next_send_time_us + frame_duration_us;
    if target >= now_us {
        PacingOutcome { next_send_time_us: target, sleep_us: target - now_us, late_warning: false }
    } else {
        let behind = now_us - target;
        PacingOutcome {
            next_send_time_us: now_us,
            sleep_us: 0,
            late_warning: behind > SCHEDULE_RESET_THRESHOLD_US,
        }
    }
}

/// The total of a sequence of frame durations, in microseconds.
pub open spec fn sum_durations_us(durs: Seq<u64>) -> int
    decreases durs.len(),
{
    if durs.len() == 0 {
        0
    } else {
        sum_durations_us(durs.drop_last()) + durs.last()
    }
}

/// The schedule anchor after pacing the first `i` frames of a run that
/// starts anchored at `start_us`, where `nows[j]` is the monotonic clock
/// reading taken after sending frame `j`.
pub open spec fn run_anchor_us(start_us: int, durs: Seq<u64>, nows: Seq<u64>, i: int) -> int
    decreases i,
{
    if i <= 0 {
        start_us
    } else {
        spec_schedule(
            run_anchor_us(start_us, durs, nows, i - 1),
            durs[i - 1] as int,
            nows[i - 1] as int,
        )
    }
}

/// A run is on time if, after sending each frame, the clock has not yet
/// passed the instant the schedule set for that frame.
pub open spec fn run_on_time(start_us: int, durs: Seq<u64>, nows: Seq<u64>) -> bool {
    forall|j: int|
        0 <= j < durs.len() ==> nows[j] <= run_anchor_us(start_us, durs, nows, j) + #[trigger] durs[j]
}

/// Pacing: over a run of frames of total duration `D` that never falls
/// behind, the schedule advances by exactly `D`; so the broadcaster emits a
/// song of duration `D` in wall-clock time `D`, to within the single frame
/// in flight when the run starts and ends.
pub proof fn lemma_pacing_exact(start_us: int, durs: Seq<u64>, nows: Seq<u64>)
    requires
        nows.len() == durs.len(),
        run_on_time(start_us, durs, nows),
    ensures
        run_anchor_us(start_us, durs, nows, durs.len() as int) == start_us + sum_durations_us(
            durs,
        ),
    decreases durs.len(),
{
    if durs.len() > 0 {
        let n = durs.len() as int;
        assert(run_on_time(start_us, durs.drop_last(), nows.drop_last())) by {
            assert forall|j: int| 0 <= j < n - 1 implies nows.drop_last()[j] <= run_anchor_us(
                start_us,
                durs.drop_last(),
                nows.drop_last(),
                j,
            ) + #[trigger] durs.drop_last()[j] by {
                lemma_run_anchor_prefix(start_us, durs, nows, j);
                assert(nows[j] <= run_anchor_us(start_us, durs, nows, j) + durs[j]);
            }
        }
        lemma_pacing_exact(start_us, durs.drop_last(), nows.drop_last());
        lemma_run_anchor_prefix(start_us, durs, nows, n - 1);
        assert(nows[n - 1] <= run_anchor_us(start_us, durs, nows, n - 1) + durs[n - 1]);
    }
}

/// The schedule never runs ahead of real time: each step leaves the anchor
/// at or after the previous anchor, whatever the clock read.
pub proof fn lemma_schedule_monotonic(start_us: int, durs: Seq<u64>, nows: Seq<u64>, i: int, j: int)
    requires
        0 <= i <= j,
    ensures
        run_anchor_us(start_us, durs, nows, i) <= run_anchor_us(start_us, durs, nows, j),
    decreases j - i,
{
    if i < j {
        lemma_schedule_monotonic(start_us, durs, nows, i, j - 1);
    }
}

/// An anchor after `i` frames only depends on the first `i` durations and
/// clock readings.
proof fn lemma_run_anchor_prefix(start_us: int, durs: Seq<u64>, nows: Seq<u64>, i: int)
    requires
        0 <= i <= durs.len() - 1,
        nows.len() == durs.len(),
    ensures
        run_anchor_us(start_us, durs.drop_last(), nows.drop_last(), i) == run_anchor_us(
            start_us,
            durs,
            nows,
            i,
        ),
    decreases i,
{
    if i > 0 {
        lemma_run_anchor_prefix(start_us, durs, nows, i - 1);
    }
}

} // verus!
