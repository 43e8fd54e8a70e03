//! The janitor: periodic eviction of stale listeners and crediting of
//! listen time.

use vstd::prelude::*;
use crate::listener::{sweep_spec, sweep_credits_spec, lemma_sweep_sources, swept_listener};
use crate::station::StationData;

verus! {

/// One janitor pass over the station at wall-clock time `now_ms`: every
/// listener whose heartbeat went stale is evicted, every remaining listener
/// is owed the whole seconds elapsed since it was last credited, and those
/// `(user_id, seconds)` pairs are returned so the caller can apply them to
/// the catalog store after releasing the station.
pub fn janitor_pass(station: &mut StationData, now_ms: i64) -> (credits: Vec<(i64, i64)>)
    requires
        old(station).wf(),
    ensures
        final(station).wf(),
        final(station).listeners@ == sweep_spec(old(station).listeners@, now_ms as int),
        credits@ == sweep_credits_spec(old(station).listeners@, now_ms as int),
        final(station).playback_position == old(station).playback_position,
        final(station).current_song == old(station).current_song,
        final(station).emitted == old(station).emitted,
{
    let ghost s0 = station.listeners@;
    let ghost now = now_ms as int;
    let credits = station.listeners.sweep(now_ms);
    proof {
        lemma_sweep_sources(s0, now);
        let swept = sweep_spec(s0, now);
        assert forall|k: int| 0 <= k < swept.len() implies (#[trigger] swept[k]).start_total_duration_us
            <= station.playback_position.total_duration_us && swept[k].burst_buffer_ms * 1000
            <= swept[k].start_total_duration_us by {
            let i = choose|i: int|
                0 <= i < s0.len() && #[trigger] swept[k] == swept_listener(s0[i], now);
            assert(swept[k].start_total_duration_us == s0[i].start_total_duration_us);
            assert(swept[k].burst_buffer_ms == s0[i].burst_buffer_ms);
        }
    }
    credits
}

} // verus!
