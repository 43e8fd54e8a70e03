//! The session layer: stream subscriptions, heartbeats and listener queries.

use vstd::prelude::*;
use crate::burst::{BurstBuffer, frames_mirror, sum_ms, lemma_sum_ms_bound};
use crate::frame::{AudioFrame, total_duration_us};
use crate::listener::{Listener, contains_id, ids_unique};
use crate::station::StationData;
use vstd::arithmetic::div_mod::lemma_hoist_over_denominator;

verus! {

/// A heartbeat request: how many milliseconds of audio the client reports
/// having played since it connected.
pub struct HeartbeatQuery {
    pub client_position_ms: Option<u64>,
}

/// The server's answer to a heartbeat.
#[derive(PartialEq, Eq, Structural, Clone, Copy)]
pub struct HeartbeatResponse {
    /// How far the client is behind the server's live position, in
    /// milliseconds; negative if the client claims to be ahead.
    pub desync_ms: i64,
    /// The server's playback position, in milliseconds.
    pub server_position_ms: u64,
    /// Where in the server's timeline the client's very first byte lay, in
    /// milliseconds.
    pub client_base_pos_ms: u64,
}

/// Clamp an integer into the signed 64-bit range.
pub open spec fn spec_clamp_i64(x: int) -> int {
    if x > i64::MAX {
        i64::MAX as int
    } else if x < i64::MIN {
        i64::MIN as int
    } else {
        x
    }
}

/// Where the client's first received byte lay in the server's timeline, in
/// microseconds: the playback clock at connect, minus the catch-up audio
/// the client was sent (never below zero).
pub open spec fn spec_client_base_us(l: Listener) -> int {
    if l.start_total_duration_us >= 1000 * l.burst_buffer_ms {
        l.start_total_duration_us - 1000 * l.burst_buffer_ms
    } else {
        0
    }
}

/// The heartbeat answer owed to listener `l` when the playback clock reads
/// `total_us`: the desync is the server's position minus the client's
/// absolute position (its base plus what it reports having played).
pub open spec fn spec_heartbeat_response(
    l: Listener,
    total_us: u128,
    client_position_ms: Option<u64>,
) -> HeartbeatResponse {
    let server_ms = total_us as int / 1000;
    let base_ms = spec_client_base_us(l) / 1000;
    let desync = match client_position_ms {
        Option::Some(p) => spec_clamp_i64(server_ms - (base_ms + p)),
        Option::None => 0,
    };
    HeartbeatResponse {
        desync_ms: desync as i64,
        server_position_ms: server_ms as u64,
        client_base_pos_ms: base_ms as u64,
    }
}

/// Service a heartbeat: refresh the listener's liveness and report its
/// drift against the global playback clock. An unknown user gets `None`
/// (the client should reconnect), and the station is left unchanged.
pub fn heartbeat(
    station: &mut StationData,
    user_id: i64,
    query: &HeartbeatQuery,
    now_ms: i64,
) -> (r: Option<HeartbeatResponse>)
    requires
        old(station).wf(),
        old(station).playback_position.total_duration_us <= 1000 * (u64::MAX as u128),
    ensures
        final(station).wf(),
        final(station).playback_position == old(station).playback_position,
        final(station).current_song == old(station).current_song,
        final(station).emitted == old(station).emitted,
        r is None <==> !contains_id(old(station).listeners@, user_id),
        r is None ==> final(station).listeners@ == old(station).listeners@,
        match r {
            Option::Some(resp) => exists|i: int|
                0 <= i < old(station).listeners@.len()
                    && (#[trigger] old(station).listeners@[i]).user_id == user_id && resp
                    == spec_heartbeat_response(
                    old(station).listeners@[i],
                    old(station).playback_position.total_duration_us,
                    query.client_position_ms,
                ) && final(station).listeners@ == old(station).listeners@.update(
                    i,
                    Listener { last_heartbeat_ms: now_ms, ..old(station).listeners@[i] },
                ),
            Option::None => true,
        },
{
    let ghost s0 = station.listeners@;
    let found = station.listeners.set_heartbeat(user_id, now_ms);
    if !found {
        return Option::None;
    }
    let ghost j = choose|j: int|
        0 <= j < s0.len() && s0[j].user_id == user_id && station.listeners@ == s0.update(
            j,
            Listener { last_heartbeat_ms: now_ms, ..s0[j] },
        );
    proof {
        assert forall|k: int| 0 <= k < station.listeners@.len() implies (#[trigger] station.listeners@[k]).start_total_duration_us
            <= station.playback_position.total_duration_us && station.listeners@[k].burst_buffer_ms
            * 1000 <= station.listeners@[k].start_total_duration_us by {
            if k != j {
                assert(station.listeners@[k] == s0[k]);
            }
        }
    }
    let entry = match station.listeners.get(user_id) {
        Option::Some(l) => l,
        Option::None => {
            proof {
                assert(station.listeners@[j].user_id == user_id);
                assert(false);
            }
            return Option::None;
        },
    };
    proof {
        let i = choose|i: int|
            0 <= i < station.listeners@.len() && station.listeners@[i] == *entry;
        if i != j {
            assert(station.listeners@[i] == s0[i]);
            assert(s0[i].user_id == s0[j].user_id);
        }
        assert(*entry == station.listeners@[j]);
    }
    let burst_us: u128 = (entry.burst_buffer_ms as u128) * 1000;
    let base_us: u128 = if entry.start_total_duration_us >= burst_us {
        entry.start_total_duration_us - burst_us
    } else {
        0
    };
    let server_now_us: u128 = station.playback_position.total_duration_us;
    proof {
        assert(entry.start_total_duration_us <= server_now_us);
    }
    let server_position_ms: u64 = (server_now_us / 1000) as u64;
    let client_base_pos_ms: u64 = (base_us / 1000) as u64;
    let desync_ms: i64 = match query.client_position_ms {
        Option::Some(p) => {
            let raw: i128 = server_position_ms as i128 - (client_base_pos_ms as i128
                + p as i128);
            if raw > i64::MAX as i128 {
                i64::MAX
            } else if raw < i64::MIN as i128 {
                i64::MIN
            } else {
                raw as i64
            }
        },
        Option::None => 0,
    };
    Option::Some(HeartbeatResponse { desync_ms, server_position_ms, client_base_pos_ms })
}

/// Heartbeat desync formula: for a listener whose burst credit lies within
/// the audio played before it connected, the reported desync is exactly the
/// server's position minus the client's absolute position
/// `start_position - burst + played`; the millisecond roundings cancel.
pub proof fn lemma_heartbeat_desync_formula(l: Listener, total_us: u128, p: u64)
    requires
        1000 * l.burst_buffer_ms <= l.start_total_duration_us,
        l.start_total_duration_us <= total_us,
        total_us <= 1000 * (u64::MAX as u128),
        i64::MIN <= total_us as int / 1000 - (l.start_total_duration_us as int / 1000
            - l.burst_buffer_ms + p),
        total_us as int / 1000 - (l.start_total_duration_us as int / 1000 - l.burst_buffer_ms + p)
            <= i64::MAX,
    ensures
        spec_heartbeat_response(l, total_us, Option::Some(p)).desync_ms == total_us as int / 1000
            - (l.start_total_duration_us as int / 1000 - l.burst_buffer_ms + p),
        spec_heartbeat_response(l, total_us, Option::Some(p)).desync_ms == spec_heartbeat_response(
            l,
            total_us,
            Option::Some(p),
        ).server_position_ms as int - (l.start_total_duration_us as int / 1000 - l.burst_buffer_ms
            + p),
{
    lemma_hoist_over_denominator(
        l.start_total_duration_us as int,
        -(l.burst_buffer_ms as int),
        1000,
    );
    assert(spec_client_base_us(l) == l.start_total_duration_us - 1000 * l.burst_buffer_ms);
    assert(spec_client_base_us(l) / 1000 == l.start_total_duration_us as int / 1000
        - l.burst_buffer_ms);
}

/// What a new stream subscription is handed: the burst frames to send
/// first, and their total play time in milliseconds.
pub struct SubscribeOutcome {
    pub burst_frames: Vec<AudioFrame>,
    pub burst_buffer_ms: u64,
}

/// The listener record a subscription creates: connected and heart-beating
/// as of now, anchored at the playback clock's present value, credited from
/// now on.
pub open spec fn spec_new_listener(
    user_id: i64,
    username: String,
    now_ms: i64,
    start_frame_index: u64,
    burst_buffer_ms: u64,
    start_total_duration_us: u128,
) -> Listener {
    Listener {
        user_id,
        username,
        connected_at_ms: now_ms,
        last_heartbeat_ms: now_ms,
        start_frame_index,
        burst_buffer_ms,
        start_total_duration_us,
        last_credited_at_ms: now_ms,
    }
}

/// Subscribe a listener to the stream: snapshot the burst buffer for it and
/// record (or replace) its entry in the listener table, anchored at the
/// playback clock's present value.
pub fn subscribe(
    station: &mut StationData,
    burst: &BurstBuffer,
    user_id: i64,
    username: String,
    now_ms: i64,
) -> (r: SubscribeOutcome)
    requires
        old(station).wf(),
        burst.wf(),
        total_duration_us(burst@) <= old(station).playback_position.total_duration_us,
    ensures
        final(station).wf(),
        final(station).playback_position == old(station).playback_position,
        final(station).current_song == old(station).current_song,
        final(station).emitted == old(station).emitted,
        r.burst_frames@.len() == burst@.len(),
        frames_mirror(r.burst_frames@, burst@, burst@.len() as int),
        r.burst_buffer_ms == sum_ms(burst@),
        contains_id(final(station).listeners@, user_id),
        ({
            let l_new = spec_new_listener(
                user_id,
                username,
                now_ms,
                old(station).playback_position.current_frame_index,
                sum_ms(burst@) as u64,
                old(station).playback_position.total_duration_us,
            );
            &&& (contains_id(old(station).listeners@, user_id) ==> exists|i: int|
                0 <= i < old(station).listeners@.len()
                    && (#[trigger] old(station).listeners@[i]).user_id == user_id
                    && final(station).listeners@ == old(station).listeners@.update(i, l_new))
            &&& (!contains_id(old(station).listeners@, user_id) ==> final(station).listeners@
                == old(station).listeners@.push(l_new))
        }),
{
    let ghost s0 = station.listeners@;
    let burst_frames = burst.snapshot();
    let burst_buffer_ms = burst.burst_ms();
    let l_new = Listener {
        user_id,
        username,
        connected_at_ms: now_ms,
        last_heartbeat_ms: now_ms,
        start_frame_index: station.playback_position.current_frame_index,
        burst_buffer_ms,
        start_total_duration_us: station.playback_position.total_duration_us,
        last_credited_at_ms: now_ms,
    };
    proof {
        lemma_sum_ms_bound(burst@);
        assert(1000 * sum_ms(burst@) <= total_duration_us(burst@));
    }
    station.listeners.insert(l_new);
    proof {
        assert forall|k: int| 0 <= k < station.listeners@.len() implies (#[trigger] station.listeners@[k]).start_total_duration_us
            <= station.playback_position.total_duration_us && station.listeners@[k].burst_buffer_ms
            * 1000 <= station.listeners@[k].start_total_duration_us by {
            if contains_id(s0, user_id) {
                let i = choose|i: int|
                    0 <= i < s0.len() && s0[i].user_id == user_id && station.listeners@
                        == s0.update(i, l_new);
                if k != i {
                    assert(station.listeners@[k] == s0[k]);
                }
            } else {
                if k < s0.len() {
                    assert(station.listeners@[k] == s0[k]);
                }
            }
        }
    }
    SubscribeOutcome { burst_frames, burst_buffer_ms }
}

/// The song now playing, as the current-song query answers it.
pub fn get_current_song(station: &StationData) -> (r: Option<crate::song::CurrentSong>)
    ensures
        match (r, station.current_song) {
            (Option::Some(a), Option::Some(b)) => a == b,
            (Option::None, Option::None) => true,
            _ => false,
        },
{
    match &station.current_song {
        Option::Some(cs) => Option::Some(cs.duplicate()),
        Option::None => Option::None,
    }
}

/// One listener as the listeners query reports it.
pub struct ActiveListenerDto {
    pub username: String,
    /// Wall-clock connect time, in milliseconds since the Unix epoch.
    pub connected_at_ms: i64,
    /// How long the listener has been connected, in milliseconds.
    pub listen_time_ms: i64,
}

/// How long a listener connected at `connected_at_ms` has listened by
/// `now_ms`, clamped into the signed 64-bit range.
pub open spec fn spec_listen_time_ms(l: Listener, now_ms: int) -> int {
    spec_clamp_i64(now_ms - l.connected_at_ms)
}

/// Report every connected listener with its connect time and time listened.
pub fn get_active_listeners(station: &StationData, now_ms: i64) -> (r: Vec<ActiveListenerDto>)
    ensures
        r@.len() == station.listeners@.len(),
        forall|i: int|
            0 <= i < r@.len() ==> (#[trigger] r@[i]).username@ == station.listeners@[i].username@
                && r@[i].connected_at_ms == station.listeners@[i].connected_at_ms
                && r@[i].listen_time_ms == spec_listen_time_ms(
                station.listeners@[i],
                now_ms as int,
            ),
{
    let n = station.listeners.len();
    let mut out: Vec<ActiveListenerDto> = Vec::new();
    let mut i: usize = 0;
    while i < n
        invariant
            n == station.listeners@.len(),
            0 <= i <= n,
            out@.len() == i,
            forall|k: int|
                0 <= k < i ==> (#[trigger] out@[k]).username@
                    == station.listeners@[k].username@ && out@[k].connected_at_ms
                    == station.listeners@[k].connected_at_ms && out@[k].listen_time_ms
                    == spec_listen_time_ms(station.listeners@[k], now_ms as int),
        decreases n - i,
    {
        let l = station.listeners.get_at(i);
        let raw: i128 = now_ms as i128 - l.connected_at_ms as i128;
        let listen_time_ms: i64 = if raw > i64::MAX as i128 {
            i64::MAX
        } else if raw < i64::MIN as i128 {
            i64::MIN
        } else {
            raw as i64
        };
        out.push(
            ActiveListenerDto {
                username: l.username.clone(),
                connected_at_ms: l.connected_at_ms,
                listen_time_ms,
            },
        );
        i = i + 1;
    }
    out
}

/// Why a listener's live stream ends: it fell further behind than the
/// fan-out bus holds and lost frames, or the bus closed.
#[derive(PartialEq, Eq, Structural, Clone, Copy, Debug)]
pub enum StreamError {
    Lagged(u64),
    Closed,
}

/// Turn one fan-out bus receive into the next item of a listener's
/// response body: a frame's bytes pass through; a lag or close becomes the
/// error that terminates this listener's body (and nobody else's).
pub fn live_stream_item(received: Result<AudioFrame, StreamError>) -> (r: Result<
    Vec<u8>,
    StreamError,
>)
    ensures
        match received {
            Result::Ok(f) => r matches Result::Ok(bytes) && (r matches Result::Ok(bytes)
                ==> bytes@ == f.data@),
            Result::Err(e) => r == Result::<Vec<u8>, StreamError>::Err(e),
        },
{
    match received {
        Result::Ok(f) => Result::Ok(f.data),
        Result::Err(e) => Result::Err(e),
    }
}

} // verus!
