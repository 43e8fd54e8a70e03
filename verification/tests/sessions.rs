use wavy::burst::BurstBuffer;
use wavy::frame::AudioFrame;
use wavy::janitor::janitor_pass;
use wavy::listener::Listener;
use wavy::session::{
    get_active_listeners, heartbeat, live_stream_item, subscribe, HeartbeatQuery, StreamError,
};
use wavy::station::{broadcast_step, StationData, StreamMessage};

fn one_second_frame(i: u8) -> AudioFrame {
    AudioFrame { data: vec![i; 8], duration_us: 1_000_000 }
}

/// Run the broadcaster over `seconds` one-second frames starting at
/// `start_ms`, keeping the burst buffer coupled to the station.
fn play_seconds(station: &mut StationData, burst: &mut BurstBuffer, start_ms: i64, seconds: u64) {
    for s in 0..seconds {
        let now_ms = start_ms + (s as i64) * 1_000;
        let _ = broadcast_step(
            station,
            burst,
            StreamMessage::Frame(one_second_frame(s as u8)),
            now_ms,
            0,
            0,
        );
    }
}

#[test]
fn subscribe_records_listener_at_current_position() {
    let mut station = StationData::new(0);
    let mut burst = BurstBuffer::new();
    play_seconds(&mut station, &mut burst, 0, 30);
    let outcome = subscribe(&mut station, &burst, 7, "ada".to_string(), 30_000);
    assert_eq!(outcome.burst_buffer_ms, 3_000);
    assert_eq!(outcome.burst_frames.len(), 3);
    assert_eq!(station.listeners.len(), 1);
    let l = station.listeners.get(7).expect("listener recorded");
    assert_eq!(l.user_id, 7);
    assert_eq!(l.username, "ada");
    assert_eq!(l.connected_at_ms, 30_000);
    assert_eq!(l.last_heartbeat_ms, 30_000);
    assert_eq!(l.start_frame_index, 30);
    assert_eq!(l.burst_buffer_ms, 3_000);
    assert_eq!(l.start_total_duration_us, 30_000_000);
    assert_eq!(l.last_credited_at_ms, 30_000);
}

#[test]
fn subscribe_replaces_an_existing_entry() {
    let mut station = StationData::new(0);
    let mut burst = BurstBuffer::new();
    play_seconds(&mut station, &mut burst, 0, 10);
    subscribe(&mut station, &burst, 7, "ada".to_string(), 10_000);
    play_seconds(&mut station, &mut burst, 10_000, 10);
    subscribe(&mut station, &burst, 7, "ada".to_string(), 20_000);
    assert_eq!(station.listeners.len(), 1);
    let l = station.listeners.get(7).unwrap();
    assert_eq!(l.connected_at_ms, 20_000);
    assert_eq!(l.start_frame_index, 20);
}

#[test]
fn heartbeat_reports_desync_by_the_formula() {
    let mut station = StationData::new(0);
    let mut burst = BurstBuffer::new();
    play_seconds(&mut station, &mut burst, 0, 30);
    subscribe(&mut station, &burst, 7, "ada".to_string(), 30_000);
    play_seconds(&mut station, &mut burst, 30_000, 10);
    // Server is at 40 s; the client connected at 30 s with 3 s of burst,
    // so its base is 27 s; it reports 10 s played.
    let resp = heartbeat(
        &mut station,
        7,
        &HeartbeatQuery { client_position_ms: Some(10_000) },
        40_000,
    )
    .expect("known listener");
    assert_eq!(resp.server_position_ms, 40_000);
    assert_eq!(resp.client_base_pos_ms, 27_000);
    assert_eq!(resp.desync_ms, 40_000 - (27_000 + 10_000));
    assert_eq!(resp.desync_ms, 3_000);
    // The heartbeat refreshed liveness.
    assert_eq!(station.listeners.get(7).unwrap().last_heartbeat_ms, 40_000);
}

#[test]
fn two_listeners_settle_near_the_burst_target() {
    // A connects thirty seconds in, B ten seconds later; both report
    // exactly the audio they played since connecting, and both see a
    // desync within [2500, 3500].
    let mut station = StationData::new(0);
    let mut burst = BurstBuffer::new();
    play_seconds(&mut station, &mut burst, 0, 30);
    subscribe(&mut station, &burst, 1, "a".to_string(), 30_000);
    play_seconds(&mut station, &mut burst, 30_000, 10);
    subscribe(&mut station, &burst, 2, "b".to_string(), 40_000);
    play_seconds(&mut station, &mut burst, 40_000, 20);
    // Wall clock 60 s: A has played 30 s, B has played 20 s.
    let ra = heartbeat(
        &mut station,
        1,
        &HeartbeatQuery { client_position_ms: Some(30_000) },
        60_000,
    )
    .unwrap();
    let rb = heartbeat(
        &mut station,
        2,
        &HeartbeatQuery { client_position_ms: Some(20_000) },
        60_000,
    )
    .unwrap();
    assert!(ra.desync_ms >= 2_500 && ra.desync_ms <= 3_500, "desync {}", ra.desync_ms);
    assert!(rb.desync_ms >= 2_500 && rb.desync_ms <= 3_500, "desync {}", rb.desync_ms);
}

#[test]
fn heartbeat_without_position_reports_zero_desync() {
    let mut station = StationData::new(0);
    let mut burst = BurstBuffer::new();
    play_seconds(&mut station, &mut burst, 0, 5);
    subscribe(&mut station, &burst, 7, "ada".to_string(), 5_000);
    let resp = heartbeat(&mut station, 7, &HeartbeatQuery { client_position_ms: None }, 6_000)
        .unwrap();
    assert_eq!(resp.desync_ms, 0);
    assert_eq!(resp.server_position_ms, 5_000);
}

#[test]
fn heartbeat_for_unknown_listener_is_refused() {
    let mut station = StationData::new(0);
    let r = heartbeat(&mut station, 99, &HeartbeatQuery { client_position_ms: Some(0) }, 1_000);
    assert!(r.is_none());
}

#[test]
fn stale_listener_is_evicted_within_one_pass() {
    let mut station = StationData::new(0);
    let burst = BurstBuffer::new();
    subscribe(&mut station, &burst, 1, "quiet".to_string(), 0);
    subscribe(&mut station, &burst, 2, "chatty".to_string(), 0);
    // Twenty-one seconds later only the chatty listener has heart-beaten.
    heartbeat(&mut station, 2, &HeartbeatQuery { client_position_ms: None }, 15_000).unwrap();
    let _ = janitor_pass(&mut station, 21_000);
    assert!(station.listeners.get(1).is_none(), "stale listener must be gone");
    assert!(station.listeners.get(2).is_some(), "live listener must stay");
    // The listeners query no longer shows the quiet one.
    let dtos = get_active_listeners(&station, 30_000);
    assert_eq!(dtos.len(), 1);
    assert_eq!(dtos[0].username, "chatty");
}

#[test]
fn listener_just_inside_the_timeout_survives() {
    let mut station = StationData::new(0);
    let burst = BurstBuffer::new();
    subscribe(&mut station, &burst, 1, "edge".to_string(), 0);
    // Exactly 20 s elapsed is not yet stale (strictly more is required).
    let _ = janitor_pass(&mut station, 20_000);
    assert!(station.listeners.get(1).is_some());
    // 20.999 s elapsed still truncates to 20 whole seconds.
    let _ = janitor_pass(&mut station, 20_999);
    assert!(station.listeners.get(1).is_some());
    let _ = janitor_pass(&mut station, 21_000);
    assert!(station.listeners.get(1).is_none());
}

#[test]
fn credits_carry_the_subsecond_remainder() {
    let mut station = StationData::new(0);
    let burst = BurstBuffer::new();
    subscribe(&mut station, &burst, 5, "fan".to_string(), 0);
    // First pass at 10.5 s: ten whole seconds credited.
    station.listeners.set_heartbeat(5, 10_500);
    let credits = janitor_pass(&mut station, 10_500);
    assert_eq!(credits, vec![(5, 10)]);
    assert_eq!(station.listeners.get(5).unwrap().last_credited_at_ms, 10_000);
    // Second pass at 20.5 s: the half second carried over makes ten more.
    station.listeners.set_heartbeat(5, 20_500);
    let credits = janitor_pass(&mut station, 20_500);
    assert_eq!(credits, vec![(5, 10)]);
    assert_eq!(station.listeners.get(5).unwrap().last_credited_at_ms, 20_000);
    // Twenty credited seconds in 20.5 s of listening: exactly the floor.
}

#[test]
fn no_credit_before_a_whole_second() {
    let mut station = StationData::new(0);
    let burst = BurstBuffer::new();
    subscribe(&mut station, &burst, 5, "fan".to_string(), 0);
    station.listeners.set_heartbeat(5, 900);
    let credits = janitor_pass(&mut station, 900);
    assert!(credits.is_empty());
    assert_eq!(station.listeners.get(5).unwrap().last_credited_at_ms, 0);
}

#[test]
fn clock_skew_resets_the_credit_anchor_without_crediting() {
    let mut station = StationData::new(0);
    let burst = BurstBuffer::new();
    subscribe(&mut station, &burst, 5, "fan".to_string(), 10_000);
    station.listeners.set_heartbeat(5, 4_000);
    let credits = janitor_pass(&mut station, 4_000);
    assert!(credits.is_empty());
    assert_eq!(station.listeners.get(5).unwrap().last_credited_at_ms, 4_000);
}

#[test]
fn staleness_is_whole_seconds_past_the_timeout() {
    let l = Listener {
        user_id: 1,
        username: "x".to_string(),
        connected_at_ms: 0,
        last_heartbeat_ms: 1_000,
        start_frame_index: 0,
        burst_buffer_ms: 0,
        start_total_duration_us: 0,
        last_credited_at_ms: 0,
    };
    assert!(!l.is_stale_at(20, 21_000));
    assert!(!l.is_stale_at(20, 21_999));
    assert!(l.is_stale_at(20, 22_000));
    // A clock running backwards never makes a listener stale.
    assert!(!l.is_stale_at(20, 0));
}

#[test]
fn listen_time_is_reported_per_listener() {
    let mut station = StationData::new(0);
    let burst = BurstBuffer::new();
    subscribe(&mut station, &burst, 1, "early".to_string(), 1_000);
    subscribe(&mut station, &burst, 2, "late".to_string(), 9_000);
    let dtos = get_active_listeners(&station, 10_000);
    assert_eq!(dtos.len(), 2);
    let early = dtos.iter().find(|d| d.username == "early").unwrap();
    let late = dtos.iter().find(|d| d.username == "late").unwrap();
    assert_eq!(early.listen_time_ms, 9_000);
    assert_eq!(early.connected_at_ms, 1_000);
    assert_eq!(late.listen_time_ms, 1_000);
}

#[test]
fn lag_terminates_only_that_stream() {
    let ok = live_stream_item(Ok(AudioFrame { data: vec![1, 2, 3], duration_us: 26_122 }));
    assert_eq!(ok.unwrap(), vec![1, 2, 3]);
    let lagged = live_stream_item(Err(StreamError::Lagged(12)));
    assert_eq!(lagged.unwrap_err(), StreamError::Lagged(12));
    let closed = live_stream_item(Err(StreamError::Closed));
    assert_eq!(closed.unwrap_err(), StreamError::Closed);
}

#[test]
fn staleness_against_the_real_clock() {
    let mut l = Listener {
        user_id: 1,
        username: "x".to_string(),
        connected_at_ms: 0,
        last_heartbeat_ms: 0,
        start_frame_index: 0,
        burst_buffer_ms: 0,
        start_total_duration_us: 0,
        last_credited_at_ms: 0,
    };
    // A heartbeat from 1970 is long stale by any present clock.
    assert!(l.is_stale(20));
    // A heartbeat from the far future never counts as stale.
    l.last_heartbeat_ms = i64::MAX - 1;
    assert!(!l.is_stale(20));
}
