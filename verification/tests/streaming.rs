use wavy::burst::BurstBuffer;
use wavy::frame::AudioFrame;
use wavy::pacing::schedule_after_frame;
use wavy::position::ServerPlaybackPosition;
use wavy::producer::{
    frame_duration_us, is_audio_extension, packet_step, plan_song, playlist_step, sample_rate_ok,
    select_track, song_duration_ms, PacketAction, PlaylistAction, SongPlan, TrackInfo,
};
use wavy::song::Song;
use wavy::station::{broadcast_step, StationData, StreamMessage};

fn frame_of(byte: u8, duration_us: u64) -> AudioFrame {
    AudioFrame { data: vec![byte; 4], duration_us }
}

fn one_second_frame(i: u8) -> AudioFrame {
    frame_of(i, 1_000_000)
}

#[test]
fn pacing_on_time_advances_by_frame_duration() {
    // On time: anchor at 1_000_000, frame of 26_122 us, clock at 1_000_000.
    let r = schedule_after_frame(1_000_000, 26_122, 1_000_000);
    assert_eq!(r.next_send_time_us, 1_026_122);
    assert_eq!(r.sleep_us, 26_122);
    assert!(!r.late_warning);
}

#[test]
fn pacing_behind_schedule_resets_anchor() {
    // 50 ms behind: reset without a warning.
    let r = schedule_after_frame(1_000_000, 26_122, 1_076_122);
    assert_eq!(r.next_send_time_us, 1_076_122);
    assert_eq!(r.sleep_us, 0);
    assert!(!r.late_warning);

    // Behind by exactly the threshold: still no warning.
    let r = schedule_after_frame(1_000_000, 26_122, 1_126_122);
    assert_eq!(r.next_send_time_us, 1_126_122);
    assert!(!r.late_warning);

    // One microsecond more: warn.
    let r = schedule_after_frame(1_000_000, 26_122, 1_126_123);
    assert_eq!(r.next_send_time_us, 1_126_123);
    assert!(r.late_warning);
}

#[test]
fn pacing_total_elapsed_matches_total_duration() {
    // A 60-second song in one-second frames, never late: the schedule
    // advances by exactly the song's duration.
    let mut next: u64 = 5_000;
    let mut now: u64 = 5_000;
    for _ in 0..60 {
        let r = schedule_after_frame(next, 1_000_000, now);
        now += r.sleep_us;
        next = r.next_send_time_us;
    }
    assert_eq!(next, 5_000 + 60_000_000);
    assert_eq!(now, 5_000 + 60_000_000);
}

#[test]
fn burst_buffer_keeps_target_plus_at_most_one_frame() {
    let mut b = BurstBuffer::new();
    assert_eq!(b.len(), 0);
    for i in 0..10u8 {
        b.push(one_second_frame(i));
    }
    // One-second frames against a three-second target: three frames stay.
    assert_eq!(b.len(), 3);
    assert_eq!(b.total_duration_us(), 3_000_000);
    assert_eq!(b.burst_ms(), 3_000);
    // The newest frames are the ones kept, oldest first.
    let snap = b.snapshot();
    assert_eq!(snap.len(), 3);
    assert_eq!(snap[0].data, vec![7u8; 4]);
    assert_eq!(snap[1].data, vec![8u8; 4]);
    assert_eq!(snap[2].data, vec![9u8; 4]);
}

#[test]
fn burst_buffer_under_target_keeps_everything() {
    let mut b = BurstBuffer::new();
    b.push(frame_of(1, 1_000_000));
    b.push(frame_of(2, 1_500_000));
    assert_eq!(b.len(), 2);
    assert_eq!(b.total_duration_us(), 2_500_000);
    assert_eq!(b.burst_ms(), 2_500);
}

#[test]
fn burst_buffer_one_huge_frame_stands_alone() {
    let mut b = BurstBuffer::new();
    b.push(frame_of(1, 10_000_000));
    assert_eq!(b.len(), 1);
    b.push(frame_of(2, 10_000_000));
    // Dropping the first would still leave ten seconds: it goes.
    assert_eq!(b.len(), 1);
    assert_eq!(b.total_duration_us(), 10_000_000);
}

#[test]
fn playback_position_is_monotonic() {
    let mut p = ServerPlaybackPosition::new(1_700_000_000_000);
    assert_eq!(p.current_frame_index, 0);
    assert_eq!(p.total_duration_us, 0);
    let mut last: u128 = 0;
    for _ in 0..100 {
        p.advance(26_122);
        assert!(p.total_duration_us >= last);
        last = p.total_duration_us;
    }
    assert_eq!(p.current_frame_index, 100);
    assert_eq!(p.total_duration_us, 2_612_200);
    assert_eq!(p.total_duration_ms(), 2_612);
}

fn test_song(id: i64, title: &str) -> Song {
    Song {
        id,
        title: title.to_string(),
        album_id: None,
        album_title: None,
        artist_names: Some("Somebody".to_string()),
        has_image: false,
    }
}

#[test]
fn broadcast_step_song_start_announces_at_position() {
    let mut station = StationData::new(0);
    let mut burst = BurstBuffer::new();
    let step = broadcast_step(
        &mut station,
        &mut burst,
        StreamMessage::Frame(one_second_frame(0)),
        0,
        0,
        0,
    );
    assert!(step.event.is_none());
    assert!(step.frame.is_some());
    let step = broadcast_step(
        &mut station,
        &mut burst,
        StreamMessage::SongStart(test_song(42, "Tune"), 60_000, None),
        1_000,
        0,
        0,
    );
    let ev = step.event.expect("song start must yield an event");
    assert_eq!(ev.id, 42);
    assert_eq!(ev.duration_ms, 60_000);
    assert_eq!(ev.started_at_ms, 1_000);
    assert_eq!(ev.started_at_position_us, 1_000_000);
    assert!(step.frame.is_none());
    assert!(step.pacing.is_none());
    let cs = station.current_song.as_ref().expect("current song set");
    assert_eq!(cs.id, 42);
}

#[test]
fn broadcast_step_rhythm_data_is_encoded() {
    let mut station = StationData::new(0);
    let mut burst = BurstBuffer::new();
    let step = broadcast_step(
        &mut station,
        &mut burst,
        StreamMessage::SongStart(test_song(1, "Tune"), 1_000, Some(b"hello".to_vec())),
        0,
        0,
        0,
    );
    let ev = step.event.unwrap();
    assert_eq!(ev.rhythm_data.as_deref(), Some("aGVsbG8="));
}

#[test]
fn broadcast_step_frame_clocks_buffers_and_paces() {
    let mut station = StationData::new(0);
    let mut burst = BurstBuffer::new();
    let step = broadcast_step(
        &mut station,
        &mut burst,
        StreamMessage::Frame(frame_of(9, 26_122)),
        0,
        100,
        100,
    );
    assert_eq!(station.playback_position.current_frame_index, 1);
    assert_eq!(station.playback_position.total_duration_us, 26_122);
    assert_eq!(burst.len(), 1);
    let out = step.frame.unwrap();
    assert_eq!(out.data, vec![9u8; 4]);
    let pacing = step.pacing.unwrap();
    assert_eq!(pacing.next_send_time_us, 26_222);
    assert_eq!(pacing.sleep_us, 26_122);
}

#[test]
fn subscriber_mid_song_gets_burst_then_live() {
    // Five 60-second songs of one-second frames; a listener subscribes
    // thirty seconds in and stays until ninety seconds: it receives at
    // least sixty-three seconds of audio.
    let mut station = StationData::new(0);
    let mut burst = BurstBuffer::new();
    let mut now_ms: i64 = 0;
    let mut next_us: u64 = 0;
    let mut received_us: u64 = 0;
    let mut subscribed = false;
    let mut live_frames: u64 = 0;
    for song in 0..5i64 {
        let _ = broadcast_step(
            &mut station,
            &mut burst,
            StreamMessage::SongStart(test_song(song, "Tune"), 60_000, None),
            now_ms,
            next_us,
            (now_ms as u64) * 1_000,
        );
        for sec in 0..60u64 {
            if !subscribed && now_ms == 30_000 {
                let outcome = wavy::session::subscribe(
                    &mut station,
                    &burst,
                    7,
                    "ada".to_string(),
                    now_ms,
                );
                received_us += (outcome.burst_buffer_ms as u64) * 1_000;
                assert!(outcome.burst_buffer_ms >= 3_000);
                assert!(outcome.burst_frames.len() >= 3);
                subscribed = true;
            }
            let step = broadcast_step(
                &mut station,
                &mut burst,
                StreamMessage::Frame(one_second_frame((song * 60 + sec as i64) as u8)),
                now_ms,
                next_us,
                (now_ms as u64) * 1_000,
            );
            if subscribed {
                received_us += step.frame.as_ref().unwrap().duration_us;
                live_frames += 1;
            }
            next_us = step.pacing.unwrap().next_send_time_us;
            now_ms += 1_000;
            if now_ms == 90_000 {
                break;
            }
        }
        if now_ms == 90_000 {
            break;
        }
    }
    assert_eq!(live_frames, 60);
    assert!(received_us >= 63_000_000);
}

#[test]
fn track_selection_takes_first_known_codec() {
    let tracks = vec![
        TrackInfo { id: 0, codec_known: false, sample_rate: Some(44100), n_frames: None },
        TrackInfo { id: 1, codec_known: true, sample_rate: Some(44100), n_frames: Some(44100) },
        TrackInfo { id: 2, codec_known: true, sample_rate: Some(48000), n_frames: None },
    ];
    assert_eq!(select_track(&tracks), Some(1));
    assert_eq!(select_track(&Vec::new()), None);
}

#[test]
fn sample_rate_guard_rejects_everything_but_the_expected_rate() {
    assert!(sample_rate_ok(44100));
    assert!(!sample_rate_ok(48000));
    assert!(!sample_rate_ok(0));
}

#[test]
fn mismatched_sample_rate_is_never_announced() {
    // A 48 kHz file: the plan is a skip, so no SongStart is ever sent.
    let tracks = vec![TrackInfo {
        id: 0,
        codec_known: true,
        sample_rate: Some(48000),
        n_frames: Some(1000),
    }];
    match plan_song(&tracks) {
        SongPlan::RateMismatch(found) => assert_eq!(found, 48000),
        _ => panic!("a mismatched rate must be skipped"),
    }
    // A missing rate counts as mismatched at zero.
    let tracks = vec![TrackInfo { id: 0, codec_known: true, sample_rate: None, n_frames: None }];
    match plan_song(&tracks) {
        SongPlan::RateMismatch(found) => assert_eq!(found, 0),
        _ => panic!("an unknown rate must be skipped"),
    }
    // No playable track at all.
    match plan_song(&Vec::new()) {
        SongPlan::NoTrack => {}
        _ => panic!("no track must abort the song"),
    }
}

#[test]
fn matching_song_is_planned_with_its_duration() {
    let tracks = vec![TrackInfo {
        id: 3,
        codec_known: true,
        sample_rate: Some(44100),
        n_frames: Some(2_646_000),
    }];
    match plan_song(&tracks) {
        SongPlan::Play { track_index, duration_ms } => {
            assert_eq!(track_index, 0);
            assert_eq!(duration_ms, 60_000);
        }
        _ => panic!("a matching song must play"),
    }
}

#[test]
fn song_duration_handles_unknown_frame_count() {
    assert_eq!(song_duration_ms(None, 44100), 0);
    assert_eq!(song_duration_ms(Some(44100), 44100), 1000);
    assert_eq!(song_duration_ms(Some(2_646_000), 44100), 60_000);
}

#[test]
fn frame_duration_follows_the_formula() {
    // 1152 samples at 44.1 kHz: 1152 * 1_000_000 / 44100 = 26122 us.
    assert_eq!(frame_duration_us(1152, 44100), 26_122);
    assert_eq!(frame_duration_us(576, 44100), 13_061);
    assert_eq!(frame_duration_us(0, 44100), 0);
}

#[test]
fn packet_step_skips_foreign_and_failed_packets() {
    match packet_step(5, 3, vec![1, 2], Some(1152), 44100) {
        PacketAction::Skip => {}
        _ => panic!("a packet of another track must be skipped"),
    }
    match packet_step(3, 3, vec![1, 2], None, 44100) {
        PacketAction::Skip => {}
        _ => panic!("a failed decode must be skipped"),
    }
    match packet_step(3, 3, vec![1, 2, 3], Some(1152), 44100) {
        PacketAction::Emit(f) => {
            assert_eq!(f.data, vec![1, 2, 3]);
            assert_eq!(f.duration_us, 26_122);
        }
        _ => panic!("a good packet must be emitted"),
    }
}

#[test]
fn playlist_retries_on_failure_and_empty_catalog() {
    match playlist_step(Err("down".to_string())) {
        PlaylistAction::RetryAfterSeconds(s) => assert_eq!(s, 5),
        _ => panic!("a catalog failure must back off"),
    }
    match playlist_step(Ok(Vec::new())) {
        PlaylistAction::RetryAfterSeconds(s) => assert_eq!(s, 5),
        _ => panic!("an empty catalog must back off"),
    }
}

#[test]
fn playlist_shuffle_keeps_every_song() {
    let songs: Vec<Song> = (0..20).map(|i| test_song(i, "Tune")).collect();
    match playlist_step(Ok(songs)) {
        PlaylistAction::Play(list) => {
            assert_eq!(list.len(), 20);
            let mut ids: Vec<i64> = list.iter().map(|s| s.id).collect();
            ids.sort();
            assert_eq!(ids, (0..20).collect::<Vec<i64>>());
        }
        _ => panic!("a stocked catalog must play"),
    }
}

#[test]
fn audio_extensions_are_recognized_in_any_case() {
    assert!(is_audio_extension("mp3"));
    assert!(is_audio_extension("MP3"));
    assert!(is_audio_extension("Flac"));
    assert!(is_audio_extension("wav"));
    assert!(!is_audio_extension("txt"));
    assert!(!is_audio_extension(""));
    assert!(!is_audio_extension("mp33"));
}
