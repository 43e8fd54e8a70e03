//! The frame producer's decisions: which track to play, the sample-rate
//! guard, the timing formulas, and the per-packet step of the decode loop.
//!
//! The producer itself runs on a blocking worker and does the file and
//! decoder work; everything it decides is decided here, on plain values.

use vstd::prelude::*;
use rand::seq::SliceRandom;
use crate::frame::AudioFrame;
use crate::song::Song;
use crate::text::{str_eq_ignore_ascii_case, eq_ignore_ascii_case_spec};
use crate::EXPECTED_SAMPLE_RATE;

verus! {

/// One container track as probing describes it, reduced to plain values.
pub struct TrackInfo {
    /// The container's identifier for this track.
    pub id: u32,
    /// Whether the track's codec is known (a track without one cannot play).
    pub codec_known: bool,
    /// The declared sample rate, if the container states one.
    pub sample_rate: Option<u32>,
    /// The declared total frame count, if the container states one.
    pub n_frames: Option<u64>,
}

/// A track's effective sample rate: the declared one, or zero when the
/// container does not state it, so an unknown rate never passes the guard.
pub open spec fn spec_rate_of(t: TrackInfo) -> u32 {
    match t.sample_rate {
        Option::Some(r) => r,
        Option::None => 0,
    }
}

/// The index of the first playable track: the first whose codec is known.
pub fn select_track(tracks: &Vec<TrackInfo>) -> (r: Option<usize>)
    ensures
        match r {
            Option::Some(i) => i < tracks@.len() && tracks@[i as int].codec_known && forall|j: int|
                0 <= j < i ==> !(#[trigger] tracks@[j]).codec_known,
            Option::None => forall|j: int|
                0 <= j < tracks@.len() ==> !(#[trigger] tracks@[j]).codec_known,
        },
{
    let n = tracks.len();
    let mut i: usize = 0;
    while i < n
        invariant
            n == tracks@.len(),
            0 <= i <= n,
            forall|j: int| 0 <= j < i ==> !(#[trigger] tracks@[j]).codec_known,
        decreases n - i,
    {
        if tracks[i].codec_known {
            return Option::Some(i);
        }
        i = i + 1;
    }
    Option::None
}

/// Whether a sample rate passes the station's guard.
pub fn sample_rate_ok(rate: u32) -> (r: bool)
    ensures
        r == (rate == EXPECTED_SAMPLE_RATE),
{
    rate == EXPECTED_SAMPLE_RATE
}

/// A song's declared length in milliseconds, from the track's declared
/// frame count and sample rate; zero when the count is unknown.
pub open spec fn spec_song_duration_ms(n_frames: Option<u64>, sample_rate: u32) -> int {
    match n_frames {
        Option::Some(n) => (n * 1000) / (sample_rate as int),
        Option::None => 0,
    }
}

/// Compute a song's declared length in milliseconds.
pub fn song_duration_ms(n_frames: Option<u64>, sample_rate: u32) -> (r: u64)
    requires
        sample_rate >= 1000,
    ensures
        r == spec_song_duration_ms(n_frames, sample_rate),
{
    match n_frames {
        Option::Some(n) => {
            let wide: u128 = (n as u128) * 1000 / (sample_rate as u128);
            proof {
                assert((n * 1000) / (sample_rate as int) <= n) by (nonlinear_arith)
                    requires
                        sample_rate >= 1000,
                ;
            }
            wide as u64
        },
        Option::None => 0,
    }
}

/// A frame's play time in microseconds: its decoded sample count over the
/// sample rate.
pub open spec fn spec_frame_duration_us(samples: u64, sample_rate: u32) -> int {
    (samples * 1_000_000) / (sample_rate as int)
}

/// Compute a frame's play time in microseconds.
pub fn frame_duration_us(samples: u64, sample_rate: u32) -> (r: u64)
    requires
        sample_rate >= 1000,
        samples <= 18_000_000_000_000,
    ensures
        r == spec_frame_duration_us(samples, sample_rate),
{
    let wide: u128 = (samples as u128) * 1_000_000 / (sample_rate as u128);
    proof {
        assert((samples * 1_000_000) / (sample_rate as int) <= samples * 1000) by (nonlinear_arith)
            requires
                sample_rate >= 1000,
        ;
    }
    wide as u64
}

/// What the producer does with a song once its container was probed.
pub enum SongPlan {
    /// No track with a known codec: abort the song.
    NoTrack,
    /// The sample rate is not the expected one (the carried value is the
    /// rate found): skip the song without announcing it, so the
    /// broadcaster never sees it.
    RateMismatch(u32),
    /// Announce the song and decode the track at this index; the declared
    /// length to announce is `duration_ms`.
    Play { track_index: usize, duration_ms: u64 },
}

/// Decide a song's fate from its probed tracks.
///
/// The sample-rate guard: only a song whose chosen track declares exactly
/// the expected rate is ever announced, so a mismatched file produces no
/// `SongStart` and no frames.
pub fn plan_song(tracks: &Vec<TrackInfo>) -> (r: SongPlan)
    ensures
        match r {
            SongPlan::NoTrack => forall|j: int|
                0 <= j < tracks@.len() ==> !(#[trigger] tracks@[j]).codec_known,
            SongPlan::RateMismatch(found) => found != EXPECTED_SAMPLE_RATE && exists|i: int|
                0 <= i < tracks@.len() && (#[trigger] tracks@[i]).codec_known && spec_rate_of(
                    tracks@[i],
                ) == found && forall|j: int| 0 <= j < i ==> !(#[trigger] tracks@[j]).codec_known,
            SongPlan::Play { track_index, duration_ms } => {
                &&& track_index < tracks@.len()
                &&& tracks@[track_index as int].codec_known
                &&& spec_rate_of(tracks@[track_index as int]) == EXPECTED_SAMPLE_RATE
                &&& duration_ms == spec_song_duration_ms(
                    tracks@[track_index as int].n_frames,
                    EXPECTED_SAMPLE_RATE,
                )
            },
        },
{
    let i = match select_track(tracks) {
        Option::Some(i) => i,
        Option::None => {
            return SongPlan::NoTrack;
        },
    };
    let rate = match tracks[i].sample_rate {
        Option::Some(r) => r,
        Option::None => 0,
    };
    if !sample_rate_ok(rate) {
        return SongPlan::RateMismatch(rate);
    }
    let duration_ms = song_duration_ms(tracks[i].n_frames, rate);
    SongPlan::Play { track_index: i, duration_ms }
}

/// What the decode loop does with one packet.
pub enum PacketAction {
    /// The packet belongs to another track, or decoding it failed: skip it.
    Skip,
    /// Send this frame to the broadcaster: the packet's raw encoded bytes,
    /// timed by the decoded sample count.
    Emit(AudioFrame),
}

/// Decide one packet of the decode loop: a packet of another track is
/// skipped, a packet that failed to decode is skipped and logged, and any
/// other packet is emitted as a frame carrying the raw encoded bytes, timed
/// by its decoded sample count over the sample rate.
pub fn packet_step(
    packet_track_id: u32,
    track_id: u32,
    packet_data: Vec<u8>,
    decoded_samples: Option<u64>,
    sample_rate: u32,
) -> (r: PacketAction)
    requires
        sample_rate >= 1000,
        match decoded_samples {
            Option::Some(s) => s <= 18_000_000_000_000,
            Option::None => true,
        },
    ensures
        match r {
            PacketAction::Skip => packet_track_id != track_id || decoded_samples is None,
            PacketAction::Emit(f) => {
                &&& packet_track_id == track_id
                &&& decoded_samples matches Option::Some(s) && f.duration_us
                    == spec_frame_duration_us(s, sample_rate)
                &&& f.data@ == packet_data@
            },
        },
{
    if packet_track_id != track_id {
        return PacketAction::Skip;
    }
    match decoded_samples {
        Option::Some(samples) => {
            let duration_us = frame_duration_us(samples, sample_rate);
            PacketAction::Emit(AudioFrame { data: packet_data, duration_us })
        },
        Option::None => PacketAction::Skip,
    }
}

/// Relies on rand's `SliceRandom::shuffle`: an in-place permutation of the
/// songs, picked uniformly at random; nothing can be promised about the
/// order that comes out.
#[verifier::external_body]
pub fn shuffle_songs(songs: &mut Vec<Song>)
    ensures
        final(songs)@.len() == old(songs)@.len(),
        final(songs)@.to_multiset() == old(songs)@.to_multiset(),
{
    songs.as_mut_slice().shuffle(&mut rand::rng());
}

/// What the playlist source does after asking the catalog for its songs.
pub enum PlaylistAction {
    /// The catalog failed or is empty: wait this many seconds and ask
    /// again.
    RetryAfterSeconds(u64),
    /// Play these songs, in this order, then ask again.
    Play(Vec<Song>),
}

/// Decide one playlist cycle from what the catalog returned: a failure or
/// an empty catalog mean retrying after five seconds, and otherwise the
/// returned songs are played once, shuffled.
pub fn playlist_step(fetched: Result<Vec<Song>, String>) -> (r: PlaylistAction)
    ensures
        match fetched {
            Result::Err(_) => r matches PlaylistAction::RetryAfterSeconds(s) && (
            r matches PlaylistAction::RetryAfterSeconds(s) ==> s == 5),
            Result::Ok(songs) => {
                if songs@.len() == 0 {
                    r matches PlaylistAction::RetryAfterSeconds(s) && (
                    r matches PlaylistAction::RetryAfterSeconds(s) ==> s == 5)
                } else {
                    r matches PlaylistAction::Play(list) && (r matches PlaylistAction::Play(list)
                        ==> list@.len() == songs@.len() && list@.to_multiset()
                        == songs@.to_multiset())
                }
            },
        },
{
    match fetched {
        Result::Err(_) => PlaylistAction::RetryAfterSeconds(5),
        Result::Ok(songs) => {
            if songs.len() == 0 {
                PlaylistAction::RetryAfterSeconds(5)
            } else {
                let mut list = songs;
                shuffle_songs(&mut list);
                PlaylistAction::Play(list)
            }
        },
    }
}

/// Whether a file extension names an audio format the station will try to
/// play, whatever its case.
pub open spec fn spec_is_audio_extension(ext: Seq<char>) -> bool {
    ||| eq_ignore_ascii_case_spec(ext, "mp3"@)
    ||| eq_ignore_ascii_case_spec(ext, "m4a"@)
    ||| eq_ignore_ascii_case_spec(ext, "mp4"@)
    ||| eq_ignore_ascii_case_spec(ext, "aac"@)
    ||| eq_ignore_ascii_case_spec(ext, "flac"@)
    ||| eq_ignore_ascii_case_spec(ext, "ogg"@)
    ||| eq_ignore_ascii_case_spec(ext, "wav"@)
}

/// Decide whether a file extension names a playable audio format.
pub fn is_audio_extension(ext: &str) -> (r: bool)
    ensures
        r == spec_is_audio_extension(ext@),
{
    str_eq_ignore_ascii_case(ext, "mp3") || str_eq_ignore_ascii_case(ext, "m4a")
        || str_eq_ignore_ascii_case(ext, "mp4") || str_eq_ignore_ascii_case(ext, "aac")
        || str_eq_ignore_ascii_case(ext, "flac") || str_eq_ignore_ascii_case(ext, "ogg")
        || str_eq_ignore_ascii_case(ext, "wav")
}

} // verus!
