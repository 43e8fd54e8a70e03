//! The station's shared state and the broadcaster's state transitions.

use vstd::prelude::*;
use crate::burst::BurstBuffer;
use crate::frame::{AudioFrame, total_duration_us, lemma_total_duration_push};
use crate::listener::{ListenerTable, ids_unique};
use crate::pacing::{PacingOutcome, schedule_after_frame, spec_schedule};
use crate::position::ServerPlaybackPosition;
use crate::song::{CurrentSong, Song, base64_of, base64_encode, clone_opt_string};
use crate::BURST_TARGET_US;

verus! {

/// What the producer hands to the broadcaster: either one timed frame, or
/// the announcement that a new song starts, with its declared length in
/// milliseconds and an optional rhythm sidecar.
pub enum StreamMessage {
    Frame(AudioFrame),
    SongStart(Song, u64, Option<Vec<u8>>),
}

/// The station's shared record: who is listening, where the playback clock
/// stands, and which song is playing.
///
/// The broadcaster is the only writer of the playback position and current
/// song; the session layer and the janitor are the only writers of the
/// listener table.
pub struct StationData {
    pub listeners: ListenerTable,
    pub playback_position: ServerPlaybackPosition,
    pub current_song: Option<CurrentSong>,
    /// Every frame the broadcaster has ever emitted, in order.
    pub emitted: Ghost<Seq<AudioFrame>>,
}

impl StationData {
    /// The station's invariant: listener ids are unique, the playback clock
    /// counts exactly the emitted frames and their total play time, and the
    /// current song never started after the clock's present value.
    pub open spec fn wf(&self) -> bool {
        &&& ids_unique(self.listeners@)
        &&& self.playback_position.total_duration_us == total_duration_us(self.emitted@)
        &&& self.playback_position.current_frame_index == self.emitted@.len()
        &&& match self.current_song {
            Option::Some(cs) => cs.started_at_position_us
                <= self.playback_position.total_duration_us,
            Option::None => true,
        }
        &&& forall|i: int|
            0 <= i < self.listeners@.len() ==> (#[trigger] self.listeners@[i]).start_total_duration_us
                <= self.playback_position.total_duration_us && self.listeners@[i].burst_buffer_ms
                * 1000 <= self.listeners@[i].start_total_duration_us
    }

    /// A fresh station: no listeners, clock at zero, nothing playing.
    pub fn new(server_start_ms: i64) -> (r: StationData)
        ensures
            r.wf(),
            r.listeners@ == Seq::<crate::listener::Listener>::empty(),
            r.playback_position.current_frame_index == 0,
            r.playback_position.total_duration_us == 0,
            r.playback_position.server_start_ms == server_start_ms,
            r.current_song is None,
            r.emitted@ == Seq::<AudioFrame>::empty(),
    {
        let r = StationData {
            listeners: ListenerTable::new(),
            playback_position: ServerPlaybackPosition::new(server_start_ms),
            current_song: Option::None,
            emitted: Ghost(Seq::empty()),
        };
        r
    }

    /// Start a new song: record it as current, anchored at the present
    /// wall-clock time and the playback clock's present value, and return
    /// the record to publish as a song-change event.
    ///
    /// The playback clock, the emitted trace and the listener table are
    /// untouched; in particular the clock does not decrease.
    pub fn apply_song_start(
        &mut self,
        song: &Song,
        duration_ms: u64,
        rhythm_data: Option<Vec<u8>>,
        now_ms: i64,
    ) -> (ev: CurrentSong)
        requires
            old(self).wf(),
            match rhythm_data {
                Option::Some(b) => b@.len() <= 0x4000_0000_0000_0000,
                Option::None => true,
            },
        ensures
            final(self).wf(),
            final(self).current_song == Option::Some(ev),
            ev.id == song.id,
            ev.title@ == song.title@,
            ev.artist_names == song.artist_names,
            ev.album_title == song.album_title,
            ev.duration_ms == duration_ms,
            ev.started_at_ms == now_ms,
            ev.started_at_position_us == old(self).playback_position.total_duration_us,
            match (ev.rhythm_data, rhythm_data) {
                (Option::Some(s), Option::Some(b)) => s@ == base64_of(b@),
                (Option::None, Option::None) => true,
                _ => false,
            },
            final(self).listeners == old(self).listeners,
            final(self).playback_position == old(self).playback_position,
            final(self).emitted == old(self).emitted,
            final(self).playback_position.total_duration_us >= old(
                self,
            ).playback_position.total_duration_us,
    {
        let encoded = match rhythm_data {
            Option::Some(b) => Option::Some(base64_encode(&b)),
            Option::None => Option::None,
        };
        let ev = CurrentSong {
            id: song.id,
            title: song.title.clone(),
            artist_names: clone_opt_string(&song.artist_names),
            album_title: clone_opt_string(&song.album_title),
            duration_ms,
            started_at_ms: now_ms,
            started_at_position_us: self.playback_position.total_duration_us,
            rhythm_data: encoded,
        };
        self.current_song = Option::Some(ev.duplicate());
        ev
    }

    /// Record one emitted frame: the frame index and the total play time
    /// advance by exactly this frame, and the emitted trace grows by it at
    /// the tail.
    ///
    /// The playback clock is monotonic: it never decreases, here or in any
    /// other transition.
    pub fn apply_frame(&mut self, f: &AudioFrame)
        requires
            old(self).wf(),
            old(self).playback_position.current_frame_index < u64::MAX,
            old(self).playback_position.total_duration_us + f.duration_us <= u128::MAX,
        ensures
            final(self).wf(),
            final(self).emitted@ == old(self).emitted@.push(*f),
            final(self).playback_position.current_frame_index == old(
                self,
            ).playback_position.current_frame_index + 1,
            final(self).playback_position.total_duration_us == old(
                self,
            ).playback_position.total_duration_us + f.duration_us,
            final(self).playback_position.server_start_ms == old(
                self,
            ).playback_position.server_start_ms,
            final(self).current_song == old(self).current_song,
            final(self).listeners == old(self).listeners,
            final(self).playback_position.total_duration_us >= old(
                self,
            ).playback_position.total_duration_us,
    {
        proof {
            lemma_total_duration_push(self.emitted@, *f);
        }
        self.playback_position.advance(f.duration_us);
        self.emitted = Ghost(self.emitted@.push(*f));
    }
}

/// What the broadcaster must do after handling one message.
pub struct BroadcastStep {
    /// A song-change record to publish on the event bus.
    pub event: Option<CurrentSong>,
    /// A frame to publish on the fan-out bus.
    pub frame: Option<AudioFrame>,
    /// Pacing after a frame: the new schedule anchor and how long to sleep.
    pub pacing: Option<PacingOutcome>,
}

/// Handle one message from the hand-off queue: a song start replaces the
/// current song and yields an event to publish; a frame is published,
/// clocked, appended to the burst buffer and paced.
pub fn broadcast_step(
    station: &mut StationData,
    burst: &mut BurstBuffer,
    msg: StreamMessage,
    now_ms: i64,
    next_send_time_us: u64,
    now_us: u64,
) -> (step: BroadcastStep)
    requires
        old(station).wf(),
        old(burst).wf(),
        match msg {
            StreamMessage::Frame(f) => {
                &&& old(station).playback_position.current_frame_index < u64::MAX
                &&& old(station).playback_position.total_duration_us + f.duration_us <= u128::MAX
                &&& next_send_time_us + f.duration_us <= u64::MAX
            },
            StreamMessage::SongStart(_, _, rhythm) => match rhythm {
                Option::Some(b) => b@.len() <= 0x4000_0000_0000_0000,
                Option::None => true,
            },
        },
    ensures
        final(station).wf(),
        final(burst).wf(),
        final(station).playback_position.total_duration_us >= old(
            station,
        ).playback_position.total_duration_us,
        total_duration_us(old(burst)@) <= old(station).playback_position.total_duration_us
            ==> total_duration_us(final(burst)@)
                <= final(station).playback_position.total_duration_us,
        is_suffix_of(old(burst)@, old(station).emitted@) ==> is_suffix_of(
            final(burst)@,
            final(station).emitted@,
        ),
        match msg {
            StreamMessage::SongStart(song, duration_ms, _) => {
                &&& final(burst)@ == old(burst)@
                &&& final(station).emitted == old(station).emitted
                &&& final(station).playback_position == old(station).playback_position
                &&& final(station).listeners == old(station).listeners
                &&& step.frame is None
                &&& step.pacing is None
                &&& match (step.event, final(station).current_song) {
                    (Option::Some(ev), Option::Some(cs)) => ev == cs && ev.id == song.id
                        && ev.duration_ms == duration_ms && ev.started_at_ms == now_ms
                        && ev.started_at_position_us == old(
                        station,
                    ).playback_position.total_duration_us,
                    _ => false,
                }
            },
            StreamMessage::Frame(f) => {
                &&& step.event is None
                &&& final(station).emitted@ == old(station).emitted@.push(f)
                &&& final(station).playback_position.current_frame_index == old(
                    station,
                ).playback_position.current_frame_index + 1
                &&& final(station).playback_position.total_duration_us == old(
                    station,
                ).playback_position.total_duration_us + f.duration_us
                &&& final(station).current_song == old(station).current_song
                &&& final(station).listeners == old(station).listeners
                &&& exists|k: int|
                    0 <= k <= old(burst)@.len() && final(burst)@ == old(burst)@.push(f).skip(k)
                &&& final(burst)@.len() >= 1
                &&& final(burst)@.last() == f
                &&& total_duration_us(old(burst)@) + f.duration_us >= BURST_TARGET_US
                    ==> total_duration_us(final(burst)@) >= BURST_TARGET_US
                &&& match step.frame {
                    Option::Some(out) => out.data@ == f.data@ && out.duration_us == f.duration_us,
                    Option::None => false,
                }
                &&& match step.pacing {
                    Option::Some(p) => p.next_send_time_us == spec_schedule(
                        next_send_time_us as int,
                        f.duration_us as int,
                        now_us as int,
                    ) && (next_send_time_us + f.duration_us >= now_us ==> p.sleep_us
                        == next_send_time_us + f.duration_us - now_us),
                    Option::None => false,
                }
            },
        },
{
    match msg {
        StreamMessage::SongStart(song, duration_ms, rhythm) => {
            let ev = station.apply_song_start(&song, duration_ms, rhythm, now_ms);
            BroadcastStep { event: Option::Some(ev), frame: Option::None, pacing: Option::None }
        },
        StreamMessage::Frame(f) => {
            let ghost e0 = station.emitted@;
            let ghost b0 = burst@;
            let ghost gf = f;
            let out = f.duplicate();
            station.apply_frame(&f);
            let duration_us = f.duration_us;
            burst.push(f);
            proof {
                if is_suffix_of(b0, e0) {
                    let k = choose|k: int| 0 <= k <= e0.len() && b0 == e0.skip(k);
                    let k1 = choose|k1: int|
                        0 <= k1 <= b0.len() && burst@ == b0.push(gf).skip(k1);
                    assert(e0.skip(k).push(gf) =~= e0.push(gf).skip(k));
                    assert(e0.push(gf).skip(k).skip(k1) =~= e0.push(gf).skip(k + k1));
                    assert(burst@ == station.emitted@.skip(k + k1));
                }
            }
            let pacing = schedule_after_frame(next_send_time_us, duration_us, now_us);
            BroadcastStep {
                event: Option::None,
                frame: Option::Some(out),
                pacing: Option::Some(pacing),
            }
        },
    }
}

/// One frame sequence is a contiguous tail of another.
///
/// The broadcaster keeps the burst buffer a contiguous tail of its emitted
/// trace, so what a new subscriber is sent first is always a tail of what
/// was broadcast, in broadcast order.
pub open spec fn is_suffix_of(a: Seq<AudioFrame>, b: Seq<AudioFrame>) -> bool {
    exists|k: int| 0 <= k <= b.len() && a == #[trigger] b.skip(k)
}

/// What a subscriber who joined the fan-out bus at frame index `start` has
/// received once the broadcaster's emitted trace is `emitted`: every frame
/// from `start` on, in emission order.
pub open spec fn subscriber_frames(emitted: Seq<AudioFrame>, start: int) -> Seq<AudioFrame> {
    emitted.skip(start)
}

/// Frame-order preservation: two subscribers who both remain connected
/// through frames `i` and `j` of the emitted trace, with `i` before `j`,
/// both observe frame `i` strictly before frame `j`.
pub proof fn lemma_frame_order_preserved(
    emitted: Seq<AudioFrame>,
    a: int,
    b: int,
    i: int,
    j: int,
)
    requires
        0 <= a <= i,
        0 <= b <= i,
        i < j < emitted.len(),
    ensures
        subscriber_frames(emitted, a)[i - a] == emitted[i],
        subscriber_frames(emitted, a)[j - a] == emitted[j],
        subscriber_frames(emitted, b)[i - b] == emitted[i],
        subscriber_frames(emitted, b)[j - b] == emitted[j],
        i - a < j - a,
        i - b < j - b,
{
}

} // verus!
