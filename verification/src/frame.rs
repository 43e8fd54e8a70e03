//! Timed audio frames and the messages the producer hands to the broadcaster.

use vstd::prelude::*;

verus! {

/// One encoded audio packet together with its precise play time.
///
/// The bytes are the raw encoded packet exactly as read from the file; the
/// duration is how long the packet plays, in microseconds.
pub struct AudioFrame {
    pub data: Vec<u8>,
    pub duration_us: u64,
}

impl AudioFrame {
    /// An independent copy with the same bytes and duration.
    pub fn duplicate(&self) -> (r: AudioFrame)
        ensures
            r.data@ == self.data@,
            r.duration_us == self.duration_us,
    {
        AudioFrame { data: vstd::slice::slice_to_vec(self.data.as_slice()), duration_us: self.duration_us }
    }
}

/// The total play time, in microseconds, of a sequence of frames.
pub open spec fn total_duration_us(frames: Seq<AudioFrame>) -> int
    decreases frames.len(),
{
    if frames.len() == 0 {
        0
    } else {
        total_duration_us(frames.drop_last()) + frames.last().duration_us
    }
}

/// Appending a frame adds exactly its duration to the total.
pub proof fn lemma_total_duration_push(frames: Seq<AudioFrame>, f: AudioFrame)
    ensures
        total_duration_us(frames.push(f)) == total_duration_us(frames) + f.duration_us,
{
    assert(frames.push(f).drop_last() =~= frames);
}

/// The total duration of a sequence of frames is never negative.
pub proof fn lemma_total_duration_nonneg(frames: Seq<AudioFrame>)
    ensures
        total_duration_us(frames) >= 0,
    decreases frames.len(),
{
    if frames.len() > 0 {
        lemma_total_duration_nonneg(frames.drop_last());
    }
}

/// A tail of a sequence of frames plays for at most as long as the whole.
pub proof fn lemma_total_skip_le(frames: Seq<AudioFrame>, k: int)
    requires
        0 <= k <= frames.len(),
    ensures
        total_duration_us(frames.skip(k)) <= total_duration_us(frames),
    decreases k,
{
    if k == 0 {
        assert(frames.skip(0) =~= frames);
    } else {
        lemma_total_skip_le(frames, k - 1);
        assert(frames.skip(k - 1).drop_first() =~= frames.skip(k));
        lemma_total_duration_drop_front(frames.skip(k - 1));
    }
}

/// Removing the front frame removes exactly its duration from the total.
pub proof fn lemma_total_duration_drop_front(frames: Seq<AudioFrame>)
    requires
        frames.len() > 0,
    ensures
        total_duration_us(frames.drop_first()) == total_duration_us(frames) - frames[0].duration_us,
    decreases frames.len(),
{
    if frames.len() == 1 {
        assert(frames.drop_first() =~= Seq::<AudioFrame>::empty());
    } else {
        lemma_total_duration_drop_front(frames.drop_last());
        assert(frames.drop_last().drop_first() =~= frames.drop_first().drop_last());
        assert(frames.drop_last()[0] == frames[0]);
        assert(frames.drop_first().last() == frames.last());
        assert(total_duration_us(frames.drop_first()) == total_duration_us(
            frames.drop_first().drop_last(),
        ) + frames.drop_first().last().duration_us);
        assert(total_duration_us(frames) == total_duration_us(frames.drop_last())
            + frames.last().duration_us);
    }
}

} // verus!
