//! The burst buffer: the tail of recently broadcast frames that is replayed
//! to each new listener so playback can start immediately.

use vstd::prelude::*;
use std::collections::VecDeque;
use crate::frame::{AudioFrame, total_duration_us, lemma_total_duration_push,
    lemma_total_duration_nonneg, lemma_total_duration_drop_front};
use crate::BURST_TARGET_US;

verus! {

/// The play time, in microseconds, of every frame but the front one.
pub open spec fn tail_duration_us(frames: Seq<AudioFrame>) -> int {
    if frames.len() == 0 {
        0
    } else {
        total_duration_us(frames.drop_first())
    }
}

/// An ordered ring of the most recently broadcast frames, newest at the tail.
///
/// Only the broadcaster writes it. After every push the buffer keeps the
/// least number of frames whose total play time still covers the burst
/// target, so new listeners receive at least the target of catch-up audio
/// and at most one frame more.
pub struct BurstBuffer {
    frames: VecDeque<AudioFrame>,
    /// Cached total play time of `frames`, in microseconds.
    total_us: u128,
}

impl View for BurstBuffer {
    type V = Seq<AudioFrame>;

    closed spec fn view(&self) -> Seq<AudioFrame> {
        self.frames@
    }
}

impl BurstBuffer {
    /// The buffer's invariant: the cached total is exact, and dropping the
    /// front frame would leave strictly less than the burst target.
    pub closed spec fn wf(&self) -> bool {
        &&& self.total_us == total_duration_us(self.frames@)
        &&& tail_duration_us(self.frames@) < BURST_TARGET_US
    }

    /// A well-formed buffer always leaves strictly less than the burst
    /// target behind its front frame.
    pub proof fn lemma_wf_tail(&self)
        requires
            self.wf(),
        ensures
            tail_duration_us(self@) < BURST_TARGET_US,
    {
    }

    /// An empty buffer.
    pub fn new() -> (r: BurstBuffer)
        ensures
            r.wf(),
            r@ == Seq::<AudioFrame>::empty(),
    {
        BurstBuffer { frames: VecDeque::new(), total_us: 0 }
    }

    /// The number of buffered frames.
    pub fn len(&self) -> (r: usize)
        ensures
            r == self@.len(),
    {
        self.frames.len()
    }

    /// The total play time of the buffered frames, in microseconds.
    pub fn total_duration_us(&self) -> (r: u128)
        requires
            self.wf(),
        ensures
            r == total_duration_us(self@),
    {
        self.total_us
    }

    /// Append a frame at the tail, then pop frames from the front while the
    /// buffer would still cover the burst target without them.
    ///
    /// What remains is a contiguous tail of the pushed sequence, ending in
    /// the new frame; and a buffer that covered the burst target keeps
    /// covering it.
    pub fn push(&mut self, f: AudioFrame)
        requires
            old(self).wf(),
        ensures
            final(self).wf(),
            exists|k: int|
                0 <= k <= old(self)@.len() && final(self)@ == old(self)@.push(f).skip(k),
            final(self)@.len() >= 1,
            final(self)@.last() == f,
            total_duration_us(old(self)@) + f.duration_us >= BURST_TARGET_US ==> total_duration_us(
                final(self)@,
            ) >= BURST_TARGET_US,
            total_duration_us(old(self)@) + f.duration_us < BURST_TARGET_US ==> final(self)@
                == old(self)@.push(f),
            total_duration_us(final(self)@) <= total_duration_us(old(self)@) + f.duration_us,
    {
        let ghost pushed = old(self)@.push(f);
        let f_dur = f.duration_us;
        proof {
            lemma_total_duration_push(old(self)@, f);
            lemma_total_duration_nonneg(old(self)@);
            lemma_tail_bounds_total(old(self)@);
        }
        self.frames.push_back(f);
        self.total_us = self.total_us + f_dur as u128;
        let ghost k0: int = 0;
        proof {
            assert(self.frames@ == pushed.skip(0));
        }
        loop
            invariant
                self.total_us == total_duration_us(self.frames@),
                0 <= k0 <= pushed.len() - 1,
                self.frames@ == pushed.skip(k0),
                self.frames@.len() >= 1,
                total_duration_us(pushed) >= BURST_TARGET_US ==> total_duration_us(self.frames@)
                    >= BURST_TARGET_US,
                total_duration_us(pushed) < BURST_TARGET_US ==> self.frames@ == pushed,
            ensures
                self.total_us == total_duration_us(self.frames@),
                0 <= k0 <= pushed.len() - 1,
                self.frames@ == pushed.skip(k0),
                self.frames@.len() >= 1,
                total_duration_us(pushed) >= BURST_TARGET_US ==> total_duration_us(self.frames@)
                    >= BURST_TARGET_US,
                total_duration_us(pushed) < BURST_TARGET_US ==> self.frames@ == pushed,
                tail_duration_us(self.frames@) < BURST_TARGET_US,
            decreases self.frames@.len(),
        {
            let front_dur = self.frames[0].duration_us;
            proof {
                lemma_total_duration_drop_front(self.frames@);
                lemma_total_duration_nonneg(self.frames@.drop_first());
            }
            if !(self.total_us - front_dur as u128 >= BURST_TARGET_US as u128) {
                break;
            }
            self.frames.pop_front();
            self.total_us = self.total_us - front_dur as u128;
            proof {
                assert(pushed.skip(k0).drop_first() =~= pushed.skip(k0 + 1));
                k0 = k0 + 1;
            }
        }
        proof {
            assert(self.frames@.len() == pushed.len() - k0);
            assert(self.frames@.last() == pushed[pushed.len() - 1]);
            crate::frame::lemma_total_skip_le(pushed, k0);
        }
    }

    /// Clone the buffered frames out, in order, oldest first.
    pub fn snapshot(&self) -> (r: Vec<AudioFrame>)
        ensures
            r@.len() == self@.len(),
            forall|i: int|
                0 <= i < r@.len() ==> #[trigger] r@[i].data@ == self@[i].data@ && r@[i].duration_us
                    == self@[i].duration_us,
    {
        let mut out: Vec<AudioFrame> = Vec::new();
        let n = self.frames.len();
        let mut i: usize = 0;
        while i < n
            invariant
                n == self@.len(),
                0 <= i <= n,
                frames_mirror(out@, self@, i as int),
            decreases n - i,
        {
            out.push(self.frames[i].duplicate());
            i = i + 1;
        }
        out
    }

    /// The buffered frames' play time in whole milliseconds, summed per
    /// frame.
    pub fn burst_ms(&self) -> (r: u64)
        requires
            self.wf(),
        ensures
            r == sum_ms(self@),
    {
        let n = self.frames.len();
        let mut acc: u128 = 0;
        let mut i: usize = 0;
        proof {
            assert(self@.take(0) =~= Seq::<AudioFrame>::empty());
            lemma_tail_bounds_total(self@);
        }
        while i < n
            invariant
                self.wf(),
                n == self@.len(),
                0 <= i <= n,
                acc == sum_ms(self@.take(i as int)),
                total_duration_us(self@) < BURST_TARGET_US + u64::MAX,
            decreases n - i,
        {
            proof {
                assert(self@.take(i + 1).drop_last() =~= self@.take(i as int));
                assert(self@.take(i + 1).last() == self@[i as int]);
                lemma_sum_ms_bound(self@.take(i as int));
                lemma_total_take_le(self@, i as int);
            }
            acc = acc + (self.frames[i].duration_us / 1000) as u128;
            i = i + 1;
        }
        proof {
            assert(self@.take(n as int) =~= self@);
            lemma_sum_ms_bound(self@);
        }
        acc as u64
    }
}

/// The first `i` frames of `out` mirror the first `i` frames of `s`.
pub open spec fn frames_mirror(out: Seq<AudioFrame>, s: Seq<AudioFrame>, i: int) -> bool {
    &&& out.len() == i
    &&& forall|j: int|
        0 <= j < i ==> #[trigger] out[j].data@ == s[j].data@ && out[j].duration_us == s[j].duration_us
}

/// The sum over a sequence of frames of each frame's play time in whole
/// milliseconds.
pub open spec fn sum_ms(frames: Seq<AudioFrame>) -> int
    decreases frames.len(),
{
    if frames.len() == 0 {
        0
    } else {
        sum_ms(frames.drop_last()) + frames.last().duration_us / 1000
    }
}

/// Per-frame millisecond truncation never exceeds the total in microseconds
/// divided by one thousand.
pub proof fn lemma_sum_ms_bound(frames: Seq<AudioFrame>)
    ensures
        0 <= sum_ms(frames),
        sum_ms(frames) <= total_duration_us(frames) / 1000,
    decreases frames.len(),
{
    if frames.len() > 0 {
        lemma_sum_ms_bound(frames.drop_last());
        lemma_total_duration_nonneg(frames.drop_last());
    }
}

/// A prefix of a sequence of frames plays for at most as long as the whole.
pub proof fn lemma_total_take_le(frames: Seq<AudioFrame>, i: int)
    requires
        0 <= i <= frames.len(),
    ensures
        total_duration_us(frames.take(i)) <= total_duration_us(frames),
    decreases frames.len() - i,
{
    if i == frames.len() {
        assert(frames.take(i) =~= frames);
    } else {
        assert(frames.take(i + 1).drop_last() =~= frames.take(i));
        assert(frames.take(i + 1).last() == frames[i]);
        lemma_total_take_le(frames, i + 1);
    }
}

/// A well-formed buffer's total play time is bounded by the burst target
/// plus one frame.
pub proof fn lemma_tail_bounds_total(frames: Seq<AudioFrame>)
    requires
        tail_duration_us(frames) < BURST_TARGET_US,
    ensures
        total_duration_us(frames) < BURST_TARGET_US + u64::MAX,
{
    if frames.len() == 0 {
    } else {
        lemma_total_duration_drop_front(frames);
    }
}

} // verus!
