//! Per-listener session records.

use vstd::prelude::*;
use crate::clock::now_utc_ms;
use crate::HEARTBEAT_TIMEOUT_SECONDS;
use vstd::arithmetic::div_mod::{lemma_fundamental_div_mod, lemma_fundamental_div_mod_converse};

verus! {

/// One connected listener, keyed by user id.
pub struct Listener {
    pub user_id: i64,
    pub username: String,
    /// Wall-clock connect time, in milliseconds since the Unix epoch.
    pub connected_at_ms: i64,
    /// Wall-clock time of the last heartbeat received.
    pub last_heartbeat_ms: i64,
    /// The global frame index when this listener connected.
    pub start_frame_index: u64,
    /// How much catch-up audio the listener was sent on connect, in
    /// milliseconds.
    pub burst_buffer_ms: u64,
    /// The global playback clock's value when this listener connected, in
    /// microseconds.
    pub start_total_duration_us: u128,
    /// Wall-clock time up to which listen seconds have been credited.
    pub last_credited_at_ms: i64,
}

/// Whole elapsed seconds in a span of milliseconds, truncated toward zero.
pub open spec fn whole_seconds(delta_ms: int) -> int {
    if delta_ms >= 0 {
        delta_ms / 1000
    } else {
        -((-delta_ms) / 1000)
    }
}

impl Listener {
    /// Whether the listener has gone `timeout_seconds` without a heartbeat
    /// by wall-clock time `now_ms`: more whole elapsed seconds than the
    /// timeout allows.
    pub open spec fn is_stale_spec(&self, timeout_seconds: int, now_ms: int) -> bool {
        whole_seconds(now_ms - self.last_heartbeat_ms) > timeout_seconds
    }

    /// Decide staleness against an explicit clock reading.
    pub fn is_stale_at(&self, timeout_seconds: i64, now_ms: i64) -> (r: bool)
        requires
            0 <= timeout_seconds,
        ensures
            r == self.is_stale_spec(timeout_seconds as int, now_ms as int),
    {
        if now_ms <= self.last_heartbeat_ms {
            false
        } else {
            let elapsed_ms = now_ms as i128 - self.last_heartbeat_ms as i128;
            let elapsed_seconds = (elapsed_ms as u128) / 1000;
            elapsed_seconds > timeout_seconds as u128
        }
    }

    /// Decide staleness against the wall clock now.
    ///
    /// The decision for any given clock reading is `is_stale_at`; nothing
    /// can be promised about the reading itself.
    pub fn is_stale(&self, timeout_seconds: i64) -> bool
        requires
            0 <= timeout_seconds,
    {
        let now_ms = now_utc_ms();
        self.is_stale_at(timeout_seconds, now_ms)
    }

    /// An independent copy.
    pub fn duplicate(&self) -> (r: Listener)
        ensures
            r == *self,
    {
        Listener {
            user_id: self.user_id,
            username: self.username.clone(),
            connected_at_ms: self.connected_at_ms,
            last_heartbeat_ms: self.last_heartbeat_ms,
            start_frame_index: self.start_frame_index,
            burst_buffer_ms: self.burst_buffer_ms,
            start_total_duration_us: self.start_total_duration_us,
            last_credited_at_ms: self.last_credited_at_ms,
        }
    }
}

/// No two listeners in the sequence share a user id.
pub open spec fn ids_unique(s: Seq<Listener>) -> bool {
    forall|i: int, j: int|
        0 <= i < j < s.len() ==> #[trigger] s[i].user_id != #[trigger] s[j].user_id
}

/// Some listener in the sequence has this user id.
pub open spec fn contains_id(s: Seq<Listener>, user_id: i64) -> bool {
    exists|i: int| 0 <= i < s.len() && #[trigger] s[i].user_id == user_id
}

/// The table of connected listeners, one entry per user id.
pub struct ListenerTable {
    entries: Vec<Listener>,
}

impl View for ListenerTable {
    type V = Seq<Listener>;

    closed spec fn view(&self) -> Seq<Listener> {
        self.entries@
    }
}

impl ListenerTable {
    /// An empty table.
    pub fn new() -> (r: ListenerTable)
        ensures
            r@ == Seq::<Listener>::empty(),
            ids_unique(r@),
    {
        ListenerTable { entries: Vec::new() }
    }

    /// How many listeners are connected.
    pub fn len(&self) -> (r: usize)
        ensures
            r == self@.len(),
    {
        self.entries.len()
    }

    /// The listener at a position, for walking the table in order.
    pub fn get_at(&self, i: usize) -> (r: &Listener)
        requires
            i < self@.len(),
        ensures
            *r == self@[i as int],
    {
        &self.entries[i]
    }

    /// Find the position of a user's entry, if the user is connected.
    fn position_of(&self, user_id: i64) -> (r: Option<usize>)
        requires
            ids_unique(self@),
        ensures
            match r {
                Option::Some(i) => i < self@.len() && self@[i as int].user_id == user_id,
                Option::None => !contains_id(self@, user_id),
            },
    {
        let n = self.entries.len();
        let mut i: usize = 0;
        while i < n
            invariant
                n == self@.len(),
                0 <= i <= n,
                forall|j: int| 0 <= j < i ==> #[trigger] self@[j].user_id != user_id,
            decreases n - i,
        {
            if self.entries[i].user_id == user_id {
                return Option::Some(i);
            }
            i = i + 1;
        }
        Option::None
    }

    /// The connected user's entry, if any.
    pub fn get(&self, user_id: i64) -> (r: Option<&Listener>)
        requires
            ids_unique(self@),
        ensures
            match r {
                Option::Some(l) => contains_id(self@, user_id) && l.user_id == user_id && exists|
                    i: int,
                |
                    0 <= i < self@.len() && self@[i] == *l,
                Option::None => !contains_id(self@, user_id),
            },
    {
        match self.position_of(user_id) {
            Option::Some(i) => Option::Some(&self.entries[i]),
            Option::None => Option::None,
        }
    }

    /// Insert the listener, replacing any previous entry for the same user.
    pub fn insert(&mut self, l: Listener)
        requires
            ids_unique(old(self)@),
        ensures
            ids_unique(final(self)@),
            contains_id(final(self)@, l.user_id),
            contains_id(old(self)@, l.user_id) ==> exists|i: int|
                0 <= i < old(self)@.len() && old(self)@[i].user_id == l.user_id && final(self)@
                    == old(self)@.update(i, l),
            !contains_id(old(self)@, l.user_id) ==> final(self)@ == old(self)@.push(l),
    {
        let ghost id = l.user_id;
        match self.position_of(l.user_id) {
            Option::Some(i) => {
                self.entries.set(i, l);
                proof {
                    assert(final(self)@ == old(self)@.update(i as int, l));
                    assert(final(self)@[i as int].user_id == id);
                }
            },
            Option::None => {
                self.entries.push(l);
                proof {
                    assert(final(self)@[final(self)@.len() - 1].user_id == id);
                }
            },
        }
    }

    /// Remove the user's entry if present; say whether one was removed.
    pub fn remove(&mut self, user_id: i64) -> (removed: bool)
        requires
            ids_unique(old(self)@),
        ensures
            ids_unique(final(self)@),
            !contains_id(final(self)@, user_id),
            removed <==> contains_id(old(self)@, user_id),
            removed ==> exists|i: int|
                0 <= i < old(self)@.len() && old(self)@[i].user_id == user_id && final(self)@
                    == old(self)@.remove(i),
            !removed ==> final(self)@ == old(self)@,
    {
        match self.position_of(user_id) {
            Option::Some(i) => {
                self.entries.remove(i);
                proof {
                    assert forall|j: int|
                        0 <= j < final(self)@.len() implies #[trigger] final(self)@[j].user_id
                        != user_id by {
                        if j < i {
                            assert(final(self)@[j] == old(self)@[j]);
                        } else {
                            assert(final(self)@[j] == old(self)@[j + 1]);
                        }
                    }
                }
                true
            },
            Option::None => false,
        }
    }

    /// Record a heartbeat for the user now; say whether the user was found.
    pub fn set_heartbeat(&mut self, user_id: i64, now_ms: i64) -> (found: bool)
        requires
            ids_unique(old(self)@),
        ensures
            ids_unique(final(self)@),
            found <==> contains_id(old(self)@, user_id),
            found ==> exists|i: int|
                0 <= i < old(self)@.len() && old(self)@[i].user_id == user_id && final(self)@
                    == old(self)@.update(
                    i,
                    Listener { last_heartbeat_ms: now_ms, ..old(self)@[i] },
                ),
            !found ==> final(self)@ == old(self)@,
    {
        match self.position_of(user_id) {
            Option::Some(i) => {
                let refreshed = Listener { last_heartbeat_ms: now_ms, ..self.entries[i].duplicate() };
                let ghost updated = old(self)@.update(
                    i as int,
                    Listener { last_heartbeat_ms: now_ms, ..old(self)@[i as int] },
                );
                self.entries.set(i, refreshed);
                proof {
                    assert(final(self)@ =~= updated);
                }
                true
            },
            Option::None => false,
        }
    }

    /// One janitor pass at wall-clock time `now_ms`: evict every listener
    /// whose last heartbeat is older than the heartbeat timeout, then credit
    /// each remaining listener the whole seconds elapsed since it was last
    /// credited, carrying the sub-second remainder.
    ///
    /// Returns the `(user_id, seconds)` credits to apply to the catalog
    /// store.
    pub fn sweep(&mut self, now_ms: i64) -> (credits: Vec<(i64, i64)>)
        requires
            ids_unique(old(self)@),
        ensures
            final(self)@ == sweep_spec(old(self)@, now_ms as int),
            credits@ == sweep_credits_spec(old(self)@, now_ms as int),
            ids_unique(final(self)@),
    {
        let ghost s0 = self.entries@;
        let ghost now = now_ms as int;
        let n = self.entries.len();
        let mut kept: Vec<Listener> = Vec::new();
        let mut credits: Vec<(i64, i64)> = Vec::new();
        let mut i: usize = 0;
        proof {
            assert(s0.take(0) =~= Seq::<Listener>::empty());
        }
        while i < n
            invariant
                self@ == s0,
                now == now_ms as int,
                n == s0.len(),
                0 <= i <= n,
                kept@ == sweep_spec(s0.take(i as int), now),
                credits@ == sweep_credits_spec(s0.take(i as int), now),
            decreases n - i,
        {
            proof {
                assert(s0.take(i + 1).drop_last() =~= s0.take(i as int));
                assert(s0.take(i + 1).last() == s0[i as int]);
            }
            let l = self.entries[i].duplicate();
            if !l.is_stale_at(HEARTBEAT_TIMEOUT_SECONDS, now_ms) {
                let elapsed: i128 = now_ms as i128 - l.last_credited_at_ms as i128;
                if elapsed >= 1000 {
                    proof {
                        lemma_fundamental_div_mod(elapsed as int, 1000);
                        assert(0 <= elapsed as int % 1000 < 1000);
                        assert(1000 * (elapsed as int / 1000) <= elapsed as int);
                        assert(elapsed as int / 1000 < 0x8000_0000_0000_0000);
                    }
                    let seconds: u128 = (elapsed as u128) / 1000;
                    proof {
                        assert(seconds == elapsed as int / 1000);
                    }
                    let credit: i64 = seconds as i64;
                    let advanced: i64 = (l.last_credited_at_ms as i128 + (credit as i128) * 1000)
                        as i64;
                    proof {
                        assert(credit == credit_of(s0[i as int], now));
                        assert(l.last_credited_at_ms + 1000 * credit <= now_ms);
                    }
                    credits.push((l.user_id, credit));
                    kept.push(Listener { last_credited_at_ms: advanced, ..l });
                } else if elapsed < 0 {
                    kept.push(Listener { last_credited_at_ms: now_ms, ..l });
                } else {
                    kept.push(l);
                }
            }
            i = i + 1;
        }
        proof {
            assert(s0.take(n as int) =~= s0);
            lemma_sweep_ids_unique(s0, now);
        }
        self.entries = kept;
        credits
    }
}

/// The seconds credited to a listener by a janitor pass at `now_ms`: the
/// whole seconds elapsed since the listener was last credited, or none
/// before a full second has passed (or if the clock ran backwards).
pub open spec fn credit_of(l: Listener, now_ms: int) -> int {
    if now_ms - l.last_credited_at_ms >= 1000 {
        (now_ms - l.last_credited_at_ms) / 1000
    } else {
        0
    }
}

/// A surviving listener after a janitor pass at `now_ms`: credited time
/// advances by exactly the credited whole seconds, keeping the sub-second
/// remainder; a listener whose credit anchor lies in the future is reset to
/// the present.
pub open spec fn swept_listener(l: Listener, now_ms: int) -> Listener {
    if now_ms - l.last_credited_at_ms < 0 {
        Listener { last_credited_at_ms: now_ms as i64, ..l }
    } else {
        Listener {
            last_credited_at_ms: (l.last_credited_at_ms + 1000 * credit_of(l, now_ms)) as i64,
            ..l
        }
    }
}

/// The listener table after a janitor pass: stale listeners dropped, the
/// rest swept, in order.
pub open spec fn sweep_spec(s: Seq<Listener>, now_ms: int) -> Seq<Listener>
    decreases s.len(),
{
    if s.len() == 0 {
        Seq::<Listener>::empty()
    } else {
        let rest = sweep_spec(s.drop_last(), now_ms);
        if s.last().is_stale_spec(HEARTBEAT_TIMEOUT_SECONDS as int, now_ms) {
            rest
        } else {
            rest.push(swept_listener(s.last(), now_ms))
        }
    }
}

/// The credits a janitor pass reports: one `(user_id, seconds)` pair for
/// each surviving listener owed at least one whole second.
pub open spec fn sweep_credits_spec(s: Seq<Listener>, now_ms: int) -> Seq<(i64, i64)>
    decreases s.len(),
{
    if s.len() == 0 {
        Seq::<(i64, i64)>::empty()
    } else {
        let rest = sweep_credits_spec(s.drop_last(), now_ms);
        let l = s.last();
        if !l.is_stale_spec(HEARTBEAT_TIMEOUT_SECONDS as int, now_ms) && credit_of(l, now_ms) > 0 {
            rest.push((l.user_id, credit_of(l, now_ms) as i64))
        } else {
            rest
        }
    }
}

/// One janitor pass advances the credit anchor by exactly the credited
/// seconds and leaves less than one second uncredited.
pub proof fn lemma_credit_step(l: Listener, now_ms: int)
    requires
        l.last_credited_at_ms <= now_ms,
        i64::MIN <= now_ms <= i64::MAX,
    ensures
        credit_of(l, now_ms) >= 0,
        swept_listener(l, now_ms).last_credited_at_ms == l.last_credited_at_ms + 1000 * credit_of(
            l,
            now_ms,
        ),
        0 <= now_ms - swept_listener(l, now_ms).last_credited_at_ms < 1000,
        swept_listener(l, now_ms).user_id == l.user_id,
        swept_listener(l, now_ms).connected_at_ms == l.connected_at_ms,
        swept_listener(l, now_ms).last_heartbeat_ms == l.last_heartbeat_ms,
{
    let e = now_ms - l.last_credited_at_ms;
    if e >= 1000 {
        lemma_fundamental_div_mod(e, 1000);
        assert(0 <= e % 1000 < 1000);
        assert(1000 * (e / 1000) == e - e % 1000);
    } else {
        lemma_fundamental_div_mod_converse(e, 1000, 0, e);
    }
}

/// The listener's state after successive janitor passes at the given
/// wall-clock times.
pub open spec fn run_listener(l: Listener, times: Seq<int>) -> Listener
    decreases times.len(),
{
    if times.len() == 0 {
        l
    } else {
        swept_listener(run_listener(l, times.drop_last()), times.last())
    }
}

/// The total seconds credited to the listener over successive janitor
/// passes at the given wall-clock times.
pub open spec fn run_credits(l: Listener, times: Seq<int>) -> int
    decreases times.len(),
{
    if times.len() == 0 {
        0
    } else {
        run_credits(l, times.drop_last()) + credit_of(run_listener(l, times.drop_last()), times.last())
    }
}

/// The janitor pass times never decrease and stay in the machine range.
pub open spec fn times_valid(l: Listener, times: Seq<int>) -> bool {
    &&& forall|i: int| 0 <= i < times.len() ==> i64::MIN <= #[trigger] times[i] <= i64::MAX
    &&& forall|i: int| 0 <= i < times.len() - 1 ==> #[trigger] times[i] <= times[i + 1]
    &&& times.len() > 0 ==> l.last_credited_at_ms <= times[0]
}

/// The credit ledger: over any run of janitor passes, the credited seconds
/// sum to exactly the whole seconds between the listener's starting credit
/// anchor and the last pass — sub-second remainders carry across passes and
/// nothing is credited twice.
pub proof fn lemma_credit_ledger(l: Listener, times: Seq<int>)
    requires
        times.len() > 0,
        times_valid(l, times),
    ensures
        1000 * run_credits(l, times) == run_listener(l, times).last_credited_at_ms
            - l.last_credited_at_ms,
        run_credits(l, times) == (times.last() - l.last_credited_at_ms) / 1000,
        0 <= times.last() - run_listener(l, times).last_credited_at_ms < 1000,
    decreases times.len(),
{
    if times.len() == 1 {
        assert(times.drop_last().len() == 0);
        assert(run_listener(l, times.drop_last()) == l);
        assert(run_credits(l, times.drop_last()) == 0);
        lemma_credit_step(l, times.last());
        lemma_div_exact_with_remainder(
            times.last() - l.last_credited_at_ms,
            credit_of(l, times.last()),
            times.last() - swept_listener(l, times.last()).last_credited_at_ms,
        );
    } else {
        let prior = times.drop_last();
        assert(times_valid(l, prior)) by {
            assert(forall|i: int|
                0 <= i < prior.len() - 1 ==> #[trigger] prior[i] <= prior[i + 1]);
        }
        lemma_credit_ledger(l, prior);
        let mid = run_listener(l, prior);
        assert(prior.last() == times[times.len() - 2]);
        assert(times[times.len() - 2] <= times[times.len() - 1]);
        assert(mid.last_credited_at_ms <= times.last());
        lemma_credit_step(mid, times.last());
        lemma_div_exact_with_remainder(
            times.last() - l.last_credited_at_ms,
            run_credits(l, times),
            times.last() - run_listener(l, times).last_credited_at_ms,
        );
    }
}

/// If a span splits into a multiple of a thousand plus a remainder below a
/// thousand, dividing it by a thousand yields exactly that multiple.
proof fn lemma_div_exact_with_remainder(span: int, q: int, r: int)
    requires
        span == 1000 * q + r,
        0 <= r < 1000,
    ensures
        span / 1000 == q,
{
    lemma_fundamental_div_mod_converse(span, 1000, q, r);
}

/// Every user id in the swept table was in the table before the pass.
pub proof fn lemma_sweep_ids_subset(s: Seq<Listener>, now_ms: int, user_id: i64)
    requires
        contains_id(sweep_spec(s, now_ms), user_id),
    ensures
        contains_id(s, user_id),
    decreases s.len(),
{
    if s.len() > 0 {
        let swept = sweep_spec(s, now_ms);
        let rest = sweep_spec(s.drop_last(), now_ms);
        if s.last().is_stale_spec(HEARTBEAT_TIMEOUT_SECONDS as int, now_ms) {
            lemma_sweep_ids_subset(s.drop_last(), now_ms, user_id);
            let i = choose|i: int| 0 <= i < s.drop_last().len() && #[trigger] s.drop_last()[i].user_id == user_id;
            assert(s[i].user_id == user_id);
        } else {
            let k = choose|k: int| 0 <= k < swept.len() && #[trigger] swept[k].user_id == user_id;
            if k < rest.len() {
                lemma_sweep_ids_subset(s.drop_last(), now_ms, user_id);
                let i = choose|i: int| 0 <= i < s.drop_last().len() && #[trigger] s.drop_last()[i].user_id == user_id;
                assert(s[i].user_id == user_id);
            } else {
                assert(s[s.len() - 1].user_id == user_id);
            }
        }
    }
}

/// Janitor eviction: a listener whose last heartbeat has gone stale is
/// absent from the table as soon as a janitor pass runs.
pub proof fn lemma_janitor_eviction(s: Seq<Listener>, now_ms: int, i: int)
    requires
        ids_unique(s),
        0 <= i < s.len(),
        s[i].is_stale_spec(HEARTBEAT_TIMEOUT_SECONDS as int, now_ms),
    ensures
        !contains_id(sweep_spec(s, now_ms), s[i].user_id),
    decreases s.len(),
{
    let id = s[i].user_id;
    let rest = sweep_spec(s.drop_last(), now_ms);
    if i == s.len() - 1 {
        if contains_id(rest, id) {
            lemma_sweep_ids_subset(s.drop_last(), now_ms, id);
            let j = choose|j: int|
                0 <= j < s.drop_last().len() && #[trigger] s.drop_last()[j].user_id == id;
            assert(s[j].user_id == s[i].user_id);
            assert(false);
        }
        if !s.last().is_stale_spec(HEARTBEAT_TIMEOUT_SECONDS as int, now_ms) {
            assert(false);
        }
    } else {
        assert(ids_unique(s.drop_last()));
        assert(s.drop_last()[i] == s[i]);
        lemma_janitor_eviction(s.drop_last(), now_ms, i);
        if !s.last().is_stale_spec(HEARTBEAT_TIMEOUT_SECONDS as int, now_ms) {
            let swept = sweep_spec(s, now_ms);
            if contains_id(swept, id) {
                let k = choose|k: int| 0 <= k < swept.len() && #[trigger] swept[k].user_id == id;
                if k < rest.len() {
                    assert(contains_id(rest, id));
                } else {
                    assert(swept[k] == swept_listener(s.last(), now_ms));
                    assert(s[s.len() - 1].user_id == s[i].user_id);
                }
                assert(false);
            }
        }
    }
}

/// Janitor retention: a listener still heart-beating survives the pass,
/// swept but with the same identity, connect time and heartbeat.
pub proof fn lemma_janitor_retention(s: Seq<Listener>, now_ms: int, i: int)
    requires
        ids_unique(s),
        0 <= i < s.len(),
        !s[i].is_stale_spec(HEARTBEAT_TIMEOUT_SECONDS as int, now_ms),
    ensures
        contains_id(sweep_spec(s, now_ms), s[i].user_id),
        exists|k: int|
            0 <= k < sweep_spec(s, now_ms).len() && #[trigger] sweep_spec(s, now_ms)[k]
                == swept_listener(s[i], now_ms),
    decreases s.len(),
{
    let swept = sweep_spec(s, now_ms);
    let rest = sweep_spec(s.drop_last(), now_ms);
    if i == s.len() - 1 {
        assert(swept[swept.len() - 1] == swept_listener(s[i], now_ms));
        assert(swept[swept.len() - 1].user_id == s[i].user_id);
    } else {
        assert(ids_unique(s.drop_last()));
        assert(s.drop_last()[i] == s[i]);
        lemma_janitor_retention(s.drop_last(), now_ms, i);
        let k = choose|k: int|
            0 <= k < rest.len() && #[trigger] rest[k] == swept_listener(s[i], now_ms);
        if s.last().is_stale_spec(HEARTBEAT_TIMEOUT_SECONDS as int, now_ms) {
            assert(swept[k] == swept_listener(s[i], now_ms));
        } else {
            assert(swept[k] == swept_listener(s[i], now_ms));
        }
        assert(swept[k].user_id == s[i].user_id);
    }
}

/// Every entry of the swept table is some surviving entry of the old
/// table, swept.
pub proof fn lemma_sweep_sources(s: Seq<Listener>, now_ms: int)
    ensures
        forall|k: int|
            0 <= k < sweep_spec(s, now_ms).len() ==> exists|i: int|
                0 <= i < s.len() && #[trigger] sweep_spec(s, now_ms)[k] == swept_listener(
                    s[i],
                    now_ms,
                ),
    decreases s.len(),
{
    if s.len() > 0 {
        lemma_sweep_sources(s.drop_last(), now_ms);
        let swept = sweep_spec(s, now_ms);
        let rest = sweep_spec(s.drop_last(), now_ms);
        assert forall|k: int| 0 <= k < swept.len() implies exists|i: int|
            0 <= i < s.len() && #[trigger] swept[k] == swept_listener(s[i], now_ms) by {
            if k < rest.len() {
                let i = choose|i: int|
                    0 <= i < s.drop_last().len() && #[trigger] rest[k] == swept_listener(
                        s.drop_last()[i],
                        now_ms,
                    );
                assert(swept[k] == swept_listener(s[i], now_ms));
            } else {
                assert(swept[k] == swept_listener(s[s.len() - 1], now_ms));
            }
        }
    }
}

/// A janitor pass keeps user ids unique.
pub proof fn lemma_sweep_ids_unique(s: Seq<Listener>, now_ms: int)
    requires
        ids_unique(s),
    ensures
        ids_unique(sweep_spec(s, now_ms)),
    decreases s.len(),
{
    if s.len() > 0 {
        assert(ids_unique(s.drop_last()));
        lemma_sweep_ids_unique(s.drop_last(), now_ms);
        let swept = sweep_spec(s, now_ms);
        let rest = sweep_spec(s.drop_last(), now_ms);
        if !s.last().is_stale_spec(HEARTBEAT_TIMEOUT_SECONDS as int, now_ms) {
            let id = s.last().user_id;
            if contains_id(rest, id) {
                lemma_sweep_ids_subset(s.drop_last(), now_ms, id);
                let i = choose|i: int| 0 <= i < s.drop_last().len() && #[trigger] s.drop_last()[i].user_id == id;
                assert(s[i].user_id == s[s.len() - 1].user_id);
                assert(false);
            }
            assert forall|i: int, j: int| 0 <= i < j < swept.len() implies #[trigger] swept[i].user_id
                != #[trigger] swept[j].user_id by {
                if j < rest.len() {
                } else {
                    assert(swept[j] == swept_listener(s.last(), now_ms));
                    assert(swept[i] == rest[i]);
                    if swept[i].user_id == id {
                        assert(contains_id(rest, id));
                    }
                }
            }
        }
    }
}

} // verus!
