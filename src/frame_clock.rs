use vstd::prelude::*;

verus! {

/// Number of frame deltas that the clock averages over.
pub const WINDOW: usize = 50;

/// One sixtieth of a second in nanoseconds, rounded: the warm-up delta.
pub const WARMUP_DELTA_NS: u64 = 16_666_667;

/// Nanoseconds per second, times one thousand (fps is reported in millihertz).
pub const NS_MILLIHZ: u128 = 1_000_000_000_000;

/// Sum of a sequence of deltas.
pub open spec fn sum(s: Seq<u64>) -> int
    decreases s.len(),
{
    if s.len() == 0 {
        0
    } else {
        sum(s.drop_last()) + s.last()
    }
}

/// Frames per second, in millihertz, of a window of deltas: the inverse of their
/// mean, or `None` when the window spans no time at all.
pub open spec fn fps_milli(s: Seq<u64>) -> Option<int> {
    if sum(s) == 0 {
        None
    } else {
        Some((s.len() * NS_MILLIHZ) as int / sum(s))
    }
}

/// `r` reports the rate of window `w`.
pub open spec fn reports_fps(r: Option<u64>, w: Seq<u64>) -> bool {
    match r {
        Some(v) => fps_milli(w) == Some(v as int),
        None => fps_milli(w) is None,
    }
}

/// The window before any frame was measured.
pub open spec fn warmup_window() -> Seq<u64> {
    Seq::new(WINDOW as nat, |i: int| WARMUP_DELTA_NS)
}

/// The window after feeding the deltas `ds`, in order, into a window `start`.
pub open spec fn fed(start: Seq<u64>, ds: Seq<u64>) -> Seq<u64>
    decreases ds.len(),
{
    if ds.len() == 0 {
        start
    } else {
        fed(start, ds.drop_last()).drop_first().push(ds.last())
    }
}

/// The time elapsed from `last` to `now`, or zero when the clock went backwards.
pub open spec fn clamped_delta(now: u64, last: u64) -> u64 {
    if now >= last {
        (now - last) as u64
    } else {
        0
    }
}


/// Feeding deltas into a window of `WINDOW` entries keeps it at exactly `WINDOW`
/// entries, holding the newest `WINDOW` of the start window followed by the deltas.
/// Once at least `WINDOW` deltas have been fed, the window is the last `WINDOW` of
/// them, and the rate is the inverse of their mean.
pub proof fn lemma_window_holds_last_deltas(start: Seq<u64>, ds: Seq<u64>)
    requires
        start.len() == WINDOW,
    ensures
        fed(start, ds).len() == WINDOW,
        fed(start, ds) == (start + ds).subrange(ds.len() as int, ds.len() + WINDOW),
        ds.len() >= WINDOW ==> fed(start, ds) == ds.subrange(ds.len() - WINDOW, ds.len() as int),
        ds.len() >= WINDOW ==> fps_milli(fed(start, ds)) == fps_milli(
            ds.subrange(ds.len() - WINDOW, ds.len() as int),
        ),
    decreases ds.len(),
{
    let n = ds.len() as int;
    if n == 0 {
        assert((start + ds).subrange(0, WINDOW as int) =~= start);
    } else {
        let prev = ds.drop_last();
        lemma_window_holds_last_deltas(start, prev);
        assert((start + prev).subrange(n - 1, n - 1 + WINDOW).drop_first().push(ds.last())
            =~= (start + ds).subrange(n, n + WINDOW));
    }
    if n >= WINDOW {
        assert((start + ds).subrange(n, n + WINDOW) =~= ds.subrange(n - WINDOW, n));
    }
}

/// Sliding window of the most recent frame deltas, kept in a ring written at a cursor.
pub struct FrameClock {
    deltas: Vec<u64>,
    cursor: usize,
    last_instant: u64,
}

impl View for FrameClock {
    type V = Seq<u64>;

    /// The window, oldest delta first.
    closed spec fn view(&self) -> Seq<u64> {
        Seq::new(WINDOW as nat, |i: int| self.deltas@[(self.cursor + i) % (WINDOW as int)])
    }
}

/// A sum of `n` deltas is at most `n` times the largest delta.
pub proof fn lemma_sum_bound(s: Seq<u64>)
    ensures
        0 <= sum(s) <= s.len() * (u64::MAX as int),
    decreases s.len(),
{
    if s.len() > 0 {
        lemma_sum_bound(s.drop_last());
    }
}

impl FrameClock {
    pub closed spec fn wf(&self) -> bool {
        &&& self.deltas@.len() == WINDOW
        &&& self.cursor < WINDOW
    }

    /// The instant of the last measured frame, in nanoseconds.
    pub closed spec fn last(&self) -> u64 {
        self.last_instant
    }

    /// A clock started at `now_ns`, its window filled with warm-up deltas.
    pub fn new(now_ns: u64) -> (r: FrameClock)
        ensures
            r.wf(),
            r@ == warmup_window(),
            r.last() == now_ns,
    {
        let mut deltas: Vec<u64> = Vec::new();
        let mut i: usize = 0;
        while i < WINDOW
            invariant
                i <= WINDOW,
                deltas@.len() == i,
                forall|j: int| 0 <= j < i ==> deltas@[j] == WARMUP_DELTA_NS,
            decreases WINDOW - i,
        {
            deltas.push(WARMUP_DELTA_NS);
            i = i + 1;
        }
        let r = FrameClock { deltas, cursor: 0, last_instant: now_ns };
        assert(r@ =~= warmup_window());
        r
    }

    pub fn last_instant(&self) -> (r: u64)
        ensures
            r == self.last(),
    {
        self.last_instant
    }

    /// Pushes one delta into the window, dropping the oldest.
    pub fn record(&mut self, delta: u64)
        requires
            old(self).wf(),
        ensures
            final(self).wf(),
            final(self)@ == old(self)@.drop_first().push(delta),
            final(self).last() == old(self).last(),
    {
        let ghost before = self@;
        let c = self.cursor;
        self.deltas.set(c, delta);
        self.cursor = if c + 1 == WINDOW { 0 } else { c + 1 };
        assert forall|i: int| 0 <= i < WINDOW implies #[trigger] self@[i] == before.drop_first().push(delta)[i] by {
            if i < WINDOW - 1 {
                assert((self.cursor + i) % (WINDOW as int) == (c + 1 + i) % (WINDOW as int));
                assert((c + 1 + i) % (WINDOW as int) != c);
            } else {
                assert((self.cursor + i) % (WINDOW as int) == c);
            }
        }
        assert(self@ =~= before.drop_first().push(delta));
    }

    /// Time elapsed since the last measured frame; the clock does not advance.
    pub fn elapsed(&self, now_ns: u64) -> (r: u64)
        ensures
            r == clamped_delta(now_ns, self.last()),
    {
        if now_ns >= self.last_instant {
            now_ns - self.last_instant
        } else {
            0
        }
    }

    /// Measures a new frame at `now_ns`: the delta since the last one (zero if
    /// time went backwards) enters the window and `now_ns` becomes the last instant.
    pub fn tick(&mut self, now_ns: u64) -> (d: u64)
        requires
            old(self).wf(),
        ensures
            d == clamped_delta(now_ns, old(self).last()),
            final(self).wf(),
            final(self)@ == old(self)@.drop_first().push(d),
            final(self).last() == now_ns,
    {
        let d = self.elapsed(now_ns);
        self.record(d);
        self.last_instant = now_ns;
        d
    }

    /// Sum of the deltas in the window, in nanoseconds.
    pub fn total_ns(&self) -> (r: u128)
        requires
            self.wf(),
        ensures
            r == sum(self@),
    {
        let mut total: u128 = 0;
        let mut i: usize = 0;
        while i < WINDOW
            invariant
                self.wf(),
                i <= WINDOW,
                total == sum(self@.take(i as int)),
            decreases WINDOW - i,
        {
            proof {
                lemma_sum_bound(self@.take(i as int));
                assert(self@.take(i as int + 1).drop_last() =~= self@.take(i as int));
            }
            let k = if self.cursor + i >= WINDOW { self.cursor + i - WINDOW } else { self.cursor + i };
            assert(k == (self.cursor + i) % (WINDOW as int));
            total = total + self.deltas[k] as u128;
            i = i + 1;
        }
        assert(self@.take(WINDOW as int) =~= self@);
        total
    }

    /// Frames per second in millihertz: the number of deltas in the window times
    /// 10^12, divided by their sum in nanoseconds; `None` when the sum is zero.
    pub fn fps_milli(&self) -> (r: Option<u64>)
        requires
            self.wf(),
        ensures
            reports_fps(r, self@),
    {
        let total = self.total_ns();
        if total == 0 {
            None
        } else {
            let n = WINDOW as u128 * NS_MILLIHZ;
            let q = n / total;
            assert(q <= n) by (nonlinear_arith)
                requires q == n / total, total >= 1;
            Some(q as u64)
        }
    }
}

} // verus!
