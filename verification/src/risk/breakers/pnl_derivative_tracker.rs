//! PnL derivative tracker.
//!
//! Tracks the first derivative (velocity) and second derivative
//! (acceleration) of PnL, in micro-USD, over the last ten samples, as an
//! early warning before the velocity breaker trips.

use vstd::prelude::*;

use crate::risk::breakers::velocity_of_loss::{div_toward_zero, NANOS_PER_MS};

verus! {

/// Number of samples kept.
pub const DERIVATIVE_SAMPLES: usize = 10;

/// The abstract content of the sample buffer.
pub struct DerivativeBufferView {
    pub timestamps_ns: Seq<u64>,
    pub pnl_micro_usd: Seq<i64>,
    pub head: int,
    pub count: int,
}

/// The buffer is well formed.
pub open spec fn buffer_wf(b: DerivativeBufferView) -> bool {
    &&& b.timestamps_ns.len() == DERIVATIVE_SAMPLES
    &&& b.pnl_micro_usd.len() == DERIVATIVE_SAMPLES
    &&& 0 <= b.head < DERIVATIVE_SAMPLES
    &&& 0 <= b.count <= DERIVATIVE_SAMPLES
}

/// The buffer after writing a sample at the head.
pub open spec fn buffer_pushed(b: DerivativeBufferView, ts: u64, pnl: i64) -> DerivativeBufferView {
    DerivativeBufferView {
        timestamps_ns: b.timestamps_ns.update(b.head, ts),
        pnl_micro_usd: b.pnl_micro_usd.update(b.head, pnl),
        head: (b.head + 1) % (DERIVATIVE_SAMPLES as int),
        count: if b.count < DERIVATIVE_SAMPLES { b.count + 1 } else { b.count },
    }
}

/// Index of the newest sample.
pub open spec fn newest_sample(b: DerivativeBufferView) -> int {
    if b.head == 0 { DERIVATIVE_SAMPLES - 1 } else { b.head - 1 }
}

/// Index of the oldest sample.
pub open spec fn oldest_sample(b: DerivativeBufferView) -> int {
    (b.head + DERIVATIVE_SAMPLES - b.count) % (DERIVATIVE_SAMPLES as int)
}

/// Index of the middle sample.
pub open spec fn middle_sample(b: DerivativeBufferView) -> int {
    (b.head + DERIVATIVE_SAMPLES - b.count / 2) % (DERIVATIVE_SAMPLES as int)
}

/// Nanoseconds from sample `from` to sample `to` (0 when `to` is earlier).
pub open spec fn segment_ns(b: DerivativeBufferView, from: int, to: int) -> u64 {
    b.timestamps_ns[to].saturating_sub(b.timestamps_ns[from])
}

/// The segment's slope can be computed: the PnL change fits in 64 bits, and
/// the time between the samples is zero or at least a millisecond.
pub open spec fn segment_defined(b: DerivativeBufferView, from: int, to: int) -> bool {
    &&& i64::MIN <= b.pnl_micro_usd[to] - b.pnl_micro_usd[from] <= i64::MAX
    &&& (segment_ns(b, from, to) == 0 || segment_ns(b, from, to) >= NANOS_PER_MS)
}

/// Slope between two samples in micro-USD per whole millisecond, 0 when no
/// time passed between them.
pub open spec fn segment_slope(b: DerivativeBufferView, from: int, to: int) -> int {
    if segment_ns(b, from, to) == 0 {
        0
    } else {
        div_toward_zero(
            b.pnl_micro_usd[to] - b.pnl_micro_usd[from],
            (segment_ns(b, from, to) / NANOS_PER_MS) as int,
        )
    }
}

/// First derivative: slope from the oldest to the newest sample.
pub open spec fn first_derivative_of(b: DerivativeBufferView) -> int {
    if b.count < 2 { 0 } else { segment_slope(b, oldest_sample(b), newest_sample(b)) }
}

/// Second derivative: slope of the later half minus slope of the earlier
/// half.
pub open spec fn second_derivative_of(b: DerivativeBufferView) -> int {
    if b.count < 3 {
        0
    } else {
        segment_slope(b, middle_sample(b), newest_sample(b)) - segment_slope(b, oldest_sample(b), middle_sample(b))
    }
}

/// Both derivatives can be computed without overflow or division by zero.
pub open spec fn derivatives_defined(b: DerivativeBufferView) -> bool {
    &&& b.count >= 2 ==> segment_defined(b, oldest_sample(b), newest_sample(b))
    &&& b.count >= 3 ==> {
        &&& segment_defined(b, oldest_sample(b), middle_sample(b))
        &&& segment_defined(b, middle_sample(b), newest_sample(b))
        &&& i64::MIN <= second_derivative_of(b) <= i64::MAX
    }
}

struct DerivativeBuffer {
    timestamps_ns: Vec<u64>,
    pnl_micro_usd: Vec<i64>,
    head: usize,
    count: usize,
}

impl DerivativeBuffer {
    spec fn view(&self) -> DerivativeBufferView {
        DerivativeBufferView {
            timestamps_ns: self.timestamps_ns@,
            pnl_micro_usd: self.pnl_micro_usd@,
            head: self.head as int,
            count: self.count as int,
        }
    }

    fn new() -> (r: Self)
        ensures
            buffer_wf(r.view()),
            r.view().count == 0,
            r.view().head == 0,
    {
        let mut timestamps_ns: Vec<u64> = Vec::new();
        let mut pnl_micro_usd: Vec<i64> = Vec::new();
        let mut i: usize = 0;
        while i < DERIVATIVE_SAMPLES
            invariant
                i <= DERIVATIVE_SAMPLES,
                timestamps_ns@.len() == i,
                pnl_micro_usd@.len() == i,
            decreases DERIVATIVE_SAMPLES - i,
        {
            timestamps_ns.push(0);
            pnl_micro_usd.push(0);
            i = i + 1;
        }
        DerivativeBuffer { timestamps_ns, pnl_micro_usd, head: 0, count: 0 }
    }

    fn push(&mut self, ts: u64, pnl: i64)
        requires
            buffer_wf(old(self).view()),
        ensures
            final(self).view() == buffer_pushed(old(self).view(), ts, pnl),
            buffer_wf(final(self).view()),
    {
        self.timestamps_ns.set(self.head, ts);
        self.pnl_micro_usd.set(self.head, pnl);
        self.head = (self.head + 1) % DERIVATIVE_SAMPLES;
        if self.count < DERIVATIVE_SAMPLES {
            self.count = self.count + 1;
        }
    }

    fn checked_slope(&self, from: usize, to: usize) -> (r: Option<i64>)
        requires
            buffer_wf(self.view()),
            from < DERIVATIVE_SAMPLES,
            to < DERIVATIVE_SAMPLES,
        ensures
            r is Some <==> segment_defined(self.view(), from as int, to as int),
            r matches Some(v) ==> v == segment_slope(self.view(), from as int, to as int),
    {
        let delta_pnl = match self.pnl_micro_usd[to].checked_sub(self.pnl_micro_usd[from]) {
            Some(d) => d,
            None => {
                return None;
            },
        };
        let delta_ts = self.timestamps_ns[to].saturating_sub(self.timestamps_ns[from]);
        if delta_ts == 0 {
            return Some(0);
        }
        if delta_ts < NANOS_PER_MS {
            return None;
        }
        Some(delta_pnl / ((delta_ts / NANOS_PER_MS) as i64))
    }

    fn newest_index(&self) -> (r: usize)
        requires
            buffer_wf(self.view()),
        ensures
            r == newest_sample(self.view()),
            r < DERIVATIVE_SAMPLES,
    {
        if self.head == 0 { DERIVATIVE_SAMPLES - 1 } else { self.head - 1 }
    }

    fn checked_derivatives(&self) -> (r: Option<(i64, i64)>)
        requires
            buffer_wf(self.view()),
        ensures
            r is Some <==> derivatives_defined(self.view()),
            r matches Some((first, second)) ==> first == first_derivative_of(self.view())
                && second == second_derivative_of(self.view()),
    {
        if self.count < 2 {
            return Some((0, 0));
        }
        let newest_idx = self.newest_index();
        let oldest_idx = (self.head + DERIVATIVE_SAMPLES - self.count) % DERIVATIVE_SAMPLES;
        let first = match self.checked_slope(oldest_idx, newest_idx) {
            Some(v) => v,
            None => {
                return None;
            },
        };
        if self.count < 3 {
            return Some((first, 0));
        }
        let mid_idx = (self.head + DERIVATIVE_SAMPLES - self.count / 2) % DERIVATIVE_SAMPLES;
        let vel_1 = match self.checked_slope(oldest_idx, mid_idx) {
            Some(v) => v,
            None => {
                return None;
            },
        };
        let vel_2 = match self.checked_slope(mid_idx, newest_idx) {
            Some(v) => v,
            None => {
                return None;
            },
        };
        match vel_2.checked_sub(vel_1) {
            Some(second) => Some((first, second)),
            None => None,
        }
    }
}

/// Derivative statistics in micro-USD.
#[derive(Debug, Clone, Copy, PartialEq, Eq, Structural)]
pub struct DerivativeStats {
    pub first_derivative_micro_usd_per_ms: i64,
    pub second_derivative_micro_usd_per_ms2: i64,
    pub current_pnl_micro_usd: i64,
}

/// The abstract state of a [`PnLDerivativeTracker`].
pub struct TrackerView {
    pub buffer: DerivativeBufferView,
    pub last_pnl_micro_usd: i64,
}

/// PnL derivative tracker.
pub struct PnLDerivativeTracker {
    buffer: DerivativeBuffer,
    last_pnl_micro_usd: i64,
}

impl View for PnLDerivativeTracker {
    type V = TrackerView;

    closed spec fn view(&self) -> TrackerView {
        TrackerView { buffer: self.buffer.view(), last_pnl_micro_usd: self.last_pnl_micro_usd }
    }
}

impl PnLDerivativeTracker {
    /// Well-formedness of the sample buffer.
    pub open spec fn wf(&self) -> bool {
        buffer_wf(self@.buffer)
    }

    /// A tracker with no samples.
    pub fn new() -> (r: Self)
        ensures
            r.wf(),
            r@.buffer.count == 0,
            r@.last_pnl_micro_usd == 0,
    {
        PnLDerivativeTracker { buffer: DerivativeBuffer::new(), last_pnl_micro_usd: 0 }
    }

    /// Add a PnL sample, in micro-USD.
    pub fn update(&mut self, pnl_micro_usd: i64, timestamp_ns: u64)
        requires
            old(self).wf(),
        ensures
            final(self).wf(),
            final(self)@ == (TrackerView {
                buffer: buffer_pushed(old(self)@.buffer, timestamp_ns, pnl_micro_usd),
                last_pnl_micro_usd: pnl_micro_usd,
            }),
    {
        self.last_pnl_micro_usd = pnl_micro_usd;
        self.buffer.push(timestamp_ns, pnl_micro_usd);
    }

    /// Both derivatives and the latest PnL.
    pub fn get_stats(&self) -> (r: DerivativeStats)
        requires
            self.wf(),
            derivatives_defined(self@.buffer),
        ensures
            r.first_derivative_micro_usd_per_ms == first_derivative_of(self@.buffer),
            r.second_derivative_micro_usd_per_ms2 == second_derivative_of(self@.buffer),
            r.current_pnl_micro_usd == self@.last_pnl_micro_usd,
    {
        match self.try_get_stats() {
            Some(stats) => stats,
            None => DerivativeStats {
                first_derivative_micro_usd_per_ms: 0,
                second_derivative_micro_usd_per_ms2: 0,
                current_pnl_micro_usd: self.last_pnl_micro_usd,
            },
        }
    }

    /// Like [`Self::get_stats`], where both derivatives can be computed;
    /// otherwise `None`.
    pub fn try_get_stats(&self) -> (r: Option<DerivativeStats>)
        requires
            self.wf(),
        ensures
            r is Some <==> derivatives_defined(self@.buffer),
            r matches Some(stats) ==> {
                &&& stats.first_derivative_micro_usd_per_ms == first_derivative_of(self@.buffer)
                &&& stats.second_derivative_micro_usd_per_ms2 == second_derivative_of(self@.buffer)
                &&& stats.current_pnl_micro_usd == self@.last_pnl_micro_usd
            },
    {
        match self.buffer.checked_derivatives() {
            Some((first, second)) => Some(DerivativeStats {
                first_derivative_micro_usd_per_ms: first,
                second_derivative_micro_usd_per_ms2: second,
                current_pnl_micro_usd: self.last_pnl_micro_usd,
            }),
            None => None,
        }
    }

    /// The latest PnL, in micro-USD.
    pub fn get_pnl_micro_usd(&self) -> (r: i64)
        ensures
            r == self@.last_pnl_micro_usd,
    {
        self.last_pnl_micro_usd
    }
}

impl Default for PnLDerivativeTracker {
    fn default() -> (r: Self)
        ensures
            r.wf(),
            r@.buffer.count == 0,
            r@.last_pnl_micro_usd == 0,
    {
        Self::new()
    }
}

/// The buffer after pushing `samples` (timestamp, PnL), oldest first, onto
/// `start`.
pub open spec fn buffer_after(start: DerivativeBufferView, samples: Seq<(u64, i64)>) -> DerivativeBufferView
    decreases samples.len(),
{
    if samples.len() == 0 {
        start
    } else {
        buffer_pushed(buffer_after(start, samples.drop_last()), samples.last().0, samples.last().1)
    }
}

/// Where the `j`-th held sample sits after a push at head `h` onto a buffer
/// holding `c` samples: the newest at `h`, every other one where it was
/// held before, one place further from the oldest once the buffer was full.
proof fn lemma_push_slots(h: int, c: int, j: int)
    requires
        0 <= h < DERIVATIVE_SAMPLES,
        0 <= c <= DERIVATIVE_SAMPLES,
        0 <= j < (if c < DERIVATIVE_SAMPLES { c + 1 } else { c }),
    ensures
        ({
            let m = DERIVATIVE_SAMPLES as int;
            let c2 = if c < m { c + 1 } else { c };
            let k = (((h + 1) % m + m - c2) % m + j) % m;
            let j0 = if c < m { j } else { j + 1 };
            &&& 0 <= k < m
            &&& j == c2 - 1 ==> k == h
            &&& j < c2 - 1 ==> 0 <= j0 < c && k != h && k == ((h + m - c) % m + j0) % m
        }),
{
}

/// The buffer holds the last `count` of `samples`, in order from its
/// oldest held slot.
pub open spec fn holds_latest(b: DerivativeBufferView, samples: Seq<(u64, i64)>) -> bool {
    forall|j: int|
        0 <= j < b.count ==> {
            &&& #[trigger] b.timestamps_ns[(oldest_sample(b) + j) % (DERIVATIVE_SAMPLES as int)]
                == samples[samples.len() - b.count + j].0
            &&& b.pnl_micro_usd[(oldest_sample(b) + j) % (DERIVATIVE_SAMPLES as int)]
                == samples[samples.len() - b.count + j].1
        }
}

proof fn lemma_push_keeps_slot(a: DerivativeBufferView, samples: Seq<(u64, i64)>, x: (u64, i64), j: int)
    requires
        buffer_wf(a),
        a.count <= samples.len(),
        holds_latest(a, samples),
        0 <= j < buffer_pushed(a, x.0, x.1).count,
    ensures
        ({
            let b = buffer_pushed(a, x.0, x.1);
            let s2 = samples.push(x);
            &&& b.timestamps_ns[(oldest_sample(b) + j) % (DERIVATIVE_SAMPLES as int)] == s2[s2.len() - b.count + j].0
            &&& b.pnl_micro_usd[(oldest_sample(b) + j) % (DERIVATIVE_SAMPLES as int)] == s2[s2.len() - b.count + j].1
        }),
{
    let b = buffer_pushed(a, x.0, x.1);
    let s2 = samples.push(x);
    let m = DERIVATIVE_SAMPLES as int;
    lemma_push_slots(a.head, a.count, j);
    let k = (oldest_sample(b) + j) % m;
    if j < b.count - 1 {
        let j0 = if a.count < m { j } else { j + 1 };
        assert(k == (oldest_sample(a) + j0) % m);
        assert(a.timestamps_ns[(oldest_sample(a) + j0) % m] == samples[samples.len() - a.count + j0].0);
        assert(s2[s2.len() - b.count + j] == samples[samples.len() - a.count + j0]);
    } else {
        assert(k == a.head);
    }
}

proof fn lemma_push_keeps_latest(a: DerivativeBufferView, samples: Seq<(u64, i64)>, x: (u64, i64))
    requires
        buffer_wf(a),
        a.count <= samples.len(),
        holds_latest(a, samples),
    ensures
        holds_latest(buffer_pushed(a, x.0, x.1), samples.push(x)),
{
    let b = buffer_pushed(a, x.0, x.1);
    assert forall|j: int| 0 <= j < b.count implies {
        &&& #[trigger] b.timestamps_ns[(oldest_sample(b) + j) % (DERIVATIVE_SAMPLES as int)]
            == samples.push(x)[samples.push(x).len() - b.count + j].0
        &&& b.pnl_micro_usd[(oldest_sample(b) + j) % (DERIVATIVE_SAMPLES as int)]
            == samples.push(x)[samples.push(x).len() - b.count + j].1
    } by {
        lemma_push_keeps_slot(a, samples, x, j);
    }
}

proof fn lemma_buffer_after_shape(start: DerivativeBufferView, samples: Seq<(u64, i64)>)
    requires
        buffer_wf(start),
        start.count == 0,
    ensures
        ({
            let b = buffer_after(start, samples);
            let n = samples.len() as int;
            &&& buffer_wf(b)
            &&& b.count == if n < DERIVATIVE_SAMPLES { n } else { DERIVATIVE_SAMPLES as int }
            &&& b.head == (start.head + n) % (DERIVATIVE_SAMPLES as int)
            &&& holds_latest(b, samples)
        }),
    decreases samples.len(),
{
    if samples.len() > 0 {
        let prefix = samples.drop_last();
        lemma_buffer_after_shape(start, prefix);
        lemma_push_keeps_latest(buffer_after(start, prefix), prefix, samples.last());
        assert(prefix.push(samples.last()) =~= samples);
    }
}

/// The buffer keeps the latest samples in order: after pushing `n` samples
/// onto an empty buffer, it holds the last `min(n, 10)` of them, the
/// `j`-th held sample from the oldest being sample `n - count + j`. So the
/// oldest held sample is sample `n - count` (at the head once the buffer
/// is full), the newest is sample `n - 1`, and the first derivative is the
/// slope from sample `n - count` to sample `n - 1`.
pub proof fn buffer_holds_latest_samples(start: DerivativeBufferView, samples: Seq<(u64, i64)>)
    requires
        buffer_wf(start),
        start.count == 0,
    ensures
        ({
            let b = buffer_after(start, samples);
            let n = samples.len() as int;
            &&& buffer_wf(b)
            &&& b.count == if n < DERIVATIVE_SAMPLES { n } else { DERIVATIVE_SAMPLES as int }
            &&& b.head == (start.head + n) % (DERIVATIVE_SAMPLES as int)
            &&& holds_latest(b, samples)
            &&& b.count >= 1 ==> b.timestamps_ns[oldest_sample(b)] == samples[n - b.count].0
                && b.pnl_micro_usd[oldest_sample(b)] == samples[n - b.count].1
            &&& b.count >= 1 ==> b.timestamps_ns[newest_sample(b)] == samples[n - 1].0
                && b.pnl_micro_usd[newest_sample(b)] == samples[n - 1].1
        }),
{
    lemma_buffer_after_shape(start, samples);
    let b = buffer_after(start, samples);
    let m = DERIVATIVE_SAMPLES as int;
    if b.count >= 1 {
        assert(b.timestamps_ns[(oldest_sample(b) + 0) % m] == samples[samples.len() - b.count + 0].0);
        assert(b.timestamps_ns[(oldest_sample(b) + (b.count - 1)) % m] == samples[samples.len() - b.count + (b.count - 1)].0);
        assert((oldest_sample(b) + (b.count - 1)) % m == newest_sample(b));
    }
}

} // verus!
