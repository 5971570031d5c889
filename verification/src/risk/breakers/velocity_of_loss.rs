//! Velocity-of-loss circuit breaker.
//!
//! Keeps a rolling window of PnL samples in micro-USD and trips when the
//! rate of change of PnL falls below a critical threshold.

use vstd::prelude::*;

verus! {

/// Number of samples the window holds.
pub const WINDOW_SIZE: usize = 64;

/// Nanoseconds per millisecond.
pub const NANOS_PER_MS: u64 = 1_000_000;

/// Integer division rounding toward zero, as Rust's `/` on signed integers.
pub open spec fn div_toward_zero(a: int, b: int) -> int {
    if a >= 0 { a / b } else { -((-a) / b) }
}

/// Result of a velocity check.
#[derive(Debug, Clone, Copy, PartialEq, Eq, Structural)]
pub enum VelocityCheckResult {
    /// Within bounds.
    Normal,
    /// Elevated loss velocity.
    Warning { velocity_usd_per_ms: i64, threshold_usd_per_ms: i64 },
    /// Critical loss velocity: the breaker trips.
    Critical { velocity_usd_per_ms: i64, threshold_usd_per_ms: i64 },
}

/// The abstract content of a sample window.
pub struct WindowView {
    pub timestamps: Seq<u64>,
    pub pnl_values: Seq<i64>,
    pub head: int,
    pub count: int,
}

/// The window is well formed: full-size tables, head and count in range.
pub open spec fn window_wf(w: WindowView) -> bool {
    &&& w.timestamps.len() == WINDOW_SIZE
    &&& w.pnl_values.len() == WINDOW_SIZE
    &&& 0 <= w.head < WINDOW_SIZE
    &&& 0 <= w.count <= WINDOW_SIZE
}

/// The window after writing a sample at the head.
pub open spec fn window_pushed(w: WindowView, timestamp_ns: u64, pnl: i64) -> WindowView {
    WindowView {
        timestamps: w.timestamps.update(w.head, timestamp_ns),
        pnl_values: w.pnl_values.update(w.head, pnl),
        head: (w.head + 1) % (WINDOW_SIZE as int),
        count: if w.count < WINDOW_SIZE { w.count + 1 } else { w.count },
    }
}

/// Index of the newest sample.
pub open spec fn newest_index(w: WindowView) -> int {
    if w.head == 0 { WINDOW_SIZE - 1 } else { w.head - 1 }
}

/// The oldest sample at or after `cutoff` among the first `k` samples,
/// scanned from the oldest held sample on, starting from the newest sample.
pub open spec fn scan_oldest(w: WindowView, cutoff: u64, k: nat) -> (u64, i64)
    decreases k,
{
    if k == 0 {
        (w.timestamps[newest_index(w)], w.pnl_values[newest_index(w)])
    } else {
        let (ots, opnl) = scan_oldest(w, cutoff, (k - 1) as nat);
        let idx = (w.head + WINDOW_SIZE - w.count + k - 1) % (WINDOW_SIZE as int);
        let ts = w.timestamps[idx];
        if ts >= cutoff && ts < ots { (ts, w.pnl_values[idx]) } else { (ots, opnl) }
    }
}

/// The cutoff time of a velocity window of `window_ms` milliseconds.
pub open spec fn window_cutoff(w: WindowView, window_ms: u64) -> u64 {
    w.timestamps[newest_index(w)].saturating_sub((window_ms * NANOS_PER_MS) as u64)
}

/// The sample the velocity is measured from.
pub open spec fn velocity_base(w: WindowView, window_ms: u64) -> (u64, i64) {
    scan_oldest(w, window_cutoff(w, window_ms), w.count as nat)
}

/// The velocity can be computed without overflow: with two or more
/// samples, the window length in nanoseconds and the PnL change both fit in
/// 64 bits.
pub open spec fn velocity_defined(w: WindowView, window_ms: u64) -> bool {
    w.count >= 2 ==> {
        &&& window_ms * NANOS_PER_MS <= u64::MAX
        &&& i64::MIN <= w.pnl_values[newest_index(w)] - velocity_base(w, window_ms).1 <= i64::MAX
    }
}

/// PnL velocity in micro-USD per millisecond over the window: the PnL
/// change from the oldest sample within the window to the newest, divided
/// by the whole milliseconds between them; 0 with fewer than two samples or
/// less than a millisecond apart.
pub open spec fn window_velocity(w: WindowView, window_ms: u64) -> i64 {
    if w.count < 2 {
        0
    } else {
        let newest_ts = w.timestamps[newest_index(w)];
        let newest_pnl = w.pnl_values[newest_index(w)];
        let (oldest_ts, oldest_pnl) = velocity_base(w, window_ms);
        let delta_ms = newest_ts.saturating_sub(oldest_ts) / NANOS_PER_MS;
        if delta_ms == 0 {
            0
        } else {
            div_toward_zero(newest_pnl - oldest_pnl, delta_ms as int) as i64
        }
    }
}

/// Rolling window of PnL samples.
struct PnLWindow {
    timestamps: Vec<u64>,
    pnl_values: Vec<i64>,
    head: usize,
    count: usize,
}

impl PnLWindow {
    spec fn view(&self) -> WindowView {
        WindowView {
            timestamps: self.timestamps@,
            pnl_values: self.pnl_values@,
            head: self.head as int,
            count: self.count as int,
        }
    }

    fn new() -> (r: Self)
        ensures
            window_wf(r.view()),
            r.view().count == 0,
            r.view().head == 0,
    {
        let mut timestamps: Vec<u64> = Vec::new();
        let mut pnl_values: Vec<i64> = Vec::new();
        let mut i: usize = 0;
        while i < WINDOW_SIZE
            invariant
                i <= WINDOW_SIZE,
                timestamps@.len() == i,
                pnl_values@.len() == i,
            decreases WINDOW_SIZE - i,
        {
            timestamps.push(0);
            pnl_values.push(0);
            i = i + 1;
        }
        PnLWindow { timestamps, pnl_values, head: 0, count: 0 }
    }

    fn push(&mut self, timestamp_ns: u64, pnl_micro_usd: i64)
        requires
            window_wf(old(self).view()),
        ensures
            final(self).view() == window_pushed(old(self).view(), timestamp_ns, pnl_micro_usd),
            window_wf(final(self).view()),
    {
        self.timestamps.set(self.head, timestamp_ns);
        self.pnl_values.set(self.head, pnl_micro_usd);
        self.head = (self.head + 1) % WINDOW_SIZE;
        if self.count < WINDOW_SIZE {
            self.count = self.count + 1;
        }
    }

    fn calculate_velocity(&self, window_ms: u64) -> (r: i64)
        requires
            window_wf(self.view()),
            velocity_defined(self.view(), window_ms),
        ensures
            r == window_velocity(self.view(), window_ms),
    {
        match self.checked_velocity(window_ms) {
            Some(v) => v,
            None => 0,
        }
    }
}

impl PnLWindow {
    /// The velocity, or `None` where computing it would overflow.
    fn checked_velocity(&self, window_ms: u64) -> (r: Option<i64>)
        requires
            window_wf(self.view()),
        ensures
            r is Some <==> velocity_defined(self.view(), window_ms),
            r matches Some(v) ==> v == window_velocity(self.view(), window_ms),
    {
        if self.count < 2 {
            return Some(0);
        }
        if window_ms > u64::MAX / NANOS_PER_MS {
            return None;
        }
        let window_ns = window_ms * NANOS_PER_MS;
        let newest_idx = if self.head == 0 { WINDOW_SIZE - 1 } else { self.head - 1 };
        let newest_ts = self.timestamps[newest_idx];
        let newest_pnl = self.pnl_values[newest_idx];
        let cutoff_ns = newest_ts.saturating_sub(window_ns);
        let mut oldest_pnl = newest_pnl;
        let mut oldest_ts = newest_ts;
        let mut i: usize = 0;
        while i < self.count
            invariant
                window_wf(self.view()),
                i <= self.count,
                newest_idx == newest_index(self.view()),
                cutoff_ns == window_cutoff(self.view(), window_ms),
                (oldest_ts, oldest_pnl) == scan_oldest(self.view(), cutoff_ns, i as nat),
            decreases self.count - i,
        {
            let idx = (self.head + WINDOW_SIZE - self.count + i) % WINDOW_SIZE;
            let ts = self.timestamps[idx];
            let pnl = self.pnl_values[idx];
            if ts >= cutoff_ns && ts < oldest_ts {
                oldest_ts = ts;
                oldest_pnl = pnl;
            }
            i = i + 1;
        }
        match newest_pnl.checked_sub(oldest_pnl) {
            None => None,
            Some(delta_pnl) => {
                let delta_time_ms = newest_ts.saturating_sub(oldest_ts) / NANOS_PER_MS;
                if delta_time_ms == 0 {
                    Some(0)
                } else {
                    Some(delta_pnl / (delta_time_ms as i64))
                }
            },
        }
    }
}

/// Breaker configuration; thresholds in micro-USD per millisecond (negative
/// for losses).
#[derive(Debug, Clone, Copy, PartialEq, Eq, Structural)]
pub struct VelocityConfig {
    pub warning_threshold_usd_per_ms: i64,
    pub critical_threshold_usd_per_ms: i64,
    /// Velocity window in milliseconds.
    pub time_window_ms: u64,
}

impl Default for VelocityConfig {
    fn default() -> (r: Self)
        ensures
            r == (VelocityConfig {
                warning_threshold_usd_per_ms: -100_000i64,
                critical_threshold_usd_per_ms: -500_000i64,
                time_window_ms: 50,
            }),
    {
        VelocityConfig {
            warning_threshold_usd_per_ms: -100_000,
            critical_threshold_usd_per_ms: -500_000,
            time_window_ms: 50,
        }
    }
}

/// The classification of a velocity.
pub open spec fn classify_velocity(config: VelocityConfig, velocity: i64) -> VelocityCheckResult {
    if velocity < config.critical_threshold_usd_per_ms {
        VelocityCheckResult::Critical {
            velocity_usd_per_ms: velocity,
            threshold_usd_per_ms: config.critical_threshold_usd_per_ms,
        }
    } else if velocity < config.warning_threshold_usd_per_ms {
        VelocityCheckResult::Warning {
            velocity_usd_per_ms: velocity,
            threshold_usd_per_ms: config.warning_threshold_usd_per_ms,
        }
    } else {
        VelocityCheckResult::Normal
    }
}

/// Breaker statistics, in micro-USD.
#[derive(Debug, Clone, Copy, PartialEq, Eq, Structural)]
pub struct VelocityStats {
    pub current_velocity_micro_usd_per_ms: i64,
    pub warning_threshold: i64,
    pub critical_threshold: i64,
    pub time_window_ms: u64,
    pub warning_count: u64,
    pub critical_count: u64,
    pub is_tripped: bool,
    pub current_pnl_micro_usd: i64,
}

/// The abstract state of a [`VelocityCircuitBreaker`].
pub struct VelocityBreakerView {
    pub config: VelocityConfig,
    pub window: WindowView,
    pub last_pnl_micro_usd: i64,
    pub tripped: bool,
    pub warning_count: u64,
    pub critical_count: u64,
    pub last_trip_timestamp_ns: u64,
}

/// Velocity-of-loss circuit breaker.
pub struct VelocityCircuitBreaker {
    config: VelocityConfig,
    window: PnLWindow,
    last_pnl_micro_usd: i64,
    tripped: bool,
    warning_count: u64,
    critical_count: u64,
    last_trip_timestamp_ns: u64,
}

impl View for VelocityCircuitBreaker {
    type V = VelocityBreakerView;

    closed spec fn view(&self) -> VelocityBreakerView {
        VelocityBreakerView {
            config: self.config,
            window: self.window.view(),
            last_pnl_micro_usd: self.last_pnl_micro_usd,
            tripped: self.tripped,
            warning_count: self.warning_count,
            critical_count: self.critical_count,
            last_trip_timestamp_ns: self.last_trip_timestamp_ns,
        }
    }
}

impl VelocityCircuitBreaker {
    /// Well-formedness: the window is well formed and its velocity can be
    /// computed.
    pub open spec fn wf(&self) -> bool {
        &&& window_wf(self@.window)
        &&& velocity_defined(self@.window, self@.config.time_window_ms)
    }

    /// A breaker with an empty window, not tripped, counters at zero.
    pub fn new(config: VelocityConfig) -> (r: Self)
        ensures
            r.wf(),
            r@.config == config,
            r@.window.count == 0,
            r@.last_pnl_micro_usd == 0,
            !r@.tripped,
            r@.warning_count == 0,
            r@.critical_count == 0,
            r@.last_trip_timestamp_ns == 0,
    {
        VelocityCircuitBreaker {
            config,
            window: PnLWindow::new(),
            last_pnl_micro_usd: 0,
            tripped: false,
            warning_count: 0,
            critical_count: 0,
            last_trip_timestamp_ns: 0,
        }
    }

    /// Add a PnL sample (cumulative, micro-USD) and classify the velocity
    /// over the configured window. A critical velocity trips the breaker.
    pub fn update(&mut self, pnl_micro_usd: i64, timestamp_ns: u64) -> (r: VelocityCheckResult)
        requires
            old(self).wf(),
            velocity_defined(
                window_pushed(old(self)@.window, timestamp_ns, pnl_micro_usd),
                old(self)@.config.time_window_ms,
            ),
        ensures
            final(self).wf(),
            ({
                let w = window_pushed(old(self)@.window, timestamp_ns, pnl_micro_usd);
                let v = window_velocity(w, old(self)@.config.time_window_ms);
                &&& r == classify_velocity(old(self)@.config, v)
                &&& final(self)@ == (VelocityBreakerView {
                    window: w,
                    last_pnl_micro_usd: pnl_micro_usd,
                    tripped: old(self)@.tripped || r is Critical,
                    critical_count: if r is Critical {
                        old(self)@.critical_count.wrapping_add(1)
                    } else {
                        old(self)@.critical_count
                    },
                    warning_count: if r is Warning {
                        old(self)@.warning_count.wrapping_add(1)
                    } else {
                        old(self)@.warning_count
                    },
                    last_trip_timestamp_ns: if r is Critical {
                        timestamp_ns
                    } else {
                        old(self)@.last_trip_timestamp_ns
                    },
                    ..old(self)@
                })
            }),
    {
        self.last_pnl_micro_usd = pnl_micro_usd;
        self.window.push(timestamp_ns, pnl_micro_usd);
        let velocity = self.window.calculate_velocity(self.config.time_window_ms);
        self.classify_and_record(velocity, timestamp_ns)
    }

    /// Like [`Self::update`], where the velocity can be computed; otherwise
    /// `None`, and nothing changes.
    pub fn try_update(&mut self, pnl_micro_usd: i64, timestamp_ns: u64) -> (r: Option<VelocityCheckResult>)
        requires
            old(self).wf(),
        ensures
            final(self).wf(),
            ({
                let w = window_pushed(old(self)@.window, timestamp_ns, pnl_micro_usd);
                &&& r is Some <==> velocity_defined(w, old(self)@.config.time_window_ms)
                &&& r is None ==> final(self)@ == old(self)@
                &&& r matches Some(c) ==> {
                    let v = window_velocity(w, old(self)@.config.time_window_ms);
                    &&& c == classify_velocity(old(self)@.config, v)
                    &&& final(self)@ == (VelocityBreakerView {
                        window: w,
                        last_pnl_micro_usd: pnl_micro_usd,
                        tripped: old(self)@.tripped || c is Critical,
                        critical_count: if c is Critical {
                            old(self)@.critical_count.wrapping_add(1)
                        } else {
                            old(self)@.critical_count
                        },
                        warning_count: if c is Warning {
                            old(self)@.warning_count.wrapping_add(1)
                        } else {
                            old(self)@.warning_count
                        },
                        last_trip_timestamp_ns: if c is Critical {
                            timestamp_ns
                        } else {
                            old(self)@.last_trip_timestamp_ns
                        },
                        ..old(self)@
                    })
                }
            }),
    {
        let saved_head = self.window.head;
        let saved_count = self.window.count;
        let saved_ts = self.window.timestamps[saved_head];
        let saved_pnl = self.window.pnl_values[saved_head];
        let ghost before = self.window.view();
        self.window.push(timestamp_ns, pnl_micro_usd);
        match self.window.checked_velocity(self.config.time_window_ms) {
            None => {
                self.window.timestamps.set(saved_head, saved_ts);
                self.window.pnl_values.set(saved_head, saved_pnl);
                self.window.head = saved_head;
                self.window.count = saved_count;
                assert(self.window.timestamps@ =~= before.timestamps);
                assert(self.window.pnl_values@ =~= before.pnl_values);
                None
            },
            Some(velocity) => {
                self.last_pnl_micro_usd = pnl_micro_usd;
                Some(self.classify_and_record(velocity, timestamp_ns))
            },
        }
    }

    fn classify_and_record(&mut self, velocity: i64, timestamp_ns: u64) -> (r: VelocityCheckResult)
        ensures
            r == classify_velocity(old(self)@.config, velocity),
            final(self)@ == (VelocityBreakerView {
                tripped: old(self)@.tripped || r is Critical,
                critical_count: if r is Critical {
                    old(self)@.critical_count.wrapping_add(1)
                } else {
                    old(self)@.critical_count
                },
                warning_count: if r is Warning {
                    old(self)@.warning_count.wrapping_add(1)
                } else {
                    old(self)@.warning_count
                },
                last_trip_timestamp_ns: if r is Critical {
                    timestamp_ns
                } else {
                    old(self)@.last_trip_timestamp_ns
                },
                ..old(self)@
            }),
    {
        if velocity < self.config.critical_threshold_usd_per_ms {
            self.critical_count = self.critical_count.wrapping_add(1);
            self.tripped = true;
            self.last_trip_timestamp_ns = timestamp_ns;
            VelocityCheckResult::Critical {
                velocity_usd_per_ms: velocity,
                threshold_usd_per_ms: self.config.critical_threshold_usd_per_ms,
            }
        } else if velocity < self.config.warning_threshold_usd_per_ms {
            self.warning_count = self.warning_count.wrapping_add(1);
            VelocityCheckResult::Warning {
                velocity_usd_per_ms: velocity,
                threshold_usd_per_ms: self.config.warning_threshold_usd_per_ms,
            }
        } else {
            VelocityCheckResult::Normal
        }
    }

    /// Whether the breaker is tripped.
    pub fn is_tripped(&self) -> (r: bool)
        ensures
            r == self@.tripped,
    {
        self.tripped
    }

    /// Clear the trip.
    pub fn reset(&mut self)
        ensures
            final(self)@ == (VelocityBreakerView { tripped: false, ..old(self)@ }),
    {
        self.tripped = false;
    }

    /// Trip the breaker by hand.
    pub fn force_trip(&mut self, timestamp_ns: u64)
        ensures
            final(self)@ == (VelocityBreakerView {
                tripped: true,
                critical_count: old(self)@.critical_count.wrapping_add(1),
                last_trip_timestamp_ns: timestamp_ns,
                ..old(self)@
            }),
    {
        self.tripped = true;
        self.critical_count = self.critical_count.wrapping_add(1);
        self.last_trip_timestamp_ns = timestamp_ns;
    }

    /// The latest PnL sample, in micro-USD.
    pub fn get_current_pnl_micro_usd(&self) -> (r: i64)
        ensures
            r == self@.last_pnl_micro_usd,
    {
        self.last_pnl_micro_usd
    }

    /// The statistics, with the velocity over the configured window.
    pub fn stats(&self) -> (r: VelocityStats)
        requires
            self.wf(),
        ensures
            r == (VelocityStats {
                current_velocity_micro_usd_per_ms: window_velocity(self@.window, self@.config.time_window_ms),
                warning_threshold: self@.config.warning_threshold_usd_per_ms,
                critical_threshold: self@.config.critical_threshold_usd_per_ms,
                time_window_ms: self@.config.time_window_ms,
                warning_count: self@.warning_count,
                critical_count: self@.critical_count,
                is_tripped: self@.tripped,
                current_pnl_micro_usd: self@.last_pnl_micro_usd,
            }),
    {
        let velocity = self.window.calculate_velocity(self.config.time_window_ms);
        VelocityStats {
            current_velocity_micro_usd_per_ms: velocity,
            warning_threshold: self.config.warning_threshold_usd_per_ms,
            critical_threshold: self.config.critical_threshold_usd_per_ms,
            time_window_ms: self.config.time_window_ms,
            warning_count: self.warning_count,
            critical_count: self.critical_count,
            is_tripped: self.tripped,
            current_pnl_micro_usd: self.last_pnl_micro_usd,
        }
    }
}

/// With the critical threshold at or below the warning threshold, the
/// classification is monotone in the velocity: a lower velocity is never
/// classified as less severe.
pub proof fn classification_is_monotone(config: VelocityConfig, a: i64, b: i64)
    requires
        config.critical_threshold_usd_per_ms <= config.warning_threshold_usd_per_ms,
        a <= b,
    ensures
        classify_velocity(config, b) is Critical ==> classify_velocity(config, a) is Critical,
        classify_velocity(config, b) is Warning ==> !(classify_velocity(config, a) is Normal),
{
}

/// Slot of the `i`-th held sample, counting from the oldest.
pub open spec fn held_slot(w: WindowView, i: int) -> int {
    (w.head + WINDOW_SIZE - w.count + i) % (WINDOW_SIZE as int)
}

/// The scan over the first `k` held samples finds the earliest timestamp
/// at or after `cutoff` among them and the newest sample, with its PnL.
proof fn lemma_scan_finds_earliest_in_window(w: WindowView, cutoff: u64, k: nat)
    requires
        window_wf(w),
        k <= w.count,
        w.timestamps[newest_index(w)] >= cutoff,
    ensures
        ({
            let (ts, pnl) = scan_oldest(w, cutoff, k);
            &&& ts >= cutoff
            &&& ts <= w.timestamps[newest_index(w)]
            &&& (ts == w.timestamps[newest_index(w)] && pnl == w.pnl_values[newest_index(w)])
                || exists|i: int| 0 <= i < k && #[trigger] w.timestamps[held_slot(w, i)] == ts
                    && w.pnl_values[held_slot(w, i)] == pnl
            &&& forall|i: int| 0 <= i < k && #[trigger] w.timestamps[held_slot(w, i)] >= cutoff
                ==> ts <= w.timestamps[held_slot(w, i)]
        }),
    decreases k,
{
    if k > 0 {
        lemma_scan_finds_earliest_in_window(w, cutoff, (k - 1) as nat);
        let (ts, pnl) = scan_oldest(w, cutoff, k);
        let (ots, opnl) = scan_oldest(w, cutoff, (k - 1) as nat);
        let i = k - 1;
        assert(held_slot(w, i) == (w.head + WINDOW_SIZE - w.count + k - 1) % (WINDOW_SIZE as int));
        if w.timestamps[held_slot(w, i)] >= cutoff && w.timestamps[held_slot(w, i)] < ots {
            assert(w.timestamps[held_slot(w, i)] == ts);
        } else if !((ots == w.timestamps[newest_index(w)] && opnl == w.pnl_values[newest_index(w)])) {
            let i0 = choose|i0: int| 0 <= i0 < k - 1 && #[trigger] w.timestamps[held_slot(w, i0)] == ots
                && w.pnl_values[held_slot(w, i0)] == opnl;
            assert(0 <= i0 < k && w.timestamps[held_slot(w, i0)] == ts);
        }
    }
}

/// The velocity is measured from the oldest sample inside the window: with
/// two or more samples, its base is a held sample (or the newest one) whose
/// timestamp is at least the newest timestamp minus the window, and no held
/// sample at or after that cutoff is earlier. Samples older than the window
/// never serve as the base.
pub proof fn velocity_base_is_oldest_in_window(w: WindowView, window_ms: u64)
    requires
        window_wf(w),
        w.count >= 1,
        window_ms * NANOS_PER_MS <= u64::MAX,
    ensures
        ({
            let newest_ts = w.timestamps[newest_index(w)];
            let window_ns = window_ms * NANOS_PER_MS;
            let cutoff = if newest_ts >= window_ns { newest_ts - window_ns } else { 0 };
            let (ts, pnl) = velocity_base(w, window_ms);
            &&& ts >= cutoff
            &&& ts <= newest_ts
            &&& exists|i: int| 0 <= i < w.count && #[trigger] w.timestamps[held_slot(w, i)] == ts
                && w.pnl_values[held_slot(w, i)] == pnl
            &&& forall|i: int| 0 <= i < w.count && #[trigger] w.timestamps[held_slot(w, i)] >= cutoff
                ==> ts <= w.timestamps[held_slot(w, i)]
        }),
{
    let cutoff = window_cutoff(w, window_ms);
    lemma_scan_finds_earliest_in_window(w, cutoff, w.count as nat);
    let newest = w.count - 1;
    assert(held_slot(w, newest) == newest_index(w));
    let (ts, pnl) = velocity_base(w, window_ms);
    if ts == w.timestamps[newest_index(w)] && pnl == w.pnl_values[newest_index(w)] {
        assert(w.timestamps[held_slot(w, newest)] == ts);
    }
}

} // verus!
