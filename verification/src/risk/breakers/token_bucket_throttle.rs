//! Token bucket rate limiter for outbound order flow.
//!
//! Token amounts are kept scaled by 10^9 (one token is 10^9 units). A rate
//! of `r` tokens per second is then `r` scaled units per nanosecond, so the
//! refill is added without fractions.

use vstd::prelude::*;

use crate::clock::now_ns;

verus! {

/// Scaled units per token.
pub const TOKEN_SCALE: u64 = 1_000_000_000;

/// Result of a rate-limit check.
#[derive(Debug, Clone, Copy, PartialEq, Eq, Structural)]
pub enum RateLimitResult {
    /// The request may proceed; one token was taken.
    Allowed,
    /// The rate limit is exceeded.
    Denied { tokens_available: u64, tokens_required: u64, retry_after_ns: u64 },
}

/// The abstract state of a [`TokenBucketThrottle`]; amounts are scaled.
pub struct ThrottleView {
    pub tokens: u64,
    pub max_tokens: u64,
    pub refill_rate_per_ns: u64,
    pub last_refill_ns: u64,
    pub active: bool,
    pub denied_count: u64,
    pub allowed_count: u64,
}

/// The bucket after crediting the tokens earned since the last refill at
/// `now_ns`, capped at the capacity. Nothing changes where no time has
/// passed or nothing was earned.
pub open spec fn refilled(v: ThrottleView, now_ns: u64) -> ThrottleView {
    let elapsed: int = if now_ns > v.last_refill_ns { now_ns - v.last_refill_ns } else { 0 };
    let earned: int = elapsed * v.refill_rate_per_ns;
    if elapsed == 0 || earned == 0 {
        v
    } else {
        ThrottleView {
            tokens: if v.tokens + earned > v.max_tokens { v.max_tokens } else { (v.tokens + earned) as u64 },
            last_refill_ns: now_ns,
            ..v
        }
    }
}

/// What one consumption attempt at `now_ns` does: the new state and the
/// answer.
pub open spec fn consume_outcome(pre: ThrottleView, now_ns: u64) -> (ThrottleView, RateLimitResult) {
    if !pre.active {
        (ThrottleView { allowed_count: pre.allowed_count.wrapping_add(1), ..pre }, RateLimitResult::Allowed)
    } else {
        let v = refilled(pre, now_ns);
        if v.tokens >= TOKEN_SCALE {
            (
                ThrottleView {
                    tokens: (v.tokens - TOKEN_SCALE) as u64,
                    allowed_count: v.allowed_count.wrapping_add(1),
                    ..v
                },
                RateLimitResult::Allowed,
            )
        } else {
            (
                ThrottleView { denied_count: v.denied_count.wrapping_add(1), ..v },
                RateLimitResult::Denied {
                    tokens_available: v.tokens / TOKEN_SCALE,
                    tokens_required: 1,
                    retry_after_ns: if v.refill_rate_per_ns > 0 {
                        ((TOKEN_SCALE - v.tokens) / (v.refill_rate_per_ns as int)) as u64
                    } else {
                        u64::MAX
                    },
                },
            )
        }
    }
}

/// Token bucket throttle: tokens refill at a constant rate up to a
/// capacity, and each order takes one token.
pub struct TokenBucketThrottle {
    tokens: u64,
    max_tokens: u64,
    refill_rate_per_ns: u64,
    last_refill_ns: u64,
    active: bool,
    denied_count: u64,
    allowed_count: u64,
}

impl View for TokenBucketThrottle {
    type V = ThrottleView;

    closed spec fn view(&self) -> ThrottleView {
        ThrottleView {
            tokens: self.tokens,
            max_tokens: self.max_tokens,
            refill_rate_per_ns: self.refill_rate_per_ns,
            last_refill_ns: self.last_refill_ns,
            active: self.active,
            denied_count: self.denied_count,
            allowed_count: self.allowed_count,
        }
    }
}

impl TokenBucketThrottle {
    /// Well-formedness: the bucket never holds more than its capacity.
    pub open spec fn wf(&self) -> bool {
        self@.tokens <= self@.max_tokens
    }

    /// A full, active bucket holding `max_tokens` tokens, refilling at
    /// `refill_rate_per_second` tokens per second, that is
    /// `refill_rate_per_second` scaled units per nanosecond, with the last
    /// refill set to the clock's current reading. `new(20, 10)` allows a
    /// burst of 20 orders and 10 orders per second after it.
    pub fn new(max_tokens: u64, refill_rate_per_second: u64) -> (r: Self)
        requires
            max_tokens * TOKEN_SCALE <= u64::MAX,
        ensures
            r@.tokens == max_tokens * TOKEN_SCALE,
            r@.max_tokens == max_tokens * TOKEN_SCALE,
            r@.refill_rate_per_ns == refill_rate_per_second,
            r@.active,
            r.wf(),
            r@.denied_count == 0,
            r@.allowed_count == 0,
    {
        let initial_tokens = max_tokens * TOKEN_SCALE;
        let now = now_ns();
        TokenBucketThrottle {
            tokens: initial_tokens,
            max_tokens: initial_tokens,
            refill_rate_per_ns: refill_rate_per_second,
            last_refill_ns: now,
            active: true,
            denied_count: 0,
            allowed_count: 0,
        }
    }

    /// Try to take one token at the current clock reading.
    pub fn try_consume(&mut self) -> (r: RateLimitResult)
        requires
            old(self).wf(),
        ensures
            final(self).wf(),
            exists|now: u64| consume_outcome(old(self)@, now) == (final(self)@, r)
                && final(self)@ == throttle_step(old(self)@, ThrottleCall::ConsumeAt(now)),
            !old(self)@.active ==> consume_outcome(old(self)@, 0) == (final(self)@, r),
    {
        let now = now_ns();
        self.try_consume_at(now)
    }

    /// Try to take one token at time `now_ns`.
    pub fn try_consume_at(&mut self, now_ns: u64) -> (r: RateLimitResult)
        requires
            old(self).wf(),
        ensures
            final(self).wf(),
            consume_outcome(old(self)@, now_ns) == (final(self)@, r),
            final(self)@ == throttle_step(old(self)@, ThrottleCall::ConsumeAt(now_ns)),
    {
        if !self.active {
            self.allowed_count = self.allowed_count.wrapping_add(1);
            return RateLimitResult::Allowed;
        }
        self.refill(now_ns);
        if self.tokens >= TOKEN_SCALE {
            self.tokens = self.tokens - TOKEN_SCALE;
            self.allowed_count = self.allowed_count.wrapping_add(1);
            RateLimitResult::Allowed
        } else {
            self.denied_count = self.denied_count.wrapping_add(1);
            let tokens_needed = TOKEN_SCALE - self.tokens;
            let retry_after_ns = if self.refill_rate_per_ns > 0 {
                tokens_needed / self.refill_rate_per_ns
            } else {
                u64::MAX
            };
            RateLimitResult::Denied {
                tokens_available: self.tokens / TOKEN_SCALE,
                tokens_required: 1,
                retry_after_ns,
            }
        }
    }

    /// Credit the tokens earned since the last refill.
    fn refill(&mut self, now_ns: u64)
        requires
            old(self).wf(),
        ensures
            final(self).wf(),
            final(self)@ == refilled(old(self)@, now_ns),
    {
        let elapsed_ns = now_ns.saturating_sub(self.last_refill_ns);
        if elapsed_ns == 0 {
            return;
        }
        proof {
            lemma_u64_product_fits(elapsed_ns, self.refill_rate_per_ns);
        }
        let earned: u128 = elapsed_ns as u128 * self.refill_rate_per_ns as u128;
        if earned == 0 {
            return;
        }
        if self.tokens >= self.max_tokens || earned >= (self.max_tokens - self.tokens) as u128 {
            self.tokens = self.max_tokens;
        } else {
            self.tokens = self.tokens + earned as u64;
        }
        self.last_refill_ns = now_ns;
    }

    /// Whether the throttle is active.
    pub fn is_active(&self) -> (r: bool)
        ensures
            r == self@.active,
    {
        self.active
    }

    /// Enable or disable the throttle.
    pub fn set_active(&mut self, active: bool)
        requires
            old(self).wf(),
        ensures
            final(self).wf(),
            final(self)@ == (ThrottleView { active, ..old(self)@ }),
            final(self)@ == throttle_step(old(self)@, ThrottleCall::SetActive(active)),
    {
        self.active = active;
    }

    /// Whole tokens currently held.
    pub fn tokens_available(&self) -> (r: u64)
        ensures
            r == self@.tokens / TOKEN_SCALE,
            self.wf() ==> r <= self@.max_tokens / TOKEN_SCALE,
    {
        self.tokens / TOKEN_SCALE
    }

    /// Number of denied requests.
    pub fn denied_count(&self) -> (r: u64)
        ensures
            r == self@.denied_count,
    {
        self.denied_count
    }

    /// Number of allowed requests.
    pub fn allowed_count(&self) -> (r: u64)
        ensures
            r == self@.allowed_count,
    {
        self.allowed_count
    }

    /// Set both request counters to zero.
    pub fn reset_stats(&mut self)
        requires
            old(self).wf(),
        ensures
            final(self).wf(),
            final(self)@ == (ThrottleView { denied_count: 0, allowed_count: 0, ..old(self)@ }),
            final(self)@ == throttle_step(old(self)@, ThrottleCall::ResetStats),
    {
        self.denied_count = 0;
        self.allowed_count = 0;
    }
}

proof fn lemma_u64_product_fits(a: u64, b: u64)
    ensures
        a * b <= u64::MAX * u64::MAX,
        0 <= a * b,
{
    assert(a * b <= u64::MAX * u64::MAX) by (nonlinear_arith)
        requires a <= u64::MAX, b <= u64::MAX, 0 <= a, 0 <= b;
    assert(0 <= a * b) by (nonlinear_arith)
        requires 0 <= a, 0 <= b;
}

/// A bucket never holds more than its capacity: a consumption attempt keeps
/// the tokens at or below the capacity.
pub proof fn consume_respects_capacity(pre: ThrottleView, now_ns: u64)
    requires
        pre.tokens <= pre.max_tokens,
    ensures
        consume_outcome(pre, now_ns).0.tokens <= pre.max_tokens,
        consume_outcome(pre, now_ns).0.max_tokens == pre.max_tokens,
{
}

/// Each attempt is counted exactly once: either the allowed or the denied
/// counter advances by one, and it is the one matching the answer.
pub proof fn consume_counts_once(pre: ThrottleView, now_ns: u64)
    ensures
        ({
            let (post, r) = consume_outcome(pre, now_ns);
            match r {
                RateLimitResult::Allowed => post.allowed_count == pre.allowed_count.wrapping_add(1)
                    && post.denied_count == pre.denied_count,
                RateLimitResult::Denied { .. } => post.denied_count == pre.denied_count.wrapping_add(1)
                    && post.allowed_count == pre.allowed_count,
            }
        }),
{
}

/// Without refill, an active bucket allows exactly as many requests as it
/// holds whole tokens: an attempt succeeds iff a whole token is held, and
/// takes exactly one.
pub proof fn consume_without_refill(pre: ThrottleView, now_ns: u64)
    requires
        pre.active,
        pre.refill_rate_per_ns == 0,
    ensures
        ({
            let (post, r) = consume_outcome(pre, now_ns);
            &&& (r == RateLimitResult::Allowed) <==> pre.tokens >= TOKEN_SCALE
            &&& r == RateLimitResult::Allowed ==> post.tokens == pre.tokens - TOKEN_SCALE
            &&& r != RateLimitResult::Allowed ==> post.tokens == pre.tokens
        }),
{
}

/// Tokens come back with time: an active bucket that can hold a token
/// allows a request once the time since the last refill, times the rate in
/// tokens per second, makes up a whole token with what it holds. At 100
/// tokens per second, 50 ms give 5 tokens.
pub proof fn refill_grants_tokens(pre: ThrottleView, now_ns: u64)
    requires
        pre.active,
        pre.tokens <= pre.max_tokens,
        pre.max_tokens >= TOKEN_SCALE,
        now_ns > pre.last_refill_ns,
        pre.tokens + (now_ns - pre.last_refill_ns) * pre.refill_rate_per_ns >= TOKEN_SCALE,
    ensures
        consume_outcome(pre, now_ns).1 == RateLimitResult::Allowed,
{
    let elapsed: int = now_ns - pre.last_refill_ns;
    let earned: int = elapsed * pre.refill_rate_per_ns;
    assert(earned >= 0) by (nonlinear_arith)
        requires elapsed >= 0, pre.refill_rate_per_ns >= 0, earned == elapsed * pre.refill_rate_per_ns;
}

/// A consumption attempt keeps the configuration: the capacity, the rate
/// and whether the throttle is active; only `set_active` changes the last.
pub proof fn consume_keeps_configuration(pre: ThrottleView, now_ns: u64)
    ensures
        consume_outcome(pre, now_ns).0.active == pre.active,
        consume_outcome(pre, now_ns).0.max_tokens == pre.max_tokens,
        consume_outcome(pre, now_ns).0.refill_rate_per_ns == pre.refill_rate_per_ns,
{
}

/// A call on a throttle, for stating what a history of calls does; a
/// consumption names the clock reading it ran at.
pub enum ThrottleCall {
    ConsumeAt(u64),
    SetActive(bool),
    ResetStats,
}

/// The state after one call.
pub open spec fn throttle_step(pre: ThrottleView, call: ThrottleCall) -> ThrottleView {
    match call {
        ThrottleCall::ConsumeAt(now_ns) => consume_outcome(pre, now_ns).0,
        ThrottleCall::SetActive(active) => ThrottleView { active, ..pre },
        ThrottleCall::ResetStats => ThrottleView { denied_count: 0, allowed_count: 0, ..pre },
    }
}

/// The state after `calls`, one after the other.
pub open spec fn throttle_run(pre: ThrottleView, calls: Seq<ThrottleCall>) -> ThrottleView
    decreases calls.len(),
{
    if calls.len() == 0 {
        pre
    } else {
        throttle_step(throttle_run(pre, calls.drop_last()), calls.last())
    }
}

/// Whether the throttle is active after `calls`, from `active`: the
/// argument of the latest `SetActive`, else `active`.
pub open spec fn active_after(active: bool, calls: Seq<ThrottleCall>) -> bool
    decreases calls.len(),
{
    if calls.len() == 0 {
        active
    } else {
        match calls.last() {
            ThrottleCall::SetActive(b) => b,
            _ => active_after(active, calls.drop_last()),
        }
    }
}

/// How many consumptions in `calls`, since the latest `ResetStats`, were
/// answered `Allowed` (`allowed` true) or `Denied` (`allowed` false).
pub open spec fn answers_since_reset(pre: ThrottleView, calls: Seq<ThrottleCall>, allowed: bool) -> nat
    decreases calls.len(),
{
    if calls.len() == 0 {
        0
    } else {
        let before = answers_since_reset(pre, calls.drop_last(), allowed);
        match calls.last() {
            ThrottleCall::ConsumeAt(now_ns) => {
                let answer = consume_outcome(throttle_run(pre, calls.drop_last()), now_ns).1;
                if (answer == RateLimitResult::Allowed) == allowed { before + 1 } else { before }
            },
            ThrottleCall::ResetStats => 0,
            ThrottleCall::SetActive(_) => before,
        }
    }
}

/// Over any history of calls from a fresh throttle (as `new` makes it):
/// the throttle is active unless the latest `set_active` said otherwise;
/// the allowed and denied counters are exactly the numbers of consumptions
/// answered `Allowed` and `Denied` since the latest reset; the capacity and
/// the rate never change; and the bucket never holds more than its
/// capacity.
pub proof fn throttle_history(pre: ThrottleView, calls: Seq<ThrottleCall>)
    requires
        pre.active,
        pre.allowed_count == 0,
        pre.denied_count == 0,
        pre.tokens <= pre.max_tokens,
        calls.len() < u64::MAX,
    ensures
        throttle_run(pre, calls).active == active_after(true, calls),
        throttle_run(pre, calls).allowed_count == answers_since_reset(pre, calls, true),
        throttle_run(pre, calls).denied_count == answers_since_reset(pre, calls, false),
        answers_since_reset(pre, calls, true) + answers_since_reset(pre, calls, false) <= calls.len(),
        throttle_run(pre, calls).max_tokens == pre.max_tokens,
        throttle_run(pre, calls).refill_rate_per_ns == pre.refill_rate_per_ns,
        throttle_run(pre, calls).tokens <= pre.max_tokens,
    decreases calls.len(),
{
    if calls.len() > 0 {
        throttle_history(pre, calls.drop_last());
        let mid = throttle_run(pre, calls.drop_last());
        match calls.last() {
            ThrottleCall::ConsumeAt(now_ns) => {
                consume_respects_capacity(mid, now_ns);
                consume_counts_once(mid, now_ns);
            },
            _ => {},
        }
    }
}

} // verus!
