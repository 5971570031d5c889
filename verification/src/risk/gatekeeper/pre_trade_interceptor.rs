//! Pre-trade risk interceptor between the order manager and the network.
//!
//! Validates each outbound child order against size, open-order and price
//! limits, and passes approved orders on to the risk thread's queue.

use vstd::prelude::*;

use crate::clock::now_ns;
use crate::risk::gatekeeper::fat_finger_collars::{
    limit_price_verdict, mid_is_fresh, FatFingerResult, FatFingerValidator, FatFingerView,
};
use crate::risk::gatekeeper::lock_free_order_queue::{LockFreeOrderQueue, QueueView};

verus! {

/// Number of open-order slots.
pub const SYMBOL_SLOTS: usize = 256;

/// FNV-1a offset basis.
pub const FNV_OFFSET: u64 = 14695981039346656037;

/// FNV-1a prime.
pub const FNV_PRIME: u64 = 1099511628211;

/// Order type.
#[derive(Debug, Clone, Copy, PartialEq, Eq, Structural)]
pub enum OrderType {
    Market,
    Limit,
    StopMarket,
    StopLimit,
}

/// Order side.
#[derive(Debug, Clone, Copy, PartialEq, Eq, Structural)]
pub enum Side {
    Buy,
    Sell,
}

/// An order presented for validation.
#[derive(Debug, Clone, Copy, PartialEq, Eq)]
pub struct OrderValidationRequest {
    pub order_id: u64,
    /// Symbol identifier, zero-padded.
    pub symbol: [u8; 16],
    pub side: Side,
    pub order_type: OrderType,
    /// Quantity in base units.
    pub quantity: u64,
    /// Limit price (0 for market orders).
    pub price: u64,
    pub timestamp_ns: u64,
    pub client_order_id: u64,
}

/// Result of validation.
#[derive(Debug, Clone, Copy, PartialEq, Eq)]
#[allow(inconsistent_fields)]
pub enum RiskValidationResult {
    /// The order may proceed.
    Approved,
    /// The order is larger than allowed.
    SizeExceeded { submitted: u64, max_allowed: u64 },
    /// The symbol has too many open orders.
    OpenOrderLimitExceeded { current_count: u32, max_allowed: u32 },
    /// The price violates the fat-finger collar.
    FatFingerViolation(FatFingerResult),
    /// Duplicate order.
    DuplicateOrder,
    /// Invalid parameters.
    InvalidParameters(&'static str),
    /// The system is halted.
    SystemHalted,
}

/// Interceptor configuration.
#[derive(Debug, Clone, Copy, PartialEq, Eq, Structural)]
pub struct PreTradeConfig {
    /// Largest order, in base units.
    pub max_order_size: u64,
    /// Most open orders per symbol.
    pub max_open_orders_per_symbol: u32,
    /// Fat-finger collar in basis points.
    pub fat_finger_collar_bps: u16,
    /// Age after which the mid-price is stale, in nanoseconds.
    pub stale_price_threshold_ns: u64,
    /// Requested capacity of the order queue.
    pub queue_capacity: usize,
}

impl Default for PreTradeConfig {
    fn default() -> (r: Self)
        ensures
            r == (PreTradeConfig {
                max_order_size: 1_000_000_000,
                max_open_orders_per_symbol: 100,
                fat_finger_collar_bps: 200,
                stale_price_threshold_ns: 100_000_000,
                queue_capacity: 4096,
            }),
    {
        PreTradeConfig {
            max_order_size: 1_000_000_000,
            max_open_orders_per_symbol: 100,
            fat_finger_collar_bps: 200,
            stale_price_threshold_ns: 100_000_000,
            queue_capacity: 4096,
        }
    }
}

/// Interceptor statistics.
#[derive(Debug, Clone, Copy, PartialEq, Eq, Structural)]
pub struct InterceptorStats {
    pub approved_count: u64,
    pub rejected_count: u64,
    pub total_open_orders: u32,
    pub queue_length: usize,
    pub dropped_by_queue: usize,
    pub fat_finger_rejections: u64,
    pub is_halted: bool,
}

/// FNV-1a hash of a byte sequence.
pub open spec fn fnv1a(s: Seq<u8>) -> u64
    decreases s.len(),
{
    if s.len() == 0 {
        FNV_OFFSET
    } else {
        (fnv1a(s.drop_last()) ^ (s.last() as u64)).wrapping_mul(FNV_PRIME)
    }
}

/// Length of the part of `s` before its first zero byte.
pub open spec fn nul_len(s: Seq<u8>) -> nat
    decreases s.len(),
{
    if s.len() == 0 || s[0] == 0 {
        0
    } else {
        1 + nul_len(s.drop_first())
    }
}

/// The open-order slot of a symbol: the FNV-1a hash of the symbol up to its
/// first zero byte, modulo 256.
pub open spec fn symbol_bucket(s: Seq<u8>) -> int {
    (fnv1a(s.take(nul_len(s) as int)) % 256) as int
}

proof fn lemma_nul_len(s: Seq<u8>, i: int)
    requires
        0 <= i <= s.len(),
        forall|j: int| 0 <= j < i ==> s[j] != 0,
        i == s.len() || s[i] == 0,
    ensures
        nul_len(s) == i,
    decreases s.len(),
{
    if s.len() > 0 && s[0] != 0 {
        assert(i > 0);
        let t = s.drop_first();
        assert forall|j: int| 0 <= j < i - 1 implies t[j] != 0 by {
            assert(t[j] == s[j + 1]);
        }
        if i < s.len() {
            assert(t[i - 1] == s[i]);
        }
        lemma_nul_len(t, i - 1);
    }
}

/// Hash a symbol into its open-order slot.
fn hash_symbol(symbol: &[u8]) -> (r: u8)
    ensures
        r == symbol_bucket(symbol@),
{
    let mut hash: u64 = FNV_OFFSET;
    let mut i: usize = 0;
    let n = symbol.len();
    while i < n
        invariant
            n == symbol@.len(),
            i <= n,
            hash == fnv1a(symbol@.take(i as int)),
            forall|j: int| 0 <= j < i ==> symbol@[j] != 0,
        ensures
            i <= n,
            i == n || symbol@[i as int] == 0,
            hash == fnv1a(symbol@.take(i as int)),
            forall|j: int| 0 <= j < i ==> symbol@[j] != 0,
        decreases n - i,
    {
        let byte = symbol[i];
        if byte == 0 {
            break;
        }
        assert(symbol@.take(i + 1).drop_last() =~= symbol@.take(i as int));
        hash = (hash ^ byte as u64).wrapping_mul(FNV_PRIME);
        i = i + 1;
    }
    proof {
        lemma_nul_len(symbol@, i as int);
    }
    (hash % 256) as u8
}

/// The abstract state of a [`PreTradeRiskInterceptor`].
pub struct InterceptorView {
    pub config: PreTradeConfig,
    pub queue: QueueView<OrderValidationRequest>,
    pub fat_finger: FatFingerView,
    /// Open orders per slot.
    pub open_orders: Seq<u32>,
    pub total_open_orders: u32,
    pub approved_count: u64,
    pub rejected_count: u64,
    pub halted: bool,
    /// Clock reading at the last approval.
    pub last_validation_ns: u64,
}

/// Which check decides an order.
pub enum InterceptDecision {
    Halted,
    ZeroQuantity,
    TooLarge,
    TooManyOpen,
    FatFinger,
    StaleForMarket,
    QueueFull,
    Approve,
}

/// The first check that refuses `order`, or `Approve`.
pub open spec fn intercept_decision(pre: InterceptorView, order: OrderValidationRequest) -> InterceptDecision {
    if pre.halted {
        InterceptDecision::Halted
    } else if order.quantity == 0 {
        InterceptDecision::ZeroQuantity
    } else if order.quantity > pre.config.max_order_size {
        InterceptDecision::TooLarge
    } else if pre.open_orders[symbol_bucket(order.symbol@)] >= pre.config.max_open_orders_per_symbol {
        InterceptDecision::TooManyOpen
    } else if order.order_type == OrderType::Limit && order.price > 0
        && limit_price_verdict(pre.fat_finger, order.price, order.side == Side::Buy, order.timestamp_ns)
            != FatFingerResult::Valid {
        InterceptDecision::FatFinger
    } else if order.order_type == OrderType::Market && !mid_is_fresh(pre.fat_finger, order.timestamp_ns) {
        InterceptDecision::StaleForMarket
    } else if pre.queue.items.len() >= pre.queue.capacity {
        InterceptDecision::QueueFull
    } else {
        InterceptDecision::Approve
    }
}

/// The answer `validate_order` gives.
pub open spec fn intercept_answer(pre: InterceptorView, order: OrderValidationRequest, r: RiskValidationResult) -> bool {
    match intercept_decision(pre, order) {
        InterceptDecision::Halted => r == RiskValidationResult::SystemHalted,
        InterceptDecision::ZeroQuantity => r matches RiskValidationResult::InvalidParameters(s) && s@ == "zero_quantity"@,
        InterceptDecision::TooLarge => r == (RiskValidationResult::SizeExceeded {
            submitted: order.quantity,
            max_allowed: pre.config.max_order_size,
        }),
        InterceptDecision::TooManyOpen => r == (RiskValidationResult::OpenOrderLimitExceeded {
            current_count: pre.open_orders[symbol_bucket(order.symbol@)],
            max_allowed: pre.config.max_open_orders_per_symbol,
        }),
        InterceptDecision::FatFinger => r == RiskValidationResult::FatFingerViolation(
            limit_price_verdict(pre.fat_finger, order.price, order.side == Side::Buy, order.timestamp_ns),
        ),
        InterceptDecision::StaleForMarket => r == RiskValidationResult::FatFingerViolation(FatFingerResult::StaleMidPrice),
        InterceptDecision::QueueFull => r matches RiskValidationResult::InvalidParameters(s) && s@ == "queue_full"@,
        InterceptDecision::Approve => r == RiskValidationResult::Approved,
    }
}

/// The state after `validate_order`, but for the clock reading.
pub open spec fn intercept_state(pre: InterceptorView, order: OrderValidationRequest, post: InterceptorView) -> bool {
    let d = intercept_decision(pre, order);
    let ff_rejected = d is FatFinger && (limit_price_verdict(
        pre.fat_finger, order.price, order.side == Side::Buy, order.timestamp_ns) is TooHigh
        || limit_price_verdict(pre.fat_finger, order.price, order.side == Side::Buy, order.timestamp_ns) is TooLow);
    &&& post.config == pre.config
    &&& post.open_orders == pre.open_orders
    &&& post.total_open_orders == pre.total_open_orders
    &&& post.halted == pre.halted
    &&& post.fat_finger == (FatFingerView {
        rejection_count: if ff_rejected {
            pre.fat_finger.rejection_count.wrapping_add(1)
        } else {
            pre.fat_finger.rejection_count
        },
        ..pre.fat_finger
    })
    &&& post.rejected_count == if d is TooLarge || d is TooManyOpen || d is FatFinger || d is StaleForMarket
        || d is QueueFull {
        pre.rejected_count.wrapping_add(1)
    } else {
        pre.rejected_count
    }
    &&& post.approved_count == if d is Approve {
        pre.approved_count.wrapping_add(1)
    } else {
        pre.approved_count
    }
    &&& post.queue == if d is Approve {
        QueueView { items: pre.queue.items.push(order), ..pre.queue }
    } else {
        pre.queue
    }
    &&& !(d is Approve) ==> post.last_validation_ns == pre.last_validation_ns
}

/// The pre-trade risk interceptor.
pub struct PreTradeRiskInterceptor {
    config: PreTradeConfig,
    order_queue: LockFreeOrderQueue<OrderValidationRequest>,
    fat_finger: FatFingerValidator,
    open_orders: Vec<u32>,
    total_open_orders: u32,
    approved_count: u64,
    rejected_count: u64,
    halted: bool,
    last_validation_ns: u64,
}

impl View for PreTradeRiskInterceptor {
    type V = InterceptorView;

    closed spec fn view(&self) -> InterceptorView {
        InterceptorView {
            config: self.config,
            queue: self.order_queue@,
            fat_finger: self.fat_finger@,
            open_orders: self.open_orders@,
            total_open_orders: self.total_open_orders,
            approved_count: self.approved_count,
            rejected_count: self.rejected_count,
            halted: self.halted,
            last_validation_ns: self.last_validation_ns,
        }
    }
}

impl PreTradeRiskInterceptor {
    /// Well-formedness: one counter per slot and a well-formed queue.
    pub closed spec fn wf(&self) -> bool {
        &&& self@.open_orders.len() == SYMBOL_SLOTS
        &&& self.order_queue.wf()
    }

    /// An interceptor with the given configuration: not halted, an empty
    /// queue, no mid-price, all counters at zero.
    pub fn new(config: PreTradeConfig) -> (r: Self)
        requires
            0 < config.queue_capacity <= 0x4000_0000,
        ensures
            r.wf(),
            r@.config == config,
            r@.queue.items.len() == 0,
            crate::risk::gatekeeper::lock_free_order_queue::is_next_power_of_two(
                r@.queue.capacity as int,
                config.queue_capacity as int,
            ),
            r@.queue.dropped_count == 0,
            r@.fat_finger == (FatFingerView {
                mid_price: 0,
                mid_price_timestamp_ns: 0,
                collar_bps: config.fat_finger_collar_bps,
                max_stale_ns: config.stale_price_threshold_ns,
                rejection_count: 0,
            }),
            r@.open_orders == Seq::new(SYMBOL_SLOTS as nat, |i: int| 0u32),
            r@.total_open_orders == 0,
            r@.approved_count == 0,
            r@.rejected_count == 0,
            !r@.halted,
            r@.last_validation_ns == 0,
    {
        let order_queue = LockFreeOrderQueue::new(config.queue_capacity);
        let fat_finger = FatFingerValidator::new(config.fat_finger_collar_bps, config.stale_price_threshold_ns);
        let mut open_orders: Vec<u32> = Vec::new();
        let mut i: usize = 0;
        while i < SYMBOL_SLOTS
            invariant
                i <= SYMBOL_SLOTS,
                open_orders@ == Seq::new(i as nat, |j: int| 0u32),
            decreases SYMBOL_SLOTS - i,
        {
            open_orders.push(0);
            i = i + 1;
        }
        PreTradeRiskInterceptor {
            config,
            order_queue,
            fat_finger,
            open_orders,
            total_open_orders: 0,
            approved_count: 0,
            rejected_count: 0,
            halted: false,
            last_validation_ns: 0,
        }
    }

    /// The order queue, for the risk evaluation thread to inspect.
    pub fn get_queue(&self) -> (r: &LockFreeOrderQueue<OrderValidationRequest>)
        ensures
            r@ == self@.queue,
    {
        &self.order_queue
    }

    /// Validate `order`: halt flag, quantity, size limit, open-order limit,
    /// then the fat-finger collar for limit orders or mid-price freshness
    /// for market orders. An order that passes them is refused with
    /// `InvalidParameters("queue_full")` (and counted as rejected) when the
    /// risk thread's queue is full; otherwise it is queued and approved.
    pub fn validate_order(&mut self, order: OrderValidationRequest) -> (r: RiskValidationResult)
        requires
            old(self).wf(),
        ensures
            final(self).wf(),
            intercept_answer(old(self)@, order, r),
            intercept_state(old(self)@, order, final(self)@),
    {
        if self.halted {
            return RiskValidationResult::SystemHalted;
        }
        if order.quantity == 0 {
            return RiskValidationResult::InvalidParameters("zero_quantity");
        }
        if order.quantity > self.config.max_order_size {
            self.rejected_count = self.rejected_count.wrapping_add(1);
            return RiskValidationResult::SizeExceeded {
                submitted: order.quantity,
                max_allowed: self.config.max_order_size,
            };
        }
        let slot = hash_symbol(vstd::array::array_as_slice(&order.symbol)) as usize;
        let current_open = self.open_orders[slot];
        if current_open >= self.config.max_open_orders_per_symbol {
            self.rejected_count = self.rejected_count.wrapping_add(1);
            return RiskValidationResult::OpenOrderLimitExceeded {
                current_count: current_open,
                max_allowed: self.config.max_open_orders_per_symbol,
            };
        }
        let is_limit = matches!(order.order_type, OrderType::Limit);
        let is_market = matches!(order.order_type, OrderType::Market);
        if is_limit && order.price > 0 {
            let is_buy = matches!(order.side, Side::Buy);
            let verdict = self.fat_finger.validate_limit_price(order.price, is_buy, order.timestamp_ns);
            match verdict {
                FatFingerResult::Valid => {},
                other => {
                    self.rejected_count = self.rejected_count.wrapping_add(1);
                    return RiskValidationResult::FatFingerViolation(other);
                },
            }
        } else if is_market {
            if !self.fat_finger.validate_market_order(order.timestamp_ns) {
                self.rejected_count = self.rejected_count.wrapping_add(1);
                return RiskValidationResult::FatFingerViolation(FatFingerResult::StaleMidPrice);
            }
        }
        if self.order_queue.len() >= self.order_queue.capacity() {
            self.rejected_count = self.rejected_count.wrapping_add(1);
            return RiskValidationResult::InvalidParameters("queue_full");
        }
        let _ = self.order_queue.try_enqueue(order);
        self.approved_count = self.approved_count.wrapping_add(1);
        self.last_validation_ns = now_ns();
        RiskValidationResult::Approved
    }

    /// Drain the order queue, accepting every order; returns how many
    /// orders were taken.
    pub fn process_queued_orders(&mut self) -> (r: usize)
        requires
            old(self).wf(),
        ensures
            final(self).wf(),
            r == old(self)@.queue.items.len(),
            final(self)@ == (InterceptorView {
                queue: QueueView { items: Seq::empty(), ..old(self)@.queue },
                ..old(self)@
            }),
    {
        let mut processed: usize = 0;
        proof {
            self.order_queue.lemma_bounded();
        }
        loop
            invariant
                self.wf(),
                old(self)@.queue.items.len() <= old(self)@.queue.capacity,
                processed + self@.queue.items.len() == old(self)@.queue.items.len(),
                self@ == (InterceptorView {
                    queue: QueueView { items: self@.queue.items, ..old(self)@.queue },
                    ..old(self)@
                }),
            ensures
                self.wf(),
                processed == old(self)@.queue.items.len(),
                self@ == (InterceptorView {
                    queue: QueueView { items: self@.queue.items, ..old(self)@.queue },
                    ..old(self)@
                }),
                self@.queue.items.len() == 0,
            decreases self@.queue.items.len(),
        {
            let accept_all = |_order: &OrderValidationRequest| -> (b: bool)
                ensures
                    b,
            { true };
            match self.order_queue.try_dequeue(accept_all) {
                Ok(Some(_order)) => {
                    processed = processed + 1;
                },
                Ok(None) => {
                    break;
                },
                Err(_rejected) => {
                    processed = processed + 1;
                },
            }
        }
        assert(self@.queue.items =~= Seq::<OrderValidationRequest>::empty());
        processed
    }

    /// Count one more open order for `symbol`.
    pub fn increment_open_orders(&mut self, symbol: &[u8])
        requires
            old(self).wf(),
        ensures
            final(self).wf(),
            final(self)@ == (InterceptorView {
                open_orders: old(self)@.open_orders.update(
                    symbol_bucket(symbol@),
                    old(self)@.open_orders[symbol_bucket(symbol@)].wrapping_add(1),
                ),
                total_open_orders: old(self)@.total_open_orders.wrapping_add(1),
                ..old(self)@
            }),
    {
        let slot = hash_symbol(symbol) as usize;
        let count = self.open_orders[slot];
        self.open_orders.set(slot, count.wrapping_add(1));
        self.total_open_orders = self.total_open_orders.wrapping_add(1);
    }

    /// Count one open order less for `symbol`.
    pub fn decrement_open_orders(&mut self, symbol: &[u8])
        requires
            old(self).wf(),
        ensures
            final(self).wf(),
            final(self)@ == (InterceptorView {
                open_orders: old(self)@.open_orders.update(
                    symbol_bucket(symbol@),
                    old(self)@.open_orders[symbol_bucket(symbol@)].wrapping_sub(1),
                ),
                total_open_orders: old(self)@.total_open_orders.wrapping_sub(1),
                ..old(self)@
            }),
    {
        let slot = hash_symbol(symbol) as usize;
        let count = self.open_orders[slot];
        self.open_orders.set(slot, count.wrapping_sub(1));
        self.total_open_orders = self.total_open_orders.wrapping_sub(1);
    }

    /// Stop all order processing.
    pub fn halt(&mut self)
        ensures
            final(self)@ == (InterceptorView { halted: true, ..old(self)@ }),
    {
        self.halted = true;
    }

    /// Resume order processing.
    pub fn resume(&mut self)
        ensures
            final(self)@ == (InterceptorView { halted: false, ..old(self)@ }),
    {
        self.halted = false;
    }

    /// Whether processing is halted.
    pub fn is_halted(&self) -> (r: bool)
        ensures
            r == self@.halted,
    {
        self.halted
    }

    /// The statistics.
    pub fn stats(&self) -> (r: InterceptorStats)
        ensures
            r == (InterceptorStats {
                approved_count: self@.approved_count,
                rejected_count: self@.rejected_count,
                total_open_orders: self@.total_open_orders,
                queue_length: self@.queue.items.len() as usize,
                dropped_by_queue: self@.queue.dropped_count,
                fat_finger_rejections: self@.fat_finger.rejection_count,
                is_halted: self@.halted,
            }),
    {
        InterceptorStats {
            approved_count: self.approved_count,
            rejected_count: self.rejected_count,
            total_open_orders: self.total_open_orders,
            queue_length: self.order_queue.len(),
            dropped_by_queue: self.order_queue.dropped_count(),
            fat_finger_rejections: self.fat_finger.rejection_count(),
            is_halted: self.halted,
        }
    }

    /// Record the mid-price used by the fat-finger check; one mid-price
    /// serves every symbol.
    pub fn update_mid_price(&mut self, symbol: &[u8], price: u64, timestamp_ns: u64)
        ensures
            final(self)@ == (InterceptorView {
                fat_finger: FatFingerView {
                    mid_price: price,
                    mid_price_timestamp_ns: timestamp_ns,
                    ..old(self)@.fat_finger
                },
                ..old(self)@
            }),
    {
        self.fat_finger.update_mid_price(price, timestamp_ns);
    }
}

/// An order is approved only when the interceptor is running, the quantity
/// is positive and within the size limit, the symbol has room for another
/// open order, the price checks pass (a positive limit price within the
/// collar, or a fresh mid-price for a market order), and the order queue
/// has room for the order.
pub proof fn approval_requires_every_check(pre: InterceptorView, order: OrderValidationRequest)
    requires
        intercept_decision(pre, order) is Approve,
    ensures
        !pre.halted,
        0 < order.quantity <= pre.config.max_order_size,
        pre.open_orders[symbol_bucket(order.symbol@)] < pre.config.max_open_orders_per_symbol,
        order.order_type == OrderType::Limit && order.price > 0 ==> limit_price_verdict(
            pre.fat_finger,
            order.price,
            order.side == Side::Buy,
            order.timestamp_ns,
        ) == FatFingerResult::Valid,
        order.order_type == OrderType::Market ==> mid_is_fresh(pre.fat_finger, order.timestamp_ns),
        pre.queue.items.len() < pre.queue.capacity,
{
}

} // verus!
