//! Pre-trade risk filter.
//!
//! Every outbound order is validated here. An order may be signed only with
//! a [`RiskApproved`] token, and such a token is made only by
//! [`PreTradeRiskGatekeeper::validate`] once every check has passed.

use vstd::prelude::*;

use crate::risk::gatekeeper::fat_finger_collars::price_bounds::{spec_lower_bound, spec_upper_bound};
use crate::risk::gatekeeper::position_accumulator::{
    position_verdict, AtomicPositionAccumulator, PositionCheckResult, PositionView,
};
use crate::risk::gatekeeper::price_collar::{
    collar_verdict, symbol_slot, PriceCollarValidator, PriceCollarView,
};
use crate::risk::gatekeeper::price_collar::price_bounds;

verus! {

/// Proof that an order passed every risk check. It has no public
/// constructor.
#[derive(Debug, Clone, Copy, PartialEq, Eq, Structural)]
pub struct RiskApproved {
    sequence: u64,
    timestamp_ns: u64,
}

impl RiskApproved {
    /// The approval's sequence number.
    pub closed spec fn spec_sequence(&self) -> u64 {
        self.sequence
    }

    /// The approved order's timestamp.
    pub closed spec fn spec_timestamp_ns(&self) -> u64 {
        self.timestamp_ns
    }

    fn new_internal(sequence: u64, timestamp_ns: u64) -> (r: Self)
        ensures
            r.spec_sequence() == sequence,
            r.spec_timestamp_ns() == timestamp_ns,
    {
        RiskApproved { sequence, timestamp_ns }
    }

    /// The approval's sequence number.
    pub fn sequence(&self) -> (r: u64)
        ensures
            r == self.spec_sequence(),
    {
        self.sequence
    }

    /// The approved order's timestamp.
    pub fn timestamp_ns(&self) -> (r: u64)
        ensures
            r == self.spec_timestamp_ns(),
    {
        self.timestamp_ns
    }
}

/// Why an order was refused.
#[derive(Debug, Clone, Copy, PartialEq, Eq)]
pub enum RiskViolation {
    /// The price lies outside the collar.
    PriceCollarViolation { submitted_price: u64, min_allowed: u64, max_allowed: u64 },
    /// The position limit would be exceeded.
    PositionLimitExceeded { current_position: i64, requested_delta: i64, max_position: i64 },
    /// The margin limit would be exceeded.
    MarginLimitExceeded { current_margin_used: u64, requested_margin: u64, max_margin: u64 },
    /// Market orders are refused.
    MarketOrderRejected,
    /// The kill switch is active.
    KillSwitchActive,
    /// The order's parameters are invalid.
    InvalidParameters(&'static str),
    /// The system is halted.
    SystemHalted,
}

/// Gatekeeper configuration.
#[derive(Debug, Clone, Copy, PartialEq, Eq, Structural)]
pub struct GatekeeperConfig {
    /// Limit on the absolute position, in base units.
    pub max_position_size: i64,
    /// Limit on the margin of one order, in quote units.
    pub max_margin_utilization: u64,
    /// Price collar in basis points.
    pub price_collar_bps: u16,
    /// Age after which a price is stale, in nanoseconds.
    pub stale_price_threshold_ns: u64,
    /// Whether market orders are refused.
    pub reject_market_orders: bool,
}

impl Default for GatekeeperConfig {
    fn default() -> (r: Self)
        ensures
            r == (GatekeeperConfig {
                max_position_size: 10_000_000_000,
                max_margin_utilization: 1_000_000_000,
                price_collar_bps: 200,
                stale_price_threshold_ns: 100_000_000,
                reject_market_orders: true,
            }),
    {
        GatekeeperConfig {
            max_position_size: 10_000_000_000,
            max_margin_utilization: 1_000_000_000,
            price_collar_bps: 200,
            stale_price_threshold_ns: 100_000_000,
            reject_market_orders: true,
        }
    }
}

/// An order presented for validation.
#[derive(Debug, Clone, Copy, PartialEq, Eq, Structural)]
pub struct RiskOrder {
    pub order_id: u64,
    pub symbol_hash: u64,
    /// `true` for a buy.
    pub is_buy: bool,
    /// `true` for a limit order, `false` for a market order.
    pub is_limit: bool,
    /// Quantity in base units.
    pub quantity: u64,
    /// Limit price in quote units.
    pub price: u64,
    /// Current micro-price of the symbol.
    pub micro_price: u64,
    pub timestamp_ns: u64,
    /// Estimated margin requirement.
    pub margin_required: u64,
}

/// Gatekeeper counters.
#[derive(Debug, Clone, Copy, PartialEq, Eq, Structural)]
pub struct GatekeeperStats {
    pub total_validated: u64,
    pub total_approved: u64,
    pub total_rejected: u64,
    pub price_violations: u64,
    pub position_violations: u64,
    pub margin_violations: u64,
    pub market_order_rejections: u64,
    pub kill_switch_blocks: u64,
}

/// The signed position change of a quantity: the quantity taken as an
/// `i64` in two's complement, negated for a sell; the negation of
/// `i64::MIN` (a sell of 2^63) is `i64::MIN` itself.
pub open spec fn signed_delta(quantity: u64, is_buy: bool) -> i64 {
    let q = quantity as i64;
    if is_buy {
        q
    } else if q == i64::MIN {
        i64::MIN
    } else {
        (-q) as i64
    }
}

/// The signed position change of an order.
pub open spec fn order_delta(order: RiskOrder) -> i64 {
    signed_delta(order.quantity, order.is_buy)
}

/// Which check decides an order.
pub enum GateDecision {
    KillSwitch,
    ZeroQuantity,
    MarketOrder,
    PriceCollar,
    PositionLimit,
    MarginLimit,
    Approve,
}

/// The first check that refuses `order`, or `Approve`.
pub open spec fn gate_decision(pre: GatekeeperView, order: RiskOrder) -> GateDecision {
    if pre.kill_switch_active {
        GateDecision::KillSwitch
    } else if order.quantity == 0 {
        GateDecision::ZeroQuantity
    } else if pre.config.reject_market_orders && !order.is_limit {
        GateDecision::MarketOrder
    } else if order.is_limit && order.price > 0 && order.micro_price > 0
        && collar_verdict(pre.config.price_collar_bps, order.price, order.is_buy, order.micro_price) is Err {
        GateDecision::PriceCollar
    } else if position_verdict(
        pre.positions.positions[symbol_slot(order.symbol_hash)],
        order_delta(order),
        pre.config.max_position_size,
    ) is Err {
        GateDecision::PositionLimit
    } else if order.margin_required > pre.config.max_margin_utilization {
        GateDecision::MarginLimit
    } else {
        GateDecision::Approve
    }
}

/// The abstract state of a [`PreTradeRiskGatekeeper`].
pub struct GatekeeperView {
    pub config: GatekeeperConfig,
    pub price_collar: PriceCollarView,
    pub positions: PositionView,
    pub kill_switch_active: bool,
    pub stats: GatekeeperStats,
    /// Sequence number of the next approval.
    pub sequence_counter: u64,
}

/// The pre-trade risk gatekeeper.
pub struct PreTradeRiskGatekeeper {
    config: GatekeeperConfig,
    price_collar: PriceCollarValidator,
    position_accumulator: AtomicPositionAccumulator,
    kill_switch_active: bool,
    stats: GatekeeperStats,
    sequence_counter: u64,
}

impl View for PreTradeRiskGatekeeper {
    type V = GatekeeperView;

    closed spec fn view(&self) -> GatekeeperView {
        GatekeeperView {
            config: self.config,
            price_collar: self.price_collar@,
            positions: self.position_accumulator@,
            kill_switch_active: self.kill_switch_active,
            stats: self.stats,
            sequence_counter: self.sequence_counter,
        }
    }
}

/// Counters with one more rejection, where `bump` says which specific
/// counter also advances.
pub open spec fn stats_after(pre: GatekeeperStats, decision: GateDecision) -> GatekeeperStats {
    let s = GatekeeperStats { total_validated: pre.total_validated.wrapping_add(1), ..pre };
    match decision {
        GateDecision::KillSwitch => GatekeeperStats {
            kill_switch_blocks: s.kill_switch_blocks.wrapping_add(1),
            total_rejected: s.total_rejected.wrapping_add(1),
            ..s
        },
        GateDecision::ZeroQuantity => GatekeeperStats { total_rejected: s.total_rejected.wrapping_add(1), ..s },
        GateDecision::MarketOrder => GatekeeperStats {
            market_order_rejections: s.market_order_rejections.wrapping_add(1),
            total_rejected: s.total_rejected.wrapping_add(1),
            ..s
        },
        GateDecision::PriceCollar => GatekeeperStats {
            price_violations: s.price_violations.wrapping_add(1),
            total_rejected: s.total_rejected.wrapping_add(1),
            ..s
        },
        GateDecision::PositionLimit => GatekeeperStats {
            position_violations: s.position_violations.wrapping_add(1),
            total_rejected: s.total_rejected.wrapping_add(1),
            ..s
        },
        GateDecision::MarginLimit => GatekeeperStats {
            margin_violations: s.margin_violations.wrapping_add(1),
            total_rejected: s.total_rejected.wrapping_add(1),
            ..s
        },
        GateDecision::Approve => GatekeeperStats { total_approved: s.total_approved.wrapping_add(1), ..s },
    }
}

/// The answer `validate` gives for `order` in state `pre`.
pub open spec fn validate_answer(pre: GatekeeperView, order: RiskOrder, r: Result<RiskApproved, RiskViolation>) -> bool {
    let current = pre.positions.positions[symbol_slot(order.symbol_hash)];
    let cfg = pre.config;
    match gate_decision(pre, order) {
        GateDecision::KillSwitch => r == Err::<RiskApproved, RiskViolation>(RiskViolation::KillSwitchActive),
        GateDecision::ZeroQuantity => r matches Err(RiskViolation::InvalidParameters(s)) && s@ == "zero_quantity"@,
        GateDecision::MarketOrder => r == Err::<RiskApproved, RiskViolation>(RiskViolation::MarketOrderRejected),
        GateDecision::PriceCollar => r == Err::<RiskApproved, RiskViolation>(
            if order.is_buy {
                RiskViolation::PriceCollarViolation {
                    submitted_price: order.price,
                    min_allowed: 0,
                    max_allowed: spec_upper_bound(order.micro_price, cfg.price_collar_bps),
                }
            } else {
                RiskViolation::PriceCollarViolation {
                    submitted_price: order.price,
                    min_allowed: spec_lower_bound(order.micro_price, cfg.price_collar_bps),
                    max_allowed: u64::MAX,
                }
            },
        ),
        GateDecision::PositionLimit => r == Err::<RiskApproved, RiskViolation>(
            RiskViolation::PositionLimitExceeded {
                current_position: current,
                requested_delta: order_delta(order),
                max_position: cfg.max_position_size,
            },
        ),
        GateDecision::MarginLimit => r == Err::<RiskApproved, RiskViolation>(
            RiskViolation::MarginLimitExceeded {
                current_margin_used: 0,
                requested_margin: order.margin_required,
                max_margin: cfg.max_margin_utilization,
            },
        ),
        GateDecision::Approve => r matches Ok(token) && token.spec_sequence() == pre.sequence_counter
            && token.spec_timestamp_ns() == order.timestamp_ns,
    }
}

/// The signed position change of a quantity; see [`signed_delta`].
fn quantity_delta(quantity: u64, is_buy: bool) -> (r: i64)
    ensures
        r == signed_delta(quantity, is_buy),
{
    let q: i64 = #[verifier::truncate] (quantity as i64);
    if is_buy {
        q
    } else if q == i64::MIN {
        i64::MIN
    } else {
        -q
    }
}

/// The state after validating `order` in state `pre`: the counters of the
/// deciding check advance, an approval takes the next sequence number, and
/// nothing else changes.
pub open spec fn validate_step(pre: GatekeeperView, order: RiskOrder) -> GatekeeperView {
    let d = gate_decision(pre, order);
    GatekeeperView {
        stats: stats_after(pre.stats, d),
        sequence_counter: if d is Approve {
            pre.sequence_counter.wrapping_add(1)
        } else {
            pre.sequence_counter
        },
        positions: PositionView {
            violation_count: if d is PositionLimit {
                pre.positions.violation_count.wrapping_add(1)
            } else {
                pre.positions.violation_count
            },
            ..pre.positions
        },
        price_collar: PriceCollarView {
            violation_count: if d is PriceCollar {
                pre.price_collar.violation_count.wrapping_add(1)
            } else {
                pre.price_collar.violation_count
            },
            ..pre.price_collar
        },
        ..pre
    }
}

/// The state after validating `orders` one after the other.
pub open spec fn validate_run(pre: GatekeeperView, orders: Seq<RiskOrder>) -> GatekeeperView
    decreases orders.len(),
{
    if orders.len() == 0 {
        pre
    } else {
        validate_step(validate_run(pre, orders.drop_last()), orders.last())
    }
}

/// A call on a gatekeeper, for stating what a history of calls does.
pub enum GateCall {
    Validate(RiskOrder),
    RecordFill { symbol_hash: u64, fill_quantity: u64, is_buy: bool },
    RecordCancel,
    ActivateKillSwitch,
    DeactivateKillSwitch,
    UpdateMicroPrice { symbol_hash: u64, price: u64, timestamp_ns: u64 },
}

/// The state after one call.
pub open spec fn call_step(pre: GatekeeperView, call: GateCall) -> GatekeeperView {
    match call {
        GateCall::Validate(order) => validate_step(pre, order),
        GateCall::RecordFill { symbol_hash, fill_quantity, is_buy } => GatekeeperView {
            positions: PositionView {
                positions: pre.positions.positions.update(
                    symbol_slot(symbol_hash),
                    pre.positions.positions[symbol_slot(symbol_hash)].wrapping_add(
                        signed_delta(fill_quantity, is_buy),
                    ),
                ),
                update_count: pre.positions.update_count.wrapping_add(1),
                ..pre.positions
            },
            ..pre
        },
        GateCall::RecordCancel => pre,
        GateCall::ActivateKillSwitch => GatekeeperView { kill_switch_active: true, ..pre },
        GateCall::DeactivateKillSwitch => GatekeeperView { kill_switch_active: false, ..pre },
        GateCall::UpdateMicroPrice { symbol_hash, price, timestamp_ns } => GatekeeperView {
            price_collar: PriceCollarView {
                micro_prices: pre.price_collar.micro_prices.update(symbol_slot(symbol_hash), price),
                last_update_ns: pre.price_collar.last_update_ns.update(symbol_slot(symbol_hash), timestamp_ns),
                ..pre.price_collar
            },
            ..pre
        },
    }
}

/// The state after `calls`, one after the other.
pub open spec fn call_run(pre: GatekeeperView, calls: Seq<GateCall>) -> GatekeeperView
    decreases calls.len(),
{
    if calls.len() == 0 {
        pre
    } else {
        call_step(call_run(pre, calls.drop_last()), calls.last())
    }
}

/// How many of `calls` are validations.
pub open spec fn validation_count(calls: Seq<GateCall>) -> nat
    decreases calls.len(),
{
    if calls.len() == 0 {
        0
    } else {
        validation_count(calls.drop_last()) + if calls.last() is Validate { 1nat } else { 0nat }
    }
}

impl PreTradeRiskGatekeeper {
    /// Well-formedness: the components are well formed and use the
    /// configured collar and position limit.
    pub open spec fn wf(&self) -> bool {
        &&& self@.price_collar.micro_prices.len() == crate::risk::gatekeeper::price_collar::MAX_SYMBOLS
        &&& self@.price_collar.last_update_ns.len() == crate::risk::gatekeeper::price_collar::MAX_SYMBOLS
        &&& self@.positions.positions.len() == crate::risk::gatekeeper::price_collar::MAX_SYMBOLS
        &&& self@.price_collar.collar_bps == self@.config.price_collar_bps
        &&& self@.price_collar.stale_threshold_ns == self@.config.stale_price_threshold_ns
        &&& self@.positions.max_position == self@.config.max_position_size
    }

    /// A gatekeeper with the given configuration: kill switch off, flat
    /// positions, all counters at zero.
    pub fn new(config: GatekeeperConfig) -> (r: Self)
        ensures
            r.wf(),
            r@.config == config,
            r@.positions.positions == Seq::new(crate::risk::gatekeeper::price_collar::MAX_SYMBOLS as nat, |i: int| 0i64),
            r@.positions.update_count == 0,
            r@.positions.violation_count == 0,
            r@.price_collar.violation_count == 0,
            !r@.kill_switch_active,
            r@.stats == (GatekeeperStats {
                total_validated: 0,
                total_approved: 0,
                total_rejected: 0,
                price_violations: 0,
                position_violations: 0,
                margin_violations: 0,
                market_order_rejections: 0,
                kill_switch_blocks: 0,
            }),
            r@.sequence_counter == 0,
    {
        let price_collar = PriceCollarValidator::new(config.price_collar_bps, config.stale_price_threshold_ns);
        let position_accumulator = AtomicPositionAccumulator::new(config.max_position_size);
        PreTradeRiskGatekeeper {
            config,
            price_collar,
            position_accumulator,
            kill_switch_active: false,
            stats: GatekeeperStats {
                total_validated: 0,
                total_approved: 0,
                total_rejected: 0,
                price_violations: 0,
                position_violations: 0,
                margin_violations: 0,
                market_order_rejections: 0,
                kill_switch_blocks: 0,
            },
            sequence_counter: 0,
        }
    }

    /// Run every risk check on `order`, in order: kill switch, quantity,
    /// order type, price collar, position limit, margin limit. The first
    /// failing check decides the refusal; an order that passes all of them
    /// receives a token carrying the next sequence number.
    pub fn validate(&mut self, order: &RiskOrder) -> (r: Result<RiskApproved, RiskViolation>)
        requires
            old(self).wf(),
        ensures
            final(self).wf(),
            validate_answer(old(self)@, *order, r),
            final(self)@ == validate_step(old(self)@, *order),
            final(self)@ == call_step(old(self)@, GateCall::Validate(*order)),
            final(self)@.config == old(self)@.config,
            final(self)@.kill_switch_active == old(self)@.kill_switch_active,
            final(self)@.stats == stats_after(old(self)@.stats, gate_decision(old(self)@, *order)),
            final(self)@.sequence_counter == if gate_decision(old(self)@, *order) is Approve {
                old(self)@.sequence_counter.wrapping_add(1)
            } else {
                old(self)@.sequence_counter
            },
            final(self)@.positions.positions == old(self)@.positions.positions,
            final(self)@.positions.update_count == old(self)@.positions.update_count,
            final(self)@.positions.violation_count == if gate_decision(old(self)@, *order) is PositionLimit {
                old(self)@.positions.violation_count.wrapping_add(1)
            } else {
                old(self)@.positions.violation_count
            },
            final(self)@.price_collar.micro_prices == old(self)@.price_collar.micro_prices,
            final(self)@.price_collar.last_update_ns == old(self)@.price_collar.last_update_ns,
            final(self)@.price_collar.violation_count == if gate_decision(old(self)@, *order) is PriceCollar {
                old(self)@.price_collar.violation_count.wrapping_add(1)
            } else {
                old(self)@.price_collar.violation_count
            },
    {
        self.stats.total_validated = self.stats.total_validated.wrapping_add(1);

        if self.kill_switch_active {
            self.stats.kill_switch_blocks = self.stats.kill_switch_blocks.wrapping_add(1);
            self.stats.total_rejected = self.stats.total_rejected.wrapping_add(1);
            return Err(RiskViolation::KillSwitchActive);
        }

        if order.quantity == 0 {
            self.stats.total_rejected = self.stats.total_rejected.wrapping_add(1);
            return Err(RiskViolation::InvalidParameters("zero_quantity"));
        }

        if self.config.reject_market_orders && !order.is_limit {
            self.stats.market_order_rejections = self.stats.market_order_rejections.wrapping_add(1);
            self.stats.total_rejected = self.stats.total_rejected.wrapping_add(1);
            return Err(RiskViolation::MarketOrderRejected);
        }

        if order.is_limit && order.price > 0 && order.micro_price > 0 {
            match self.price_collar.validate(order.price, order.is_buy, order.micro_price, order.timestamp_ns) {
                Ok(()) => {},
                Err(_) => {
                    self.stats.price_violations = self.stats.price_violations.wrapping_add(1);
                    self.stats.total_rejected = self.stats.total_rejected.wrapping_add(1);
                    if order.is_buy {
                        return Err(RiskViolation::PriceCollarViolation {
                            submitted_price: order.price,
                            min_allowed: 0,
                            max_allowed: price_bounds::upper_bound(order.micro_price, self.config.price_collar_bps),
                        });
                    } else {
                        return Err(RiskViolation::PriceCollarViolation {
                            submitted_price: order.price,
                            min_allowed: price_bounds::lower_bound(order.micro_price, self.config.price_collar_bps),
                            max_allowed: u64::MAX,
                        });
                    }
                },
            }
        }

        let delta = quantity_delta(order.quantity, order.is_buy);

        match self.position_accumulator.check_position_would_exceed(order.symbol_hash, delta) {
            Ok(()) => {},
            Err(violation) => {
                self.stats.position_violations = self.stats.position_violations.wrapping_add(1);
                self.stats.total_rejected = self.stats.total_rejected.wrapping_add(1);
                return match violation {
                    PositionCheckResult::WouldExceed { current, requested_delta, max_allowed, .. } => Err(
                        RiskViolation::PositionLimitExceeded {
                            current_position: current,
                            requested_delta,
                            max_position: max_allowed,
                        },
                    ),
                    PositionCheckResult::WithinLimits => Err(RiskViolation::PositionLimitExceeded {
                        current_position: 0,
                        requested_delta: delta,
                        max_position: self.config.max_position_size,
                    }),
                };
            },
        }

        if order.margin_required > self.config.max_margin_utilization {
            self.stats.margin_violations = self.stats.margin_violations.wrapping_add(1);
            self.stats.total_rejected = self.stats.total_rejected.wrapping_add(1);
            return Err(RiskViolation::MarginLimitExceeded {
                current_margin_used: 0,
                requested_margin: order.margin_required,
                max_margin: self.config.max_margin_utilization,
            });
        }

        let sequence = self.sequence_counter;
        self.sequence_counter = self.sequence_counter.wrapping_add(1);
        self.stats.total_approved = self.stats.total_approved.wrapping_add(1);
        Ok(RiskApproved::new_internal(sequence, order.timestamp_ns))
    }

    /// Apply a fill to the position of `symbol_hash`: its quantity for a
    /// buy, the negated quantity for a sell (see [`signed_delta`]), added
    /// with wrap-around.
    pub fn record_fill(&mut self, symbol_hash: u64, fill_quantity: u64, is_buy: bool)
        requires
            old(self).wf(),
        ensures
            final(self).wf(),
            final(self)@ == call_step(old(self)@, GateCall::RecordFill { symbol_hash, fill_quantity, is_buy }),
            final(self)@ == (GatekeeperView {
                positions: PositionView {
                    positions: old(self)@.positions.positions.update(
                        symbol_slot(symbol_hash),
                        old(self)@.positions.positions[symbol_slot(symbol_hash)].wrapping_add(
                            signed_delta(fill_quantity, is_buy),
                        ),
                    ),
                    update_count: old(self)@.positions.update_count.wrapping_add(1),
                    ..old(self)@.positions
                },
                ..old(self)@
            }),
    {
        let delta = quantity_delta(fill_quantity, is_buy);
        self.position_accumulator.update_position(symbol_hash, delta);
    }

    /// A cancellation changes no position: nothing was filled.
    pub fn record_cancel(&mut self, symbol_hash: u64, unfilled_quantity: u64, was_buy: bool)
        ensures
            final(self)@ == old(self)@,
            final(self)@ == call_step(old(self)@, GateCall::RecordCancel),
    {
    }

    /// Block all orders.
    pub fn activate_kill_switch(&mut self)
        ensures
            final(self)@ == (GatekeeperView { kill_switch_active: true, ..old(self)@ }),
            final(self)@ == call_step(old(self)@, GateCall::ActivateKillSwitch),
    {
        self.kill_switch_active = true;
    }

    /// Let orders through again.
    pub fn deactivate_kill_switch(&mut self)
        ensures
            final(self)@ == (GatekeeperView { kill_switch_active: false, ..old(self)@ }),
            final(self)@ == call_step(old(self)@, GateCall::DeactivateKillSwitch),
    {
        self.kill_switch_active = false;
    }

    /// Whether the kill switch is active.
    pub fn is_kill_switch_active(&self) -> (r: bool)
        ensures
            r == self@.kill_switch_active,
    {
        self.kill_switch_active
    }

    /// Record a symbol's micro-price.
    pub fn update_micro_price(&mut self, symbol_hash: u64, price: u64, timestamp_ns: u64)
        requires
            old(self).wf(),
        ensures
            final(self).wf(),
            final(self)@ == call_step(old(self)@, GateCall::UpdateMicroPrice { symbol_hash, price, timestamp_ns }),
            final(self)@ == (GatekeeperView {
                price_collar: PriceCollarView {
                    micro_prices: old(self)@.price_collar.micro_prices.update(symbol_slot(symbol_hash), price),
                    last_update_ns: old(self)@.price_collar.last_update_ns.update(symbol_slot(symbol_hash), timestamp_ns),
                    ..old(self)@.price_collar
                },
                ..old(self)@
            }),
    {
        self.price_collar.update_price(symbol_hash, price, timestamp_ns);
    }

    /// The counters.
    pub fn stats(&self) -> (r: GatekeeperStats)
        ensures
            r == self@.stats,
    {
        self.stats
    }

    /// The net position of a symbol.
    pub fn get_position(&self, symbol_hash: u64) -> (r: i64)
        requires
            self.wf(),
        ensures
            r == self@.positions.positions[symbol_slot(symbol_hash)],
    {
        self.position_accumulator.get_position(symbol_hash)
    }
}

/// An order is approved only when every check passed: the kill switch is
/// off, the quantity positive, the order type allowed, the price within the
/// collar, the resulting position within the limit and the margin within
/// its limit.
pub proof fn approval_requires_every_check(pre: GatekeeperView, order: RiskOrder)
    requires
        gate_decision(pre, order) is Approve,
    ensures
        !pre.kill_switch_active,
        order.quantity > 0,
        order.is_limit || !pre.config.reject_market_orders,
        order.is_limit && order.price > 0 && order.micro_price > 0 ==> collar_verdict(
            pre.config.price_collar_bps,
            order.price,
            order.is_buy,
            order.micro_price,
        ) is Ok,
        ({
            let p = pre.positions.positions[symbol_slot(order.symbol_hash)] + order_delta(order);
            &&& i64::MIN <= p <= i64::MAX
            &&& -pre.config.max_position_size <= p <= pre.config.max_position_size
        }),
        order.margin_required <= pre.config.max_margin_utilization,
{
}

/// While the kill switch is active every order is refused as such.
pub proof fn kill_switch_refuses_everything(pre: GatekeeperView, order: RiskOrder)
    requires
        pre.kill_switch_active,
    ensures
        gate_decision(pre, order) is KillSwitch,
{
}

/// Counters that have seen `n` validations and no more.
pub open spec fn counters_consistent(pre: GatekeeperView, n: nat) -> bool {
    let s = pre.stats;
    &&& s.total_validated == n
    &&& s.total_approved + s.total_rejected == s.total_validated
    &&& s.price_violations + s.position_violations + s.margin_violations + s.market_order_rejections
        + s.kill_switch_blocks <= s.total_rejected
    &&& pre.sequence_counter == s.total_approved
}

/// Over any history of validations from a fresh gatekeeper (as `new`
/// makes it): every validation is counted once, as approved or rejected;
/// the rejections counted by cause are among the rejections; the next
/// approval's sequence number is the number of approvals so far, so the
/// j-th token carries sequence j - 1; and validation moves no position and
/// leaves the kill switch and configuration alone.
pub proof fn validation_history_counts(pre: GatekeeperView, orders: Seq<RiskOrder>)
    requires
        pre.stats == (GatekeeperStats {
            total_validated: 0,
            total_approved: 0,
            total_rejected: 0,
            price_violations: 0,
            position_violations: 0,
            margin_violations: 0,
            market_order_rejections: 0,
            kill_switch_blocks: 0,
        }),
        pre.sequence_counter == 0,
        orders.len() < u64::MAX,
    ensures
        counters_consistent(validate_run(pre, orders), orders.len()),
        validate_run(pre, orders).positions.positions == pre.positions.positions,
        validate_run(pre, orders).kill_switch_active == pre.kill_switch_active,
        validate_run(pre, orders).config == pre.config,
    decreases orders.len(),
{
    if orders.len() > 0 {
        validation_history_counts(pre, orders.drop_last());
    }
}

/// The counters over any history of calls from a fresh gatekeeper, with
/// validations mixed among fills, cancellations, price updates and kill
/// switch changes: only validations move the counters and the sequence
/// number, so every validation is counted once, as approved or rejected,
/// the rejections counted by cause are among the rejections, and the next
/// approval's sequence number is the number of approvals so far.
pub proof fn call_history_counts(pre: GatekeeperView, calls: Seq<GateCall>)
    requires
        pre.stats == (GatekeeperStats {
            total_validated: 0,
            total_approved: 0,
            total_rejected: 0,
            price_violations: 0,
            position_violations: 0,
            margin_violations: 0,
            market_order_rejections: 0,
            kill_switch_blocks: 0,
        }),
        pre.sequence_counter == 0,
        calls.len() < u64::MAX,
    ensures
        counters_consistent(call_run(pre, calls), validation_count(calls)),
        validation_count(calls) <= calls.len(),
        call_run(pre, calls).config == pre.config,
    decreases calls.len(),
{
    if calls.len() > 0 {
        call_history_counts(pre, calls.drop_last());
    }
}

} // verus!
