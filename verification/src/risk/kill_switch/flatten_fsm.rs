//! Portfolio flatten state machine.
//!
//! After the kill switch trips, positions are closed in a fixed order:
//! Trading, then CancellingOrders, then TWAPLiquidation, then FlatAndHalted.

use vstd::prelude::*;

verus! {

/// Flatten states.
#[derive(Debug, Clone, Copy, PartialEq, Eq, Structural)]
pub enum FlattenState {
    /// Normal trading.
    Trading,
    /// Cancelling all open orders.
    CancellingOrders,
    /// Liquidating positions by TWAP.
    TWAPLiquidation,
    /// Flat, and halted.
    FlatAndHalted,
}

/// Position of a state in the flatten sequence.
pub open spec fn flatten_rank(s: FlattenState) -> int {
    match s {
        FlattenState::Trading => 0,
        FlattenState::CancellingOrders => 1,
        FlattenState::TWAPLiquidation => 2,
        FlattenState::FlatAndHalted => 3,
    }
}

/// Result of a transition attempt.
#[derive(Debug, Clone, Copy, PartialEq, Eq, Structural)]
pub enum TransitionResult {
    Success(FlattenState),
    Rejected { current: FlattenState, requested: FlattenState },
}

/// Flatten configuration.
#[derive(Debug, Clone, Copy, PartialEq, Eq, Structural)]
pub struct FlattenConfig {
    /// Largest slippage in basis points.
    pub max_slippage_bps: u16,
    /// Interval between TWAP slices, in milliseconds.
    pub twap_interval_ms: u64,
    /// Smallest order, in base units.
    pub min_order_size: u64,
}

impl Default for FlattenConfig {
    fn default() -> (r: Self)
        ensures
            r == (FlattenConfig { max_slippage_bps: 500, twap_interval_ms: 1000, min_order_size: 10_000 }),
    {
        FlattenConfig { max_slippage_bps: 500, twap_interval_ms: 1000, min_order_size: 10_000 }
    }
}

/// Flatten statistics.
#[derive(Debug, Clone, Copy, PartialEq, Eq, Structural)]
pub struct FlattenStats {
    pub current_state: FlattenState,
    pub positions_remaining: i64,
    pub total_liquidated: u64,
    pub cancelled_orders: u64,
    pub liquidation_trips: u64,
}

/// The abstract state of a [`FlattenFSM`].
pub struct FlattenView {
    pub config: FlattenConfig,
    pub state: FlattenState,
    pub is_liquidating: bool,
    /// Absolute position when flattening began.
    pub initial_position: u64,
    /// Absolute position still to liquidate.
    pub remaining_position: u64,
    pub cancelled_orders: u64,
    pub liquidation_trips: u64,
    pub total_liquidated: u64,
}

/// The absolute value of a position, as an unsigned amount.
pub open spec fn position_magnitude(p: i64) -> u64 {
    (if p < 0 { -(p as int) } else { p as int }) as u64
}

/// Starting to flatten a position of `total_position`.
pub open spec fn initiate_step(v: FlattenView, total_position: i64) -> (FlattenView, TransitionResult) {
    if v.state != FlattenState::Trading {
        (v, TransitionResult::Rejected { current: v.state, requested: FlattenState::CancellingOrders })
    } else {
        (
            FlattenView {
                state: FlattenState::CancellingOrders,
                is_liquidating: true,
                initial_position: position_magnitude(total_position),
                remaining_position: position_magnitude(total_position),
                liquidation_trips: v.liquidation_trips.wrapping_add(1),
                ..v
            },
            TransitionResult::Success(FlattenState::CancellingOrders),
        )
    }
}

/// Moving from order cancellation to TWAP liquidation.
pub open spec fn begin_twap_step(v: FlattenView) -> (FlattenView, TransitionResult) {
    if v.state != FlattenState::CancellingOrders {
        (v, TransitionResult::Rejected { current: v.state, requested: FlattenState::TWAPLiquidation })
    } else {
        (FlattenView { state: FlattenState::TWAPLiquidation, ..v }, TransitionResult::Success(FlattenState::TWAPLiquidation))
    }
}

/// Recording a liquidation fill of `quantity`: the remaining position
/// drops by it unless that would go below zero.
pub open spec fn fill_step(v: FlattenView, quantity: u64) -> FlattenView {
    FlattenView {
        remaining_position: if quantity <= v.remaining_position {
            (v.remaining_position - quantity) as u64
        } else {
            v.remaining_position
        },
        total_liquidated: v.total_liquidated.wrapping_add(quantity),
        ..v
    }
}

/// Checking whether liquidation is done; it is once nothing remains.
pub open spec fn complete_step(v: FlattenView) -> (FlattenView, TransitionResult) {
    if v.state == FlattenState::TWAPLiquidation && v.remaining_position == 0 {
        (
            FlattenView { state: FlattenState::FlatAndHalted, is_liquidating: false, ..v },
            TransitionResult::Success(FlattenState::FlatAndHalted),
        )
    } else {
        (v, TransitionResult::Rejected { current: v.state, requested: FlattenState::FlatAndHalted })
    }
}

/// Portfolio flatten state machine.
pub struct FlattenFSM {
    config: FlattenConfig,
    state: FlattenState,
    is_liquidating: bool,
    initial_position: u64,
    remaining_position: u64,
    cancelled_orders: u64,
    liquidation_trips: u64,
    total_liquidated: u64,
}

impl View for FlattenFSM {
    type V = FlattenView;

    closed spec fn view(&self) -> FlattenView {
        FlattenView {
            config: self.config,
            state: self.state,
            is_liquidating: self.is_liquidating,
            initial_position: self.initial_position,
            remaining_position: self.remaining_position,
            cancelled_orders: self.cancelled_orders,
            liquidation_trips: self.liquidation_trips,
            total_liquidated: self.total_liquidated,
        }
    }
}

impl FlattenFSM {
    /// A machine in `Trading`, with nothing to liquidate and zero counters.
    pub fn new(config: FlattenConfig) -> (r: Self)
        ensures
            r@ == (FlattenView {
                config,
                state: FlattenState::Trading,
                is_liquidating: false,
                initial_position: 0,
                remaining_position: 0,
                cancelled_orders: 0,
                liquidation_trips: 0,
                total_liquidated: 0,
            }),
    {
        FlattenFSM {
            config,
            state: FlattenState::Trading,
            is_liquidating: false,
            initial_position: 0,
            remaining_position: 0,
            cancelled_orders: 0,
            liquidation_trips: 0,
            total_liquidated: 0,
        }
    }

    /// The current state.
    pub fn get_state(&self) -> (r: FlattenState)
        ensures
            r == self@.state,
    {
        self.state
    }

    /// Begin flattening `total_position` (only from `Trading`).
    pub fn initiate_flatten(&mut self, total_position: i64) -> (r: TransitionResult)
        ensures
            (final(self)@, r) == initiate_step(old(self)@, total_position),
    {
        let current = self.state;
        if !matches!(current, FlattenState::Trading) {
            return TransitionResult::Rejected { current, requested: FlattenState::CancellingOrders };
        }
        let abs_position: u64 = if total_position < 0 {
            (-(total_position as i128)) as u64
        } else {
            total_position as u64
        };
        self.initial_position = abs_position;
        self.remaining_position = abs_position;
        self.state = FlattenState::CancellingOrders;
        self.is_liquidating = true;
        self.liquidation_trips = self.liquidation_trips.wrapping_add(1);
        TransitionResult::Success(FlattenState::CancellingOrders)
    }

    /// Count one cancelled order.
    pub fn record_cancel(&mut self)
        ensures
            final(self)@ == (FlattenView { cancelled_orders: old(self)@.cancelled_orders.wrapping_add(1), ..old(self)@ }),
    {
        self.cancelled_orders = self.cancelled_orders.wrapping_add(1);
    }

    /// Move to TWAP liquidation (only from `CancellingOrders`).
    pub fn begin_twap_liquidation(&mut self) -> (r: TransitionResult)
        ensures
            (final(self)@, r) == begin_twap_step(old(self)@),
    {
        let current = self.state;
        if !matches!(current, FlattenState::CancellingOrders) {
            return TransitionResult::Rejected { current, requested: FlattenState::TWAPLiquidation };
        }
        self.state = FlattenState::TWAPLiquidation;
        TransitionResult::Success(FlattenState::TWAPLiquidation)
    }

    /// Record a liquidation fill.
    pub fn record_liquidation_fill(&mut self, quantity: u64)
        ensures
            final(self)@ == fill_step(old(self)@, quantity),
    {
        if quantity <= self.remaining_position {
            self.remaining_position = self.remaining_position - quantity;
        }
        self.total_liquidated = self.total_liquidated.wrapping_add(quantity);
    }

    /// Move to `FlatAndHalted` once liquidating and nothing remains.
    pub fn check_liquidation_complete(&mut self) -> (r: TransitionResult)
        ensures
            (final(self)@, r) == complete_step(old(self)@),
    {
        let current = self.state;
        if !matches!(current, FlattenState::TWAPLiquidation) {
            return TransitionResult::Rejected { current, requested: FlattenState::FlatAndHalted };
        }
        if self.remaining_position == 0 {
            self.state = FlattenState::FlatAndHalted;
            self.is_liquidating = false;
            TransitionResult::Success(FlattenState::FlatAndHalted)
        } else {
            TransitionResult::Rejected { current, requested: FlattenState::FlatAndHalted }
        }
    }

    /// Return to `Trading` with nothing to liquidate; counters are kept.
    pub fn reset(&mut self)
        ensures
            final(self)@ == (FlattenView {
                state: FlattenState::Trading,
                is_liquidating: false,
                initial_position: 0,
                remaining_position: 0,
                ..old(self)@
            }),
    {
        self.state = FlattenState::Trading;
        self.is_liquidating = false;
        self.initial_position = 0;
        self.remaining_position = 0;
    }

    /// Configured slippage limit.
    pub fn max_slippage_bps(&self) -> (r: u16)
        ensures
            r == self@.config.max_slippage_bps,
    {
        self.config.max_slippage_bps
    }

    /// Configured TWAP interval.
    pub fn twap_interval_ms(&self) -> (r: u64)
        ensures
            r == self@.config.twap_interval_ms,
    {
        self.config.twap_interval_ms
    }

    /// The statistics; the remaining position is reported as a signed
    /// 64-bit value.
    pub fn stats(&self) -> (r: FlattenStats)
        ensures
            r == (FlattenStats {
                current_state: self@.state,
                positions_remaining: self@.remaining_position as i64,
                total_liquidated: self@.total_liquidated,
                cancelled_orders: self@.cancelled_orders,
                liquidation_trips: self@.liquidation_trips,
            }),
    {
        FlattenStats {
            current_state: self.state,
            positions_remaining: #[verifier::truncate] (self.remaining_position as i64),
            total_liquidated: self.total_liquidated,
            cancelled_orders: self.cancelled_orders,
            liquidation_trips: self.liquidation_trips,
        }
    }

    /// Whether a liquidation sequence is under way.
    pub fn is_liquidating(&self) -> (r: bool)
        ensures
            r == self@.is_liquidating,
    {
        self.is_liquidating
    }
}

/// The flatten sequence only moves forward, one step at a time: every
/// transition that succeeds raises the state's rank by exactly one, and a
/// refused one changes nothing.
pub proof fn flatten_moves_forward(v: FlattenView, total_position: i64)
    ensures
        initiate_step(v, total_position).1 is Success ==> flatten_rank(initiate_step(v, total_position).0.state)
            == flatten_rank(v.state) + 1,
        begin_twap_step(v).1 is Success ==> flatten_rank(begin_twap_step(v).0.state) == flatten_rank(v.state) + 1,
        complete_step(v).1 is Success ==> flatten_rank(complete_step(v).0.state) == flatten_rank(v.state) + 1,
        initiate_step(v, total_position).1 is Rejected ==> initiate_step(v, total_position).0 == v,
        begin_twap_step(v).1 is Rejected ==> begin_twap_step(v).0 == v,
        complete_step(v).1 is Rejected ==> complete_step(v).0 == v,
        fill_step(v, 0).state == v.state,
{
}

/// The machine is flat and halted only after everything was liquidated:
/// completion succeeds exactly when liquidating with nothing remaining.
pub proof fn flat_only_when_liquidated(v: FlattenView)
    ensures
        complete_step(v).1 is Success <==> (v.state == FlattenState::TWAPLiquidation && v.remaining_position == 0),
{
}

/// Fills never raise the remaining position, and fills adding up to the
/// position liquidate it completely.
pub proof fn fills_drain_position(v: FlattenView, a: u64, b: u64)
    requires
        a + b == v.remaining_position,
    ensures
        fill_step(v, a).remaining_position <= v.remaining_position,
        fill_step(fill_step(v, a), b).remaining_position == 0,
{
}

} // verus!
