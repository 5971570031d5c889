//! Global system state machine.
//!
//! Every execution component consults one system state. Transitions follow a
//! fixed table; any state may always be taken to `Dead`.

use vstd::prelude::*;

verus! {

/// System state.
#[derive(Debug, Clone, Copy, PartialEq, Eq, Structural)]
pub enum SystemState {
    /// Normal trading operation.
    Trading,
    /// No new orders; existing orders still live.
    Halting,
    /// Actively closing all positions.
    Flattening,
    /// Complete shutdown, no network activity allowed.
    Dead,
    /// Temporary pause (maintenance).
    Paused,
    /// Attempting to recover from an error state.
    Recovery,
}

/// The numeric code of a state (its position in the declaration).
pub open spec fn state_code(s: SystemState) -> u8 {
    match s {
        SystemState::Trading => 0,
        SystemState::Halting => 1,
        SystemState::Flattening => 2,
        SystemState::Dead => 3,
        SystemState::Paused => 4,
        SystemState::Recovery => 5,
    }
}

/// The state with a given code, if any.
pub open spec fn state_of_code(value: u8) -> Option<SystemState> {
    if value == 0 {
        Some(SystemState::Trading)
    } else if value == 1 {
        Some(SystemState::Halting)
    } else if value == 2 {
        Some(SystemState::Flattening)
    } else if value == 3 {
        Some(SystemState::Dead)
    } else if value == 4 {
        Some(SystemState::Paused)
    } else if value == 5 {
        Some(SystemState::Recovery)
    } else {
        None
    }
}

/// The transition table: which state changes are allowed.
pub open spec fn valid_transition(from: SystemState, to: SystemState) -> bool {
    ||| (from == SystemState::Trading && to == SystemState::Halting)
    ||| (from == SystemState::Trading && to == SystemState::Paused)
    ||| (from == SystemState::Halting && to == SystemState::Flattening)
    ||| (from == SystemState::Halting && to == SystemState::Trading)
    ||| (from == SystemState::Flattening && to == SystemState::Trading)
    ||| (from == SystemState::Paused && to == SystemState::Trading)
    ||| (from == SystemState::Recovery && to == SystemState::Trading)
    ||| to == SystemState::Dead
}

impl SystemState {
    /// Convert from a code, returning `None` for codes above 5.
    pub fn from_u8(value: u8) -> (r: Option<Self>)
        ensures
            r == state_of_code(value),
    {
        match value {
            0 => Some(SystemState::Trading),
            1 => Some(SystemState::Halting),
            2 => Some(SystemState::Flattening),
            3 => Some(SystemState::Dead),
            4 => Some(SystemState::Paused),
            5 => Some(SystemState::Recovery),
            _ => None,
        }
    }

    /// The numeric code of this state.
    pub fn to_u8(&self) -> (r: u8)
        ensures
            r == state_code(*self),
    {
        match self {
            SystemState::Trading => 0,
            SystemState::Halting => 1,
            SystemState::Flattening => 2,
            SystemState::Dead => 3,
            SystemState::Paused => 4,
            SystemState::Recovery => 5,
        }
    }

    /// Whether this is the terminal state.
    pub fn is_terminal(&self) -> (r: bool)
        ensures
            r == (*self == SystemState::Dead),
    {
        matches!(self, SystemState::Dead)
    }

    /// Whether new orders are allowed in this state.
    pub fn allows_new_orders(&self) -> (r: bool)
        ensures
            r == (*self == SystemState::Trading),
    {
        matches!(self, SystemState::Trading)
    }

    /// Whether order cancellations are allowed in this state.
    pub fn allows_cancellations(&self) -> (r: bool)
        ensures
            r == (*self != SystemState::Dead),
    {
        !matches!(self, SystemState::Dead)
    }

    /// Whether position flattening is active.
    pub fn is_flattening(&self) -> (r: bool)
        ensures
            r == (*self == SystemState::Flattening),
    {
        matches!(self, SystemState::Flattening)
    }
}

/// Decide whether a transition is in the table.
fn is_valid_transition(from: SystemState, to: SystemState) -> (r: bool)
    ensures
        r == valid_transition(from, to),
{
    match (from, to) {
        (SystemState::Trading, SystemState::Halting) => true,
        (SystemState::Trading, SystemState::Paused) => true,
        (SystemState::Halting, SystemState::Flattening) => true,
        (SystemState::Halting, SystemState::Trading) => true,
        (SystemState::Flattening, SystemState::Trading) => true,
        (SystemState::Paused, SystemState::Trading) => true,
        (SystemState::Recovery, SystemState::Trading) => true,
        (_, SystemState::Dead) => true,
        _ => false,
    }
}

/// Result of a transition attempt.
#[derive(Debug, Clone, Copy, PartialEq, Eq, Structural)]
pub enum TransitionResult {
    /// The transition took place; the new state.
    Success(SystemState),
    /// The transition is not in the table.
    Rejected { current_state: SystemState, requested_state: SystemState },
    /// Another party changed the state meanwhile.
    ConcurrentModification { current_state: SystemState, requested_state: SystemState },
}

/// Statistics of the state machine.
#[derive(Debug, Clone, Copy, PartialEq, Eq, Structural)]
pub struct StateMachineStats {
    pub current_state: SystemState,
    pub transition_count: u8,
    pub rejection_count: u8,
}

/// The abstract state of a [`GlobalStateMachine`].
pub struct StateMachineView {
    pub state: SystemState,
    /// Successful transitions, modulo 256.
    pub transition_count: u8,
    /// Rejected transitions, modulo 256.
    pub rejection_count: u8,
}

/// The global system state machine.
pub struct GlobalStateMachine {
    state: SystemState,
    transition_count: u8,
    rejection_count: u8,
}

impl View for GlobalStateMachine {
    type V = StateMachineView;

    closed spec fn view(&self) -> StateMachineView {
        StateMachineView {
            state: self.state,
            transition_count: self.transition_count,
            rejection_count: self.rejection_count,
        }
    }
}

impl GlobalStateMachine {
    /// A state machine in `Trading`, with both counters at zero.
    pub fn new() -> (r: Self)
        ensures
            r@.state == SystemState::Trading,
            r@.transition_count == 0,
            r@.rejection_count == 0,
    {
        GlobalStateMachine { state: SystemState::Trading, transition_count: 0, rejection_count: 0 }
    }

    /// The current state.
    pub fn get_state(&self) -> (r: SystemState)
        ensures
            r == self@.state,
    {
        self.state
    }

    /// Attempt a transition to `target_state`.
    ///
    /// It takes place exactly when the table allows it; otherwise the state
    /// is kept and the rejection counter advances.
    pub fn transition(&mut self, target_state: SystemState, timestamp_ns: u64) -> (r: TransitionResult)
        ensures
            transition_outcome(old(self)@, final(self)@, target_state, r),
    {
        let current_state = self.state;
        if !is_valid_transition(current_state, target_state) {
            self.rejection_count = self.rejection_count.wrapping_add(1);
            return TransitionResult::Rejected { current_state, requested_state: target_state };
        }
        self.state = target_state;
        self.transition_count = self.transition_count.wrapping_add(1);
        TransitionResult::Success(target_state)
    }

    /// Whether the system is trading.
    pub fn is_trading(&self) -> (r: bool)
        ensures
            r == (self@.state == SystemState::Trading),
    {
        matches!(self.state, SystemState::Trading)
    }

    /// Whether the system is in any state other than `Trading`.
    pub fn is_halted(&self) -> (r: bool)
        ensures
            r == (self@.state != SystemState::Trading),
    {
        !matches!(self.state, SystemState::Trading)
    }

    /// Whether the system is dead.
    pub fn is_dead(&self) -> (r: bool)
        ensures
            r == (self@.state == SystemState::Dead),
    {
        matches!(self.state, SystemState::Dead)
    }

    /// Move to `Dead` unconditionally.
    pub fn emergency_stop(&mut self, timestamp_ns: u64)
        ensures
            final(self)@.state == SystemState::Dead,
            final(self)@.transition_count == old(self)@.transition_count.wrapping_add(1),
            final(self)@.rejection_count == old(self)@.rejection_count,
    {
        self.state = SystemState::Dead;
        self.transition_count = self.transition_count.wrapping_add(1);
    }

    /// Transition to `Halting`.
    pub fn halt(&mut self, timestamp_ns: u64) -> (r: TransitionResult)
        ensures
            transition_outcome(old(self)@, final(self)@, SystemState::Halting, r),
    {
        self.transition(SystemState::Halting, timestamp_ns)
    }

    /// Transition to `Trading`.
    pub fn resume(&mut self, timestamp_ns: u64) -> (r: TransitionResult)
        ensures
            transition_outcome(old(self)@, final(self)@, SystemState::Trading, r),
    {
        self.transition(SystemState::Trading, timestamp_ns)
    }

    /// Transition to `Flattening`.
    pub fn flatten(&mut self, timestamp_ns: u64) -> (r: TransitionResult)
        ensures
            transition_outcome(old(self)@, final(self)@, SystemState::Flattening, r),
    {
        self.transition(SystemState::Flattening, timestamp_ns)
    }

    /// Transition to `Paused`.
    pub fn pause(&mut self, timestamp_ns: u64) -> (r: TransitionResult)
        ensures
            transition_outcome(old(self)@, final(self)@, SystemState::Paused, r),
    {
        self.transition(SystemState::Paused, timestamp_ns)
    }

    /// Current state and counters.
    pub fn stats(&self) -> (r: StateMachineStats)
        ensures
            r.current_state == self@.state,
            r.transition_count == self@.transition_count,
            r.rejection_count == self@.rejection_count,
    {
        StateMachineStats {
            current_state: self.state,
            transition_count: self.transition_count,
            rejection_count: self.rejection_count,
        }
    }

    /// Set both counters to zero; the state is kept.
    pub fn reset_counters(&mut self)
        ensures
            final(self)@.state == old(self)@.state,
            final(self)@.transition_count == 0,
            final(self)@.rejection_count == 0,
    {
        self.transition_count = 0;
        self.rejection_count = 0;
    }
}

impl Default for GlobalStateMachine {
    /// The same machine as [`GlobalStateMachine::new`].
    fn default() -> (r: Self)
        ensures
            r@.state == SystemState::Trading,
            r@.transition_count == 0,
            r@.rejection_count == 0,
    {
        Self::new()
    }
}

/// What one transition attempt toward `target` does, from `pre` to `post`
/// with result `r`.
pub open spec fn transition_outcome(
    pre: StateMachineView,
    post: StateMachineView,
    target: SystemState,
    r: TransitionResult,
) -> bool {
    if valid_transition(pre.state, target) {
        &&& r == TransitionResult::Success(target)
        &&& post.state == target
        &&& post.transition_count == pre.transition_count.wrapping_add(1)
        &&& post.rejection_count == pre.rejection_count
    } else {
        &&& r == (TransitionResult::Rejected { current_state: pre.state, requested_state: target })
        &&& post.state == pre.state
        &&& post.transition_count == pre.transition_count
        &&& post.rejection_count == pre.rejection_count.wrapping_add(1)
    }
}

/// A dead system stays dead: the only transition the table allows out of
/// `Dead` leads back to `Dead`.
pub proof fn dead_is_terminal(to: SystemState)
    ensures
        valid_transition(SystemState::Dead, to) ==> to == SystemState::Dead,
{
}

/// Every state may be taken to `Dead`.
pub proof fn dead_always_reachable(from: SystemState)
    ensures
        valid_transition(from, SystemState::Dead),
{
}

/// No state may be entered again from itself, except `Dead`: of two equal
/// requests in a row (two halts, say) the second is rejected.
pub proof fn no_repeated_transition(s: SystemState)
    ensures
        valid_transition(s, s) <==> s == SystemState::Dead,
{
}

/// `Flattening` is entered only from `Halting`, and `Halting` only from
/// `Trading`.
pub proof fn flattening_follows_halting(from: SystemState)
    ensures
        valid_transition(from, SystemState::Flattening) ==> from == SystemState::Halting,
        valid_transition(from, SystemState::Halting) ==> from == SystemState::Trading,
{
}

/// Codes and states correspond one to one: every state's code decodes to
/// that state, and exactly the codes 0 to 5 decode to a state.
pub proof fn state_code_roundtrip(s: SystemState, value: u8)
    ensures
        state_of_code(state_code(s)) == Some(s),
        state_of_code(value) is Some <==> value <= 5,
        state_of_code(value) matches Some(t) ==> state_code(t) == value,
{
}

/// The transition table, pair by pair: from `Trading` to `Halting` or
/// `Paused`; from `Halting` to `Flattening` or back to `Trading`; from
/// `Flattening`, `Paused` or `Recovery` back to `Trading`; and from any state
/// to `Dead`. No other change of state is allowed.
pub proof fn transition_table(from: SystemState, to: SystemState)
    ensures
        valid_transition(SystemState::Trading, SystemState::Halting),
        valid_transition(SystemState::Trading, SystemState::Paused),
        valid_transition(SystemState::Halting, SystemState::Flattening),
        valid_transition(SystemState::Halting, SystemState::Trading),
        valid_transition(SystemState::Flattening, SystemState::Trading),
        valid_transition(SystemState::Paused, SystemState::Trading),
        valid_transition(SystemState::Recovery, SystemState::Trading),
        valid_transition(from, SystemState::Dead),
        valid_transition(from, to) ==> {
            ||| to == SystemState::Dead
            ||| (from == SystemState::Trading && (to == SystemState::Halting || to == SystemState::Paused))
            ||| (from == SystemState::Halting && (to == SystemState::Flattening || to == SystemState::Trading))
            ||| (to == SystemState::Trading && (from == SystemState::Flattening || from == SystemState::Paused
                || from == SystemState::Recovery))
        },
{
}

/// A halted system can be flattened and then resumed: from `Trading`, the
/// halt, the flatten and the resume all succeed, and the system trades
/// again with three more transitions counted.
pub proof fn halt_flatten_resume_returns_to_trading(
    s0: StateMachineView,
    s1: StateMachineView,
    s2: StateMachineView,
    s3: StateMachineView,
    r1: TransitionResult,
    r2: TransitionResult,
    r3: TransitionResult,
)
    requires
        s0.state == SystemState::Trading,
        transition_outcome(s0, s1, SystemState::Halting, r1),
        transition_outcome(s1, s2, SystemState::Flattening, r2),
        transition_outcome(s2, s3, SystemState::Trading, r3),
    ensures
        r1 == TransitionResult::Success(SystemState::Halting),
        r2 == TransitionResult::Success(SystemState::Flattening),
        r3 == TransitionResult::Success(SystemState::Trading),
        s3.state == SystemState::Trading,
        s3.rejection_count == s0.rejection_count,
{
}

} // verus!
