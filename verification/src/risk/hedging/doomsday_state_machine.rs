//! Escalation levels of the doomsday hedging state machine, and its
//! hysteresis: escalation is immediate, de-escalation waits.

use vstd::prelude::*;

verus! {

/// Escalation level, from normal operation to full survival mode.
#[derive(Debug, Clone, Copy, PartialEq, Eq, Structural)]
pub enum DoomsdayState {
    /// All systems green.
    Normal,
    /// Monitoring closely.
    Vigilant,
    /// Warning signs detected.
    Warning,
    /// Critical threat: partial hedge activation.
    Critical,
    /// Full survival mode.
    Survival,
}

/// Numeric severity of a level (higher is worse).
pub open spec fn severity_of(s: DoomsdayState) -> u8 {
    match s {
        DoomsdayState::Normal => 0,
        DoomsdayState::Vigilant => 1,
        DoomsdayState::Warning => 2,
        DoomsdayState::Critical => 3,
        DoomsdayState::Survival => 4,
    }
}

impl DoomsdayState {
    /// Numeric severity level (higher is worse).
    pub fn severity(&self) -> (r: u8)
        ensures
            r == severity_of(*self),
    {
        match self {
            DoomsdayState::Normal => 0,
            DoomsdayState::Vigilant => 1,
            DoomsdayState::Warning => 2,
            DoomsdayState::Critical => 3,
            DoomsdayState::Survival => 4,
        }
    }

    /// Whether the level indicates a crisis.
    pub fn is_crisis(&self) -> (r: bool)
        ensures
            r == (*self == DoomsdayState::Critical || *self == DoomsdayState::Survival),
    {
        matches!(self, DoomsdayState::Critical | DoomsdayState::Survival)
    }
}

/// Severity orders the levels: distinct levels have distinct severities,
/// all at most 4, and the crisis levels are exactly those of severity 3 or
/// more.
pub proof fn severity_orders_levels(a: DoomsdayState, b: DoomsdayState)
    ensures
        severity_of(a) == severity_of(b) <==> a == b,
        severity_of(a) <= 4,
        (a == DoomsdayState::Critical || a == DoomsdayState::Survival) <==> severity_of(a) >= 3,
{
}

/// The level after an evaluation whose signals point to `target`, from
/// `current`: a more severe target is taken at once; a less severe one only
/// once the cooldown since the last transition has elapsed and the recent
/// risk has subsided; otherwise the level is kept.
pub open spec fn hysteresis_spec(
    current: DoomsdayState,
    target: DoomsdayState,
    cooldown_elapsed: bool,
    risk_subsided: bool,
) -> DoomsdayState {
    if severity_of(target) > severity_of(current) {
        target
    } else if severity_of(target) < severity_of(current) {
        if cooldown_elapsed && risk_subsided { target } else { current }
    } else {
        target
    }
}

/// The level after an evaluation: see [`hysteresis_spec`].
pub fn hysteresis_step(
    current: DoomsdayState,
    target: DoomsdayState,
    cooldown_elapsed: bool,
    risk_subsided: bool,
) -> (r: DoomsdayState)
    ensures
        r == hysteresis_spec(current, target, cooldown_elapsed, risk_subsided),
{
    let target_severity = target.severity();
    let current_severity = current.severity();
    if target_severity > current_severity {
        target
    } else if target_severity < current_severity {
        if cooldown_elapsed && risk_subsided {
            target
        } else {
            current
        }
    } else {
        target
    }
}

/// It is harder to step down than up: an escalation is taken at once; the
/// level never drops before the cooldown has elapsed and the risk has
/// subsided; and an evaluation only ever keeps the level or moves to the
/// target.
pub proof fn escalation_is_immediate_deescalation_waits(
    current: DoomsdayState,
    target: DoomsdayState,
    cooldown_elapsed: bool,
    risk_subsided: bool,
)
    ensures
        severity_of(target) > severity_of(current) ==> hysteresis_spec(
            current,
            target,
            cooldown_elapsed,
            risk_subsided,
        ) == target,
        !(cooldown_elapsed && risk_subsided) ==> severity_of(
            hysteresis_spec(current, target, cooldown_elapsed, risk_subsided),
        ) >= severity_of(current),
        hysteresis_spec(current, target, cooldown_elapsed, risk_subsided) == current
            || hysteresis_spec(current, target, cooldown_elapsed, risk_subsided) == target,
{
}

/// The level moves exactly when the rules allow: to the target when it is
/// more severe, equally severe, or less severe with the cooldown elapsed
/// and the risk subsided (down to `Normal` included); it stays put only on
/// a de-escalation that is not yet allowed.
pub proof fn level_follows_target_when_allowed(
    current: DoomsdayState,
    target: DoomsdayState,
    cooldown_elapsed: bool,
    risk_subsided: bool,
)
    ensures
        severity_of(target) < severity_of(current) && cooldown_elapsed && risk_subsided ==> hysteresis_spec(
            current,
            target,
            cooldown_elapsed,
            risk_subsided,
        ) == target,
        severity_of(target) >= severity_of(current) ==> hysteresis_spec(
            current,
            target,
            cooldown_elapsed,
            risk_subsided,
        ) == target,
        hysteresis_spec(current, target, cooldown_elapsed, risk_subsided) != target ==> {
            &&& severity_of(target) < severity_of(current)
            &&& !(cooldown_elapsed && risk_subsided)
            &&& hysteresis_spec(current, target, cooldown_elapsed, risk_subsided) == current
        },
{
}

} // verus!
