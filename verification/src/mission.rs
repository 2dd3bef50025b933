//! Decision rules of the descent loop.
//!
//! The descent itself integrates thrust and gravity in floating point, which
//! stays with the front end; what is decided from those numbers — which step
//! the scheduler takes next, how the mission moves between its phases, and
//! which outcome an impact earns — is pure case analysis on the comparisons
//! already made, and is collected here.

use vstd::prelude::*;

verus! {

/// What the interval scheduler does next.
#[derive(Clone, Copy, Debug, PartialEq, Eq, Structural)]
pub enum StepDecision {
    /// Fuel is exhausted: stop integrating and end the mission on the
    /// fuel-out path.
    FuelOut,
    /// The decision interval is spent: ask for the next burn rate.
    EndInterval,
    /// The projected step crosses the surface: resolve the contact point
    /// and end the mission.
    Converge,
    /// The capsule was descending but the projected velocity is negative:
    /// refine a shorter sub-step before committing.
    Refine,
    /// Commit the integrated step and continue the interval.
    Commit,
}

/// The scheduler's dispatch, in the order the checks are made: a spent
/// interval ends the interval; then exhausted fuel ends the mission; then a
/// projected surface crossing goes to contact convergence; a capsule already
/// ascending or hovering commits directly; a projected sign flip while still
/// descending is refined; otherwise the step commits.
pub open spec fn spec_decide_step(
    interval_active: bool,
    fuel_exhausted: bool,
    projected_contact: bool,
    ascending: bool,
    sign_flip: bool,
) -> StepDecision {
    if !interval_active {
        StepDecision::EndInterval
    } else if fuel_exhausted {
        StepDecision::FuelOut
    } else if projected_contact {
        StepDecision::Converge
    } else if ascending {
        StepDecision::Commit
    } else if sign_flip {
        StepDecision::Refine
    } else {
        StepDecision::Commit
    }
}

/// Decides the scheduler's next step from the comparisons of the current
/// state: whether the interval still has time, whether the remaining mass is
/// within the exhaustion tolerance of the dry mass, whether the integrated
/// distance reaches the surface, whether the current velocity is already
/// non-positive, and whether the integrated velocity turns negative.
pub fn decide_step(
    interval_active: bool,
    fuel_exhausted: bool,
    projected_contact: bool,
    ascending: bool,
    sign_flip: bool,
) -> (d: StepDecision)
    ensures
        d == spec_decide_step(interval_active, fuel_exhausted, projected_contact, ascending, sign_flip),
{
    if !interval_active {
        StepDecision::EndInterval
    } else if fuel_exhausted {
        StepDecision::FuelOut
    } else if projected_contact {
        StepDecision::Converge
    } else if ascending {
        StepDecision::Commit
    } else if sign_flip {
        StepDecision::Refine
    } else {
        StepDecision::Commit
    }
}

/// Within a live interval, exhausted fuel decides the step by itself: no
/// contact convergence, no refinement and no further commit is scheduled,
/// whatever the other comparisons say.
pub proof fn lemma_fuel_out_pre_empts(projected_contact: bool, ascending: bool, sign_flip: bool)
    ensures
        spec_decide_step(true, true, projected_contact, ascending, sign_flip)
            == StepDecision::FuelOut,
{
}

/// Where the mission stands.
#[derive(Clone, Copy, Debug, PartialEq, Eq, Structural)]
pub enum MissionPhase {
    /// Waiting for the pilot's next burn rate.
    AwaitingCommand,
    /// Integrating nominal steps across the current interval.
    Integrating,
    /// Resolving a velocity sign flip with shortened sub-steps.
    Refining,
    /// Shrinking the step onto the contact instant.
    Converging,
    /// The mission ended with the fuel spent before the surface.
    FuelOut,
    /// The mission ended on the surface.
    Contact,
}

/// What happened during the current phase.
#[derive(Clone, Copy, Debug, PartialEq, Eq, Structural)]
pub enum MissionEvent {
    /// A burn rate arrived: a fresh decision interval begins.
    CommandReceived,
    /// The decision interval's time is spent.
    IntervalElapsed,
    /// The remaining mass fell within the exhaustion tolerance of the dry
    /// mass.
    FuelExhausted,
    /// An integrated step projected the distance at or below the surface.
    ContactProjected,
    /// An integrated step projected a negative velocity while the capsule
    /// was descending.
    SignFlipDetected,
    /// Refinement committed a sub-step that leaves no sign flip to resolve.
    SubstepResolved,
    /// Convergence pinned the contact instant within tolerance.
    ContactResolved,
}

/// A phase from which no event moves the mission.
pub open spec fn spec_is_terminal(p: MissionPhase) -> bool {
    p is FuelOut || p is Contact
}

/// The mission's transitions. An event that the current phase does not
/// answer leaves the phase standing.
pub open spec fn spec_next_phase(p: MissionPhase, e: MissionEvent) -> MissionPhase {
    match (p, e) {
        (MissionPhase::AwaitingCommand, MissionEvent::CommandReceived) => MissionPhase::Integrating,
        (MissionPhase::Integrating, MissionEvent::IntervalElapsed) => MissionPhase::AwaitingCommand,
        (MissionPhase::Integrating, MissionEvent::FuelExhausted) => MissionPhase::FuelOut,
        (MissionPhase::Integrating, MissionEvent::ContactProjected) => MissionPhase::Converging,
        (MissionPhase::Integrating, MissionEvent::SignFlipDetected) => MissionPhase::Refining,
        (MissionPhase::Refining, MissionEvent::ContactProjected) => MissionPhase::Converging,
        (MissionPhase::Refining, MissionEvent::SubstepResolved) => MissionPhase::Integrating,
        (MissionPhase::Converging, MissionEvent::ContactResolved) => MissionPhase::Contact,
        _ => p,
    }
}

/// Advances the mission by one event, as `spec_next_phase` states.
pub fn next_phase(p: MissionPhase, e: MissionEvent) -> (q: MissionPhase)
    ensures
        q == spec_next_phase(p, e),
{
    match (p, e) {
        (MissionPhase::AwaitingCommand, MissionEvent::CommandReceived) => MissionPhase::Integrating,
        (MissionPhase::Integrating, MissionEvent::IntervalElapsed) => MissionPhase::AwaitingCommand,
        (MissionPhase::Integrating, MissionEvent::FuelExhausted) => MissionPhase::FuelOut,
        (MissionPhase::Integrating, MissionEvent::ContactProjected) => MissionPhase::Converging,
        (MissionPhase::Integrating, MissionEvent::SignFlipDetected) => MissionPhase::Refining,
        (MissionPhase::Refining, MissionEvent::ContactProjected) => MissionPhase::Converging,
        (MissionPhase::Refining, MissionEvent::SubstepResolved) => MissionPhase::Integrating,
        (MissionPhase::Converging, MissionEvent::ContactResolved) => MissionPhase::Contact,
        _ => p,
    }
}

/// Once the mission has ended — fuel out, or contact with the surface — no
/// event schedules anything further: the final phases are stable.
pub proof fn lemma_terminal_phase_stands(p: MissionPhase, e: MissionEvent)
    requires
        spec_is_terminal(p),
    ensures
        spec_next_phase(p, e) == p,
{
}

/// The phase after answering a burst of events in order.
pub open spec fn run_events(p: MissionPhase, events: Seq<MissionEvent>) -> MissionPhase
    decreases events.len(),
{
    if events.len() == 0 {
        p
    } else {
        run_events(spec_next_phase(p, events.first()), events.drop_first())
    }
}

/// Nothing follows the end of the mission: from a terminal phase, no
/// sequence of events whatever moves the mission — in particular, no
/// further decision interval ever begins after the fuel runs out.
pub proof fn lemma_mission_over_stays_over(p: MissionPhase, events: Seq<MissionEvent>)
    requires
        spec_is_terminal(p),
    ensures
        run_events(p, events) == p,
    decreases events.len(),
{
    if events.len() > 0 {
        lemma_terminal_phase_stands(p, events.first());
        lemma_mission_over_stays_over(p, events.drop_first());
    }
}

/// How the landing went.
#[derive(Clone, Copy, Debug, PartialEq, Eq, Structural)]
pub enum Outcome {
    /// At most the perfect-landing bound.
    Perfect,
    /// Above the perfect bound, at most the good-landing bound.
    Good,
    /// Above the good bound, at most the survivable bound: the craft is
    /// damaged and stranded.
    Damaged,
    /// Above the survivable bound: the capsule is destroyed.
    Crashed,
}

/// The bucket the impact velocity falls in, given where it stands relative
/// to the three thresholds, checked from the softest up.
pub open spec fn spec_classify_impact(
    le_perfect: bool,
    le_good: bool,
    le_survivable: bool,
) -> Outcome {
    if le_perfect {
        Outcome::Perfect
    } else if le_good {
        Outcome::Good
    } else if !le_survivable {
        Outcome::Crashed
    } else {
        Outcome::Damaged
    }
}

/// Classifies the landing. The flags are the comparisons of one impact
/// velocity against the perfect, good and survivable thresholds in rising
/// order, so a bound satisfied implies every larger one.
pub fn classify_impact(le_perfect: bool, le_good: bool, le_survivable: bool) -> (o: Outcome)
    requires
        le_perfect ==> le_good,
        le_good ==> le_survivable,
    ensures
        o == spec_classify_impact(le_perfect, le_good, le_survivable),
        o is Perfect <==> le_perfect,
        o is Good <==> (!le_perfect && le_good),
        o is Damaged <==> (!le_good && le_survivable),
        o is Crashed <==> !le_survivable,
{
    if le_perfect {
        Outcome::Perfect
    } else if le_good {
        Outcome::Good
    } else if !le_survivable {
        Outcome::Crashed
    } else {
        Outcome::Damaged
    }
}

} // verus!
