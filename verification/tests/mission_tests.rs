use lunar_descent::mission::classify_impact;
use lunar_descent::mission::decide_step;
use lunar_descent::mission::next_phase;
use lunar_descent::mission::MissionEvent;
use lunar_descent::mission::MissionPhase;
use lunar_descent::mission::Outcome;
use lunar_descent::mission::StepDecision;

#[test]
fn spent_interval_ends_first() {
    assert_eq!(StepDecision::EndInterval, decide_step(false, true, true, true, true));
    assert_eq!(StepDecision::EndInterval, decide_step(false, false, false, false, false));
}

#[test]
fn fuel_exhaustion_pre_empts_everything() {
    assert_eq!(StepDecision::FuelOut, decide_step(true, true, false, false, false));
    assert_eq!(StepDecision::FuelOut, decide_step(true, true, true, false, true));
    assert_eq!(StepDecision::FuelOut, decide_step(true, true, false, true, false));
}

#[test]
fn projected_contact_goes_to_convergence() {
    assert_eq!(StepDecision::Converge, decide_step(true, false, true, false, true));
    assert_eq!(StepDecision::Converge, decide_step(true, false, true, true, false));
}

#[test]
fn ascending_capsule_commits_without_refinement() {
    assert_eq!(StepDecision::Commit, decide_step(true, false, false, true, true));
}

#[test]
fn sign_flip_while_descending_is_refined() {
    assert_eq!(StepDecision::Refine, decide_step(true, false, false, false, true));
}

#[test]
fn plain_step_commits() {
    assert_eq!(StepDecision::Commit, decide_step(true, false, false, false, false));
}

#[test]
fn phase_transitions_follow_the_mission() {
    assert_eq!(
        MissionPhase::Integrating,
        next_phase(MissionPhase::AwaitingCommand, MissionEvent::CommandReceived)
    );
    assert_eq!(
        MissionPhase::AwaitingCommand,
        next_phase(MissionPhase::Integrating, MissionEvent::IntervalElapsed)
    );
    assert_eq!(
        MissionPhase::FuelOut,
        next_phase(MissionPhase::Integrating, MissionEvent::FuelExhausted)
    );
    assert_eq!(
        MissionPhase::Converging,
        next_phase(MissionPhase::Integrating, MissionEvent::ContactProjected)
    );
    assert_eq!(
        MissionPhase::Refining,
        next_phase(MissionPhase::Integrating, MissionEvent::SignFlipDetected)
    );
    assert_eq!(
        MissionPhase::Converging,
        next_phase(MissionPhase::Refining, MissionEvent::ContactProjected)
    );
    assert_eq!(
        MissionPhase::Integrating,
        next_phase(MissionPhase::Refining, MissionEvent::SubstepResolved)
    );
    assert_eq!(
        MissionPhase::Contact,
        next_phase(MissionPhase::Converging, MissionEvent::ContactResolved)
    );
}

#[test]
fn final_phases_are_stable() {
    let events = [
        MissionEvent::CommandReceived,
        MissionEvent::IntervalElapsed,
        MissionEvent::FuelExhausted,
        MissionEvent::ContactProjected,
        MissionEvent::SignFlipDetected,
        MissionEvent::SubstepResolved,
        MissionEvent::ContactResolved,
    ];
    for e in events {
        assert_eq!(MissionPhase::FuelOut, next_phase(MissionPhase::FuelOut, e));
        assert_eq!(MissionPhase::Contact, next_phase(MissionPhase::Contact, e));
    }
}

#[test]
fn undefined_events_leave_the_phase() {
    assert_eq!(
        MissionPhase::AwaitingCommand,
        next_phase(MissionPhase::AwaitingCommand, MissionEvent::ContactResolved)
    );
    assert_eq!(
        MissionPhase::Converging,
        next_phase(MissionPhase::Converging, MissionEvent::FuelExhausted)
    );
}

fn classify_velocity(v: f32) -> Outcome {
    classify_impact(v <= 1.2, v <= 10.0, v <= 60.0)
}

#[test]
fn classification_boundaries_both_sides() {
    assert_eq!(Outcome::Perfect, classify_velocity(1.2));
    assert_eq!(Outcome::Good, classify_velocity(1.2000002));
    assert_eq!(Outcome::Good, classify_velocity(10.0));
    assert_eq!(Outcome::Damaged, classify_velocity(10.000001));
    assert_eq!(Outcome::Damaged, classify_velocity(60.0));
    assert_eq!(Outcome::Crashed, classify_velocity(60.00001));
}

#[test]
fn classification_of_plain_velocities() {
    assert_eq!(Outcome::Perfect, classify_velocity(0.0));
    assert_eq!(Outcome::Good, classify_velocity(5.0));
    assert_eq!(Outcome::Damaged, classify_velocity(30.0));
    assert_eq!(Outcome::Crashed, classify_velocity(120.0));
}
