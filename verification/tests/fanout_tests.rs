use rk8s::config::Host;
use rk8s::fanout::{select_hosts, Failure, FanoutError, PhaseRun, UnitStatus};
use rk8s::join::JoinTimeoutError;
use rk8s::orchestrator::{Orchestrator, OrchestratorError, Phase, PhaseStatus};

fn hosts() -> Vec<Host> {
    vec![
        Host::new("10.0.0.2", "worker01"),
        Host::new("10.0.0.1", "master01"),
        Host::new("10.0.0.3", "worker02"),
        Host::new("10.0.0.4", "master02"),
    ]
}

#[test]
fn control_hosts_are_selected_first() {
    assert_eq!(select_hosts(&hosts(), Phase::StorageTier), vec![1, 3, 0, 2]);
    assert_eq!(select_hosts(&hosts(), Phase::NodeAgent), vec![1, 3, 0, 2]);
    assert_eq!(select_hosts(&hosts(), Phase::PreflightCheck), vec![1, 3, 0, 2]);
}

#[test]
fn control_plane_phases_select_control_hosts_only() {
    assert_eq!(select_hosts(&hosts(), Phase::ControlPlaneApi), vec![1, 3]);
    assert_eq!(select_hosts(&hosts(), Phase::Scheduler), vec![1, 3]);
    let workers = vec![Host::new("10.0.0.2", "worker01")];
    assert_eq!(select_hosts(&workers, Phase::AdminCredential), Vec::<usize>::new());
    assert_eq!(select_hosts(&Vec::new(), Phase::StorageTier), Vec::<usize>::new());
}

#[test]
fn new_run_has_only_pending_units() {
    let run = PhaseRun::new(Phase::StorageTier, 3);
    assert_eq!(run.phase(), Phase::StorageTier);
    assert_eq!(run.unit_count(), 3);
    for unit in 0..3 {
        assert_eq!(run.unit_status(unit), Some(UnitStatus::Pending));
    }
    assert_eq!(run.unit_status(3), None);
    assert_eq!(run.failure(), None);
    assert_eq!(run.terminal(), None);
}

#[test]
fn phase_succeeds_when_every_unit_succeeds() {
    let mut run = PhaseRun::new(Phase::StorageTier, 3);
    for unit in 0..3 {
        assert_eq!(run.begin(unit), Ok(()));
    }
    for unit in 0..3 {
        assert_eq!(run.terminal(), None);
        assert_eq!(run.report(unit, None), Ok(()));
    }
    assert_eq!(run.terminal(), Some(PhaseStatus::Succeeded));
    assert_eq!(run.failure(), None);
}

#[test]
fn phase_without_units_succeeds_at_once() {
    let run = PhaseRun::new(Phase::ControlPlaneApi, 0);
    assert_eq!(run.terminal(), Some(PhaseStatus::Succeeded));
}

#[test]
fn one_failed_unit_fails_the_phase_and_the_others_still_finish() {
    let mut completed = 0;
    let mut run = PhaseRun::new(Phase::StorageTier, 3);
    for unit in 0..3 {
        assert_eq!(run.begin(unit), Ok(()));
    }
    assert_eq!(run.report(1, Some("scp ended with status 1".to_string())), Ok(()));
    completed += 1;
    assert_eq!(run.terminal(), None);
    assert_eq!(run.unit_status(0), Some(UnitStatus::Running));
    assert_eq!(run.unit_status(2), Some(UnitStatus::Running));
    assert_eq!(run.report(0, None), Ok(()));
    completed += 1;
    assert_eq!(run.terminal(), None);
    assert_eq!(run.report(2, None), Ok(()));
    completed += 1;
    assert_eq!(completed, 3);
    assert_eq!(run.terminal(), Some(PhaseStatus::Failed));
    assert_eq!(run.unit_status(0), Some(UnitStatus::Succeeded));
    assert_eq!(run.unit_status(1), Some(UnitStatus::Failed));
    assert_eq!(run.unit_status(2), Some(UnitStatus::Succeeded));
    assert_eq!(
        run.failure(),
        Some(&Failure { unit: 1, reason: "scp ended with status 1".to_string() })
    );
}

#[test]
fn unit_may_begin_after_another_failed() {
    let mut run = PhaseRun::new(Phase::NodeAgent, 2);
    assert_eq!(run.begin(0), Ok(()));
    assert_eq!(run.report(0, Some("no route".to_string())), Ok(()));
    assert_eq!(run.terminal(), None);
    assert_eq!(run.begin(1), Ok(()));
    assert_eq!(run.report(1, None), Ok(()));
    assert_eq!(run.terminal(), Some(PhaseStatus::Failed));
}

#[test]
fn first_failure_is_kept() {
    let mut run = PhaseRun::new(Phase::StorageTier, 3);
    for unit in 0..3 {
        assert_eq!(run.begin(unit), Ok(()));
    }
    assert_eq!(run.report(2, Some("first".to_string())), Ok(()));
    assert_eq!(run.report(0, Some("second".to_string())), Ok(()));
    assert_eq!(run.report(1, None), Ok(()));
    assert_eq!(run.failure(), Some(&Failure { unit: 2, reason: "first".to_string() }));
    assert_eq!(run.terminal(), Some(PhaseStatus::Failed));
}

#[test]
fn reports_out_of_turn_are_refused() {
    let mut run = PhaseRun::new(Phase::StorageTier, 2);
    assert_eq!(run.begin(2), Err(FanoutError::UnknownUnit));
    assert_eq!(run.report(2, None), Err(FanoutError::UnknownUnit));
    assert_eq!(run.report(0, None), Err(FanoutError::NotRunning));
    assert_eq!(run.unit_status(0), Some(UnitStatus::Pending));
    assert_eq!(run.begin(0), Ok(()));
    assert_eq!(run.begin(0), Err(FanoutError::NotPending));
    assert_eq!(run.report(0, Some("x".to_string())), Ok(()));
    assert_eq!(run.report(0, None), Err(FanoutError::NotRunning));
    assert_eq!(run.begin(0), Err(FanoutError::NotPending));
    assert_eq!(run.unit_status(0), Some(UnitStatus::Failed));
    assert_eq!(run.failure(), Some(&Failure { unit: 0, reason: "x".to_string() }));
}

#[test]
fn barrier_hands_the_end_to_the_orchestrator() {
    let mut orchestrator = Orchestrator::new();
    assert_eq!(orchestrator.start(Phase::PreflightCheck), Ok(()));
    let mut run = PhaseRun::new(Phase::PreflightCheck, 2);
    assert_eq!(run.begin(0), Ok(()));
    assert_eq!(run.begin(1), Ok(()));
    assert_eq!(run.report(0, None), Ok(()));
    assert_eq!(run.conclude(&mut orchestrator), None);
    assert_eq!(orchestrator.status(Phase::PreflightCheck), PhaseStatus::Running);
    assert_eq!(run.report(1, None), Ok(()));
    assert_eq!(run.conclude(&mut orchestrator), Some(Ok(())));
    assert_eq!(orchestrator.status(Phase::PreflightCheck), PhaseStatus::Succeeded);
    assert_eq!(
        run.conclude(&mut orchestrator),
        Some(Err(OrchestratorError::NotRunning))
    );
}

#[test]
fn failed_barrier_aborts_the_run() {
    let mut orchestrator = Orchestrator::new();
    assert_eq!(orchestrator.start(Phase::PreflightCheck), Ok(()));
    let mut run = PhaseRun::new(Phase::PreflightCheck, 1);
    assert_eq!(run.begin(0), Ok(()));
    assert_eq!(run.report(0, Some("unreachable".to_string())), Ok(()));
    assert_eq!(run.conclude(&mut orchestrator), Some(Ok(())));
    assert_eq!(orchestrator.status(Phase::PreflightCheck), PhaseStatus::Failed);
    assert_eq!(orchestrator.status(Phase::StorageTier), PhaseStatus::Canceled);
    assert!(orchestrator.has_failed());
    assert!(orchestrator.is_finished());
}

#[test]
fn node_agents_wait_at_the_barrier_for_an_approved_join() {
    let mut run = PhaseRun::new(Phase::NodeAgent, 2);
    assert!(!run.awaits_approval());
    assert_eq!(run.approve("node-csr-a".to_string()), Err(FanoutError::NotAwaited));
    assert_eq!(run.begin(0), Ok(()));
    assert_eq!(run.begin(1), Ok(()));
    assert_eq!(run.report(0, None), Ok(()));
    assert!(!run.awaits_approval());
    assert_eq!(run.approve("node-csr-a".to_string()), Err(FanoutError::NotAwaited));
    assert_eq!(run.report(1, None), Ok(()));
    assert!(run.awaits_approval());
    assert_eq!(run.terminal(), None);
    assert_eq!(run.approved(), None);
    assert_eq!(run.approve("node-csr-a".to_string()), Ok(()));
    assert_eq!(run.approved(), Some(&"node-csr-a".to_string()));
    assert!(!run.awaits_approval());
    assert_eq!(run.terminal(), Some(PhaseStatus::Succeeded));
    assert_eq!(run.approve("node-csr-b".to_string()), Err(FanoutError::NotAwaited));
    assert_eq!(run.give_up(JoinTimeoutError { polls: 9 }), Err(FanoutError::NotAwaited));
    assert_eq!(run.approved(), Some(&"node-csr-a".to_string()));
    assert_eq!(run.timeout(), None);
}

#[test]
fn given_up_wait_fails_the_phase() {
    let mut orchestrator = Orchestrator::new();
    for phase in [
        Phase::PreflightCheck,
        Phase::StorageTier,
        Phase::ContainerRuntime,
        Phase::ControlPlaneApi,
        Phase::ControllerManager,
        Phase::Scheduler,
        Phase::AdminCredential,
    ] {
        assert_eq!(orchestrator.start(phase), Ok(()));
        assert_eq!(PhaseRun::new(phase, 0).conclude(&mut orchestrator), Some(Ok(())));
    }
    assert_eq!(orchestrator.start(Phase::NodeAgent), Ok(()));
    let mut run = PhaseRun::new(Phase::NodeAgent, 0);
    assert!(run.awaits_approval());
    assert_eq!(run.conclude(&mut orchestrator), None);
    assert_eq!(orchestrator.status(Phase::NodeAgent), PhaseStatus::Running);
    assert_eq!(run.give_up(JoinTimeoutError { polls: 3 }), Ok(()));
    assert_eq!(run.timeout(), Some(JoinTimeoutError { polls: 3 }));
    assert_eq!(run.terminal(), Some(PhaseStatus::Failed));
    assert_eq!(run.approve("late".to_string()), Err(FanoutError::NotAwaited));
    assert_eq!(run.conclude(&mut orchestrator), Some(Ok(())));
    assert_eq!(orchestrator.status(Phase::NodeAgent), PhaseStatus::Failed);
    assert_eq!(orchestrator.status(Phase::ServiceProxy), PhaseStatus::Canceled);
}

#[test]
fn other_phases_await_no_join() {
    let mut run = PhaseRun::new(Phase::ServiceProxy, 1);
    assert_eq!(run.begin(0), Ok(()));
    assert_eq!(run.report(0, None), Ok(()));
    assert!(!run.awaits_approval());
    assert_eq!(run.give_up(JoinTimeoutError { polls: 1 }), Err(FanoutError::NotAwaited));
    assert_eq!(run.terminal(), Some(PhaseStatus::Succeeded));
}

#[test]
fn failed_node_agent_does_not_wait_for_a_join() {
    let mut run = PhaseRun::new(Phase::NodeAgent, 1);
    assert_eq!(run.begin(0), Ok(()));
    assert_eq!(run.report(0, Some("down".to_string())), Ok(()));
    assert!(!run.awaits_approval());
    assert_eq!(run.approve("node-csr-a".to_string()), Err(FanoutError::NotAwaited));
    assert_eq!(run.terminal(), Some(PhaseStatus::Failed));
}
