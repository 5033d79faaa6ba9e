use rk8s::config::Role;
use rk8s::orchestrator::{Orchestrator, OrchestratorError, Phase, PhaseStatus};

const ALL: [Phase; 9] = [
    Phase::PreflightCheck,
    Phase::StorageTier,
    Phase::ContainerRuntime,
    Phase::ControlPlaneApi,
    Phase::ControllerManager,
    Phase::Scheduler,
    Phase::AdminCredential,
    Phase::NodeAgent,
    Phase::ServiceProxy,
];

fn run_through(orchestrator: &mut Orchestrator, phases: &[Phase]) {
    for phase in phases {
        assert_eq!(orchestrator.start(*phase), Ok(()));
        assert_eq!(orchestrator.finish(*phase, true), Ok(()));
    }
}

#[test]
fn phases_have_their_places() {
    for (i, phase) in ALL.iter().enumerate() {
        assert_eq!(phase.index(), i);
        assert_eq!(Phase::from_index(i), Some(*phase));
    }
    assert_eq!(Phase::from_index(9), None);
    assert_eq!(Phase::from_index(usize::MAX), None);
}

#[test]
fn dependency_graph() {
    assert_eq!(Phase::PreflightCheck.dependencies(), vec![]);
    assert_eq!(Phase::StorageTier.dependencies(), vec![Phase::PreflightCheck]);
    assert_eq!(Phase::ContainerRuntime.dependencies(), vec![Phase::StorageTier]);
    assert_eq!(Phase::ControlPlaneApi.dependencies(), vec![Phase::ContainerRuntime]);
    assert_eq!(Phase::ControllerManager.dependencies(), vec![Phase::ControlPlaneApi]);
    assert_eq!(Phase::Scheduler.dependencies(), vec![Phase::ControlPlaneApi]);
    assert_eq!(
        Phase::AdminCredential.dependencies(),
        vec![Phase::ControllerManager, Phase::Scheduler]
    );
    assert_eq!(Phase::NodeAgent.dependencies(), vec![Phase::AdminCredential]);
    assert_eq!(Phase::ServiceProxy.dependencies(), vec![Phase::NodeAgent]);
    assert!(Phase::AdminCredential.depends_on(Phase::Scheduler));
    assert!(!Phase::AdminCredential.depends_on(Phase::ControlPlaneApi));
    assert!(!Phase::Scheduler.depends_on(Phase::ControllerManager));
    assert!(!Phase::PreflightCheck.depends_on(Phase::PreflightCheck));
}

#[test]
fn dependencies_come_earlier_in_the_order() {
    for phase in ALL {
        for dependency in phase.dependencies() {
            assert!(dependency.index() < phase.index());
        }
    }
}

#[test]
fn control_plane_phases_run_on_control_hosts_only() {
    for phase in [
        Phase::ControlPlaneApi,
        Phase::ControllerManager,
        Phase::Scheduler,
        Phase::AdminCredential,
    ] {
        assert!(phase.applies_to(Role::Control));
        assert!(!phase.applies_to(Role::Worker));
    }
    for phase in [
        Phase::PreflightCheck,
        Phase::StorageTier,
        Phase::ContainerRuntime,
        Phase::NodeAgent,
        Phase::ServiceProxy,
    ] {
        assert!(phase.applies_to(Role::Control));
        assert!(phase.applies_to(Role::Worker));
    }
    assert!(Phase::NodeAgent.awaits_join());
    assert!(!Phase::ServiceProxy.awaits_join());
}

#[test]
fn only_the_first_phase_is_ready_at_the_start() {
    let orchestrator = Orchestrator::new();
    for phase in ALL {
        assert_eq!(orchestrator.status(phase), PhaseStatus::Pending);
    }
    assert_eq!(orchestrator.ready(), vec![Phase::PreflightCheck]);
    assert!(!orchestrator.is_finished());
    assert!(!orchestrator.has_failed());
}

#[test]
fn phase_does_not_start_before_its_dependency_succeeded() {
    let mut orchestrator = Orchestrator::new();
    assert_eq!(
        orchestrator.start(Phase::StorageTier),
        Err(OrchestratorError::DependencyUnmet)
    );
    assert_eq!(orchestrator.status(Phase::StorageTier), PhaseStatus::Pending);
    assert_eq!(orchestrator.start(Phase::PreflightCheck), Ok(()));
    assert_eq!(orchestrator.status(Phase::PreflightCheck), PhaseStatus::Running);
    assert_eq!(
        orchestrator.start(Phase::StorageTier),
        Err(OrchestratorError::DependencyUnmet)
    );
    assert_eq!(orchestrator.ready(), vec![]);
    assert_eq!(orchestrator.finish(Phase::PreflightCheck, true), Ok(()));
    assert_eq!(orchestrator.ready(), vec![Phase::StorageTier]);
    assert_eq!(orchestrator.start(Phase::StorageTier), Ok(()));
}

#[test]
fn phase_starts_once() {
    let mut orchestrator = Orchestrator::new();
    assert_eq!(orchestrator.start(Phase::PreflightCheck), Ok(()));
    assert_eq!(
        orchestrator.start(Phase::PreflightCheck),
        Err(OrchestratorError::NotPending)
    );
    assert_eq!(orchestrator.finish(Phase::PreflightCheck, true), Ok(()));
    assert_eq!(
        orchestrator.start(Phase::PreflightCheck),
        Err(OrchestratorError::NotPending)
    );
    assert_eq!(
        orchestrator.finish(Phase::PreflightCheck, true),
        Err(OrchestratorError::NotRunning)
    );
    assert_eq!(orchestrator.status(Phase::PreflightCheck), PhaseStatus::Succeeded);
}

#[test]
fn end_of_a_phase_that_never_started_is_refused() {
    let mut orchestrator = Orchestrator::new();
    assert_eq!(
        orchestrator.finish(Phase::Scheduler, false),
        Err(OrchestratorError::NotRunning)
    );
    assert_eq!(orchestrator.status(Phase::Scheduler), PhaseStatus::Pending);
    assert!(!orchestrator.has_failed());
}

#[test]
fn independent_phases_run_side_by_side_in_either_order() {
    for (first, second) in [
        (Phase::ControllerManager, Phase::Scheduler),
        (Phase::Scheduler, Phase::ControllerManager),
    ] {
        let mut orchestrator = Orchestrator::new();
        run_through(
            &mut orchestrator,
            &[
                Phase::PreflightCheck,
                Phase::StorageTier,
                Phase::ContainerRuntime,
                Phase::ControlPlaneApi,
            ],
        );
        assert_eq!(
            orchestrator.ready(),
            vec![Phase::ControllerManager, Phase::Scheduler]
        );
        assert_eq!(orchestrator.start(first), Ok(()));
        assert_eq!(orchestrator.start(second), Ok(()));
        assert_eq!(
            orchestrator.start(Phase::AdminCredential),
            Err(OrchestratorError::DependencyUnmet)
        );
        assert_eq!(orchestrator.finish(second, true), Ok(()));
        assert_eq!(
            orchestrator.start(Phase::AdminCredential),
            Err(OrchestratorError::DependencyUnmet)
        );
        assert_eq!(orchestrator.finish(first, true), Ok(()));
        assert_eq!(orchestrator.ready(), vec![Phase::AdminCredential]);
        assert_eq!(orchestrator.start(Phase::AdminCredential), Ok(()));
    }
}

#[test]
fn started_phases_have_succeeded_dependencies_under_many_orders() {
    let mut seed: u64 = 0x2545F4914F6CDD1D;
    for _ in 0..200 {
        let mut orchestrator = Orchestrator::new();
        for _ in 0..60 {
            seed ^= seed << 13;
            seed ^= seed >> 7;
            seed ^= seed << 17;
            let phase = ALL[(seed % 9) as usize];
            if (seed >> 20) % 2 == 0 {
                let _ = orchestrator.start(phase);
            } else {
                let _ = orchestrator.finish(phase, (seed >> 30) % 8 != 0);
            }
            for b in ALL {
                let status = orchestrator.status(b);
                if status == PhaseStatus::Running
                    || status == PhaseStatus::Succeeded
                    || status == PhaseStatus::Failed
                {
                    for a in b.dependencies() {
                        assert_eq!(orchestrator.status(a), PhaseStatus::Succeeded);
                    }
                }
            }
        }
    }
}

#[test]
fn failure_cancels_what_is_pending_and_spares_what_runs() {
    let mut orchestrator = Orchestrator::new();
    run_through(
        &mut orchestrator,
        &[
            Phase::PreflightCheck,
            Phase::StorageTier,
            Phase::ContainerRuntime,
            Phase::ControlPlaneApi,
        ],
    );
    assert_eq!(orchestrator.start(Phase::ControllerManager), Ok(()));
    assert_eq!(orchestrator.start(Phase::Scheduler), Ok(()));
    assert_eq!(orchestrator.finish(Phase::Scheduler, false), Ok(()));
    assert!(orchestrator.has_failed());
    assert_eq!(orchestrator.status(Phase::Scheduler), PhaseStatus::Failed);
    assert_eq!(orchestrator.status(Phase::ControllerManager), PhaseStatus::Running);
    assert_eq!(orchestrator.status(Phase::AdminCredential), PhaseStatus::Canceled);
    assert_eq!(orchestrator.status(Phase::NodeAgent), PhaseStatus::Canceled);
    assert_eq!(orchestrator.status(Phase::ServiceProxy), PhaseStatus::Canceled);
    assert_eq!(orchestrator.status(Phase::PreflightCheck), PhaseStatus::Succeeded);
    assert!(!orchestrator.is_finished());
    assert_eq!(orchestrator.ready(), vec![]);
    assert_eq!(
        orchestrator.start(Phase::AdminCredential),
        Err(OrchestratorError::NotPending)
    );
    assert_eq!(orchestrator.finish(Phase::ControllerManager, true), Ok(()));
    assert_eq!(orchestrator.status(Phase::ControllerManager), PhaseStatus::Succeeded);
    assert!(orchestrator.is_finished());
    assert_eq!(orchestrator.ready(), vec![]);
}

#[test]
fn full_run_succeeds() {
    let mut orchestrator = Orchestrator::new();
    run_through(&mut orchestrator, &ALL);
    assert!(orchestrator.is_finished());
    assert!(!orchestrator.has_failed());
    for phase in ALL {
        assert_eq!(orchestrator.status(phase), PhaseStatus::Succeeded);
    }
}
