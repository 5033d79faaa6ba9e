use rk8s::config::Host;
use rk8s::fanout::PhaseRun;
use rk8s::gateway::{call_result, GatewayCall};
use rk8s::join::{JoinWatcher, NamePattern, WatchAction, JOIN_REQUEST_PATTERN};
use rk8s::orchestrator::{Orchestrator, Phase, PhaseStatus};
use rk8s::plan::{approve_join_request, first_control_host, list_join_requests, start};

/// A gateway that opens no connection: it records every call with the phase
/// it was made for, and answers the listing of join requests from a script.
struct FakeGateway {
    trace: Vec<(Phase, GatewayCall)>,
    listings: Vec<&'static str>,
    failing: Option<(Phase, &'static str)>,
    completed_units: usize,
}

impl FakeGateway {
    fn new(listings: Vec<&'static str>) -> FakeGateway {
        FakeGateway { trace: Vec::new(), listings, failing: None, completed_units: 0 }
    }

    fn call(&mut self, phase: Phase, call: GatewayCall) -> (Option<i32>, String) {
        let mut status = Some(0);
        let mut output = String::new();
        if let Some((failing_phase, failing_host)) = self.failing {
            if failing_phase == phase && call.host() == failing_host {
                status = Some(1);
            }
        }
        if let GatewayCall::Exec { command, .. } = &call {
            if command == "kubectl get csr" {
                output = if self.listings.is_empty() {
                    String::new()
                } else {
                    self.listings.remove(0).to_string()
                };
            }
        }
        self.trace.push((phase, call));
        (status, output)
    }

    fn positions(&self, phase: Phase, host: &str) -> Vec<usize> {
        let mut found = Vec::new();
        for (i, (p, call)) in self.trace.iter().enumerate() {
            if *p == phase && call.host() == host {
                found.push(i);
            }
        }
        found
    }

    fn position_of_command(&self, prefix: &str) -> Option<usize> {
        for (i, (_, call)) in self.trace.iter().enumerate() {
            if let GatewayCall::Exec { command, .. } = call {
                if command.starts_with(prefix) {
                    return Some(i);
                }
            }
        }
        None
    }
}

fn run_all(hosts: &Vec<Host>, gateway: &mut FakeGateway) -> (Orchestrator, Vec<String>) {
    let pattern = NamePattern::new(JOIN_REQUEST_PATTERN).unwrap();
    let mut approved = Vec::new();
    let mut orchestrator = Orchestrator::new();
    loop {
        let ready = orchestrator.ready();
        if ready.is_empty() {
            break;
        }
        for phase in ready {
            assert_eq!(orchestrator.start(phase), Ok(()));
            let units = start(phase, hosts);
            let mut run = PhaseRun::new(phase, units.len());
            for (unit, calls) in units.into_iter().enumerate() {
                assert_eq!(run.begin(unit), Ok(()));
                let mut outcome = None;
                for call in calls {
                    let judged = call_result(&call, gateway.call(phase, call_clone(&call)).0);
                    if let Err(error) = judged {
                        outcome = Some(format!("{:?}", error));
                        break;
                    }
                }
                gateway.completed_units += 1;
                assert_eq!(run.report(unit, outcome), Ok(()));
            }
            if run.awaits_approval() {
                let control = first_control_host(hosts).unwrap();
                let mut watcher = JoinWatcher::new(5);
                loop {
                    let (_, listing) =
                        gateway.call(phase, list_join_requests(&hosts[control].ip));
                    match watcher.on_poll(&pattern, &listing) {
                        WatchAction::PollAgain => {}
                        WatchAction::Approve(name) => {
                            gateway.call(phase, approve_join_request(&hosts[control].ip, &name));
                            assert_eq!(run.approve(name.clone()), Ok(()));
                            approved.push(name);
                            break;
                        }
                        WatchAction::GiveUp(error) => {
                            assert_eq!(run.give_up(error), Ok(()));
                            break;
                        }
                    }
                }
            }
            assert_eq!(run.conclude(&mut orchestrator), Some(Ok(())));
        }
    }
    (orchestrator, approved)
}

fn call_clone(call: &GatewayCall) -> GatewayCall {
    match call {
        GatewayCall::Exec { host, command } => {
            GatewayCall::Exec { host: host.clone(), command: command.clone() }
        }
        GatewayCall::Copy { sources, host, destination, recursive } => GatewayCall::Copy {
            sources: sources.clone(),
            host: host.clone(),
            destination: destination.clone(),
            recursive: *recursive,
        },
    }
}

fn topology() -> Vec<Host> {
    vec![
        Host::new("A", "master-a"),
        Host::new("B", "worker-b"),
        Host::new("C", "worker-c"),
    ]
}

#[test]
fn full_sequence_against_a_fake_gateway() {
    let hosts = topology();
    let mut gateway = FakeGateway::new(vec!["", "NAME AGE\nnode-csr-B 4s Pending\n"]);
    let (orchestrator, approved) = run_all(&hosts, &mut gateway);
    assert!(orchestrator.is_finished());
    assert!(!orchestrator.has_failed());
    assert_eq!(approved, vec!["node-csr-B"]);

    let first_runtime = ["A", "B", "C"]
        .iter()
        .map(|h| gateway.positions(Phase::ContainerRuntime, h)[0])
        .min()
        .unwrap();
    for host in ["A", "B", "C"] {
        let storage = gateway.positions(Phase::StorageTier, host);
        assert_eq!(storage.len(), 6);
        assert!(*storage.last().unwrap() < first_runtime);
    }

    assert!(!gateway.positions(Phase::ControlPlaneApi, "A").is_empty());
    assert!(gateway.positions(Phase::ControlPlaneApi, "B").is_empty());
    assert!(gateway.positions(Phase::ControlPlaneApi, "C").is_empty());

    let polls: Vec<usize> = gateway
        .trace
        .iter()
        .enumerate()
        .filter(|(_, (_, call))| {
            matches!(call, GatewayCall::Exec { command, .. } if command == "kubectl get csr")
        })
        .map(|(i, _)| i)
        .collect();
    assert_eq!(polls.len(), 2);
    for poll in &polls {
        assert_eq!(gateway.trace[*poll].1.host(), "A");
    }
    let approval = gateway.position_of_command("kubectl certificate approve node-csr-B").unwrap();
    assert_eq!(gateway.trace[approval].1.host(), "A");
    assert!(polls[1] < approval);
    for host in ["B", "C"] {
        let proxy = gateway.positions(Phase::ServiceProxy, host);
        assert!(!proxy.is_empty());
        assert!(approval < proxy[0]);
    }
}

#[test]
fn failed_host_unit_fails_the_phase_after_every_unit_ran() {
    let hosts = topology();
    let mut gateway = FakeGateway::new(Vec::new());
    gateway.failing = Some((Phase::StorageTier, "B"));
    let (orchestrator, approved) = run_all(&hosts, &mut gateway);
    assert!(approved.is_empty());
    assert!(orchestrator.has_failed());
    assert!(orchestrator.is_finished());
    assert_eq!(orchestrator.status(Phase::PreflightCheck), PhaseStatus::Succeeded);
    assert_eq!(orchestrator.status(Phase::StorageTier), PhaseStatus::Failed);
    assert_eq!(orchestrator.status(Phase::ContainerRuntime), PhaseStatus::Canceled);
    assert_eq!(orchestrator.status(Phase::ServiceProxy), PhaseStatus::Canceled);
    assert_eq!(gateway.completed_units, 6);
    assert_eq!(gateway.positions(Phase::StorageTier, "A").len(), 6);
    assert_eq!(gateway.positions(Phase::StorageTier, "B").len(), 1);
    assert_eq!(gateway.positions(Phase::StorageTier, "C").len(), 6);
    assert!(gateway.positions(Phase::ContainerRuntime, "A").is_empty());
}

#[test]
fn run_stops_when_no_join_request_appears() {
    let hosts = topology();
    let mut gateway = FakeGateway::new(Vec::new());
    let (orchestrator, approved) = run_all(&hosts, &mut gateway);
    assert!(approved.is_empty());
    assert!(orchestrator.has_failed());
    assert_eq!(orchestrator.status(Phase::AdminCredential), PhaseStatus::Succeeded);
    assert_eq!(orchestrator.status(Phase::NodeAgent), PhaseStatus::Failed);
    assert_eq!(orchestrator.status(Phase::ServiceProxy), PhaseStatus::Canceled);
    assert!(gateway.positions(Phase::ServiceProxy, "B").is_empty());
    let polls = gateway
        .trace
        .iter()
        .filter(|(_, call)| {
            matches!(call, GatewayCall::Exec { command, .. } if command == "kubectl get csr")
        })
        .count();
    assert_eq!(polls, 5);
}
