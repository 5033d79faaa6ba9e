//! The phase orchestrator: the fixed dependency graph of provisioning phases
//! and the state machine that decides which phase may start.
//!
//! The orchestrator does no work itself. Its caller starts a phase, runs it,
//! and reports how it ended; the orchestrator answers which phases are ready.

use vstd::prelude::*;
use crate::config::Role;

verus! {

/// The provisioning phases, in an order in which every phase comes after the
/// phases it depends on.
#[derive(Clone, Copy, Debug, PartialEq, Eq, Structural)]
pub enum Phase {
    PreflightCheck,
    StorageTier,
    ContainerRuntime,
    ControlPlaneApi,
    ControllerManager,
    Scheduler,
    AdminCredential,
    NodeAgent,
    ServiceProxy,
}

/// The number of phases.
pub const PHASE_COUNT: usize = 9;

/// All phases, each at its own index.
pub open spec fn all_phases() -> Seq<Phase> {
    seq![
        Phase::PreflightCheck,
        Phase::StorageTier,
        Phase::ContainerRuntime,
        Phase::ControlPlaneApi,
        Phase::ControllerManager,
        Phase::Scheduler,
        Phase::AdminCredential,
        Phase::NodeAgent,
        Phase::ServiceProxy,
    ]
}

impl Phase {
    /// The position of the phase in `all_phases`.
    pub open spec fn spec_index(self) -> int {
        match self {
            Phase::PreflightCheck => 0,
            Phase::StorageTier => 1,
            Phase::ContainerRuntime => 2,
            Phase::ControlPlaneApi => 3,
            Phase::ControllerManager => 4,
            Phase::Scheduler => 5,
            Phase::AdminCredential => 6,
            Phase::NodeAgent => 7,
            Phase::ServiceProxy => 8,
        }
    }

    /// The position of the phase in the fixed order.
    pub fn index(self) -> (r: usize)
        ensures
            r == self.spec_index(),
            r < PHASE_COUNT,
            all_phases()[r as int] == self,
    {
        match self {
            Phase::PreflightCheck => 0,
            Phase::StorageTier => 1,
            Phase::ContainerRuntime => 2,
            Phase::ControlPlaneApi => 3,
            Phase::ControllerManager => 4,
            Phase::Scheduler => 5,
            Phase::AdminCredential => 6,
            Phase::NodeAgent => 7,
            Phase::ServiceProxy => 8,
        }
    }

    /// The phase at position `i` of the fixed order.
    pub fn from_index(i: usize) -> (r: Option<Phase>)
        ensures
            i < PHASE_COUNT ==> r == Some(all_phases()[i as int]),
            i >= PHASE_COUNT ==> r is None,
            r is Some ==> r->Some_0.spec_index() == i,
    {
        match i {
            0 => Some(Phase::PreflightCheck),
            1 => Some(Phase::StorageTier),
            2 => Some(Phase::ContainerRuntime),
            3 => Some(Phase::ControlPlaneApi),
            4 => Some(Phase::ControllerManager),
            5 => Some(Phase::Scheduler),
            6 => Some(Phase::AdminCredential),
            7 => Some(Phase::NodeAgent),
            8 => Some(Phase::ServiceProxy),
            _ => None,
        }
    }

    /// The phases that must have succeeded before this one starts.
    pub open spec fn spec_dependencies(self) -> Seq<Phase> {
        match self {
            Phase::PreflightCheck => seq![],
            Phase::StorageTier => seq![Phase::PreflightCheck],
            Phase::ContainerRuntime => seq![Phase::StorageTier],
            Phase::ControlPlaneApi => seq![Phase::ContainerRuntime],
            Phase::ControllerManager => seq![Phase::ControlPlaneApi],
            Phase::Scheduler => seq![Phase::ControlPlaneApi],
            Phase::AdminCredential => seq![Phase::ControllerManager, Phase::Scheduler],
            Phase::NodeAgent => seq![Phase::AdminCredential],
            Phase::ServiceProxy => seq![Phase::NodeAgent],
        }
    }

    /// The phases that must have succeeded before this one starts.
    pub fn dependencies(self) -> (r: Vec<Phase>)
        ensures
            r@ == self.spec_dependencies(),
    {
        let mut deps: Vec<Phase> = Vec::new();
        match self {
            Phase::PreflightCheck => {},
            Phase::StorageTier => {
                deps.push(Phase::PreflightCheck);
            },
            Phase::ContainerRuntime => {
                deps.push(Phase::StorageTier);
            },
            Phase::ControlPlaneApi => {
                deps.push(Phase::ContainerRuntime);
            },
            Phase::ControllerManager => {
                deps.push(Phase::ControlPlaneApi);
            },
            Phase::Scheduler => {
                deps.push(Phase::ControlPlaneApi);
            },
            Phase::AdminCredential => {
                deps.push(Phase::ControllerManager);
                deps.push(Phase::Scheduler);
            },
            Phase::NodeAgent => {
                deps.push(Phase::AdminCredential);
            },
            Phase::ServiceProxy => {
                deps.push(Phase::NodeAgent);
            },
        }
        proof {
            assert(deps@ =~= self.spec_dependencies());
        }
        deps
    }

    /// This phase depends directly on `other`.
    pub open spec fn spec_depends_on(self, other: Phase) -> bool {
        self.spec_dependencies().contains(other)
    }

    /// Whether this phase depends directly on `other`.
    pub fn depends_on(self, other: Phase) -> (r: bool)
        ensures
            r == self.spec_depends_on(other),
    {
        let deps = self.dependencies();
        let mut i: usize = 0;
        while i < deps.len()
            invariant
                deps@ == self.spec_dependencies(),
                i <= deps.len(),
                forall|k: int| 0 <= k < i ==> deps@[k] != other,
            decreases deps.len() - i,
        {
            if deps[i] == other {
                return true;
            }
            i = i + 1;
        }
        false
    }

    /// Whether the phase is over only when a join request was approved on a
    /// control host: the node agents ask to join, and what follows them
    /// needs them admitted.
    pub fn awaits_join(self) -> (r: bool)
        ensures
            r == (self == Phase::NodeAgent),
    {
        match self {
            Phase::NodeAgent => true,
            _ => false,
        }
    }

    /// The phase runs on hosts of `role`: the control plane's phases run on
    /// control hosts only, all others on every host.
    pub open spec fn spec_applies_to(self, role: Role) -> bool {
        match self {
            Phase::ControlPlaneApi
            | Phase::ControllerManager
            | Phase::Scheduler
            | Phase::AdminCredential => role == Role::Control,
            _ => true,
        }
    }

    /// Whether the phase runs on hosts of `role`.
    pub fn applies_to(self, role: Role) -> (r: bool)
        ensures
            r == self.spec_applies_to(role),
    {
        match self {
            Phase::ControlPlaneApi
            | Phase::ControllerManager
            | Phase::Scheduler
            | Phase::AdminCredential => role == Role::Control,
            _ => true,
        }
    }
}

/// The dependency graph has no cycle: every phase comes later in the fixed
/// order than each phase it depends on.
pub proof fn dependencies_come_first(later: Phase, earlier: Phase)
    requires
        later.spec_depends_on(earlier),
    ensures
        earlier.spec_index() < later.spec_index(),
{
    let deps = later.spec_dependencies();
    let i = choose|i: int| 0 <= i < deps.len() && deps[i] == earlier;
    assert(deps[i] == earlier);
}

/// How far a phase has come.
#[derive(Clone, Copy, Debug, PartialEq, Eq, Structural)]
pub enum PhaseStatus {
    Pending,
    Running,
    Succeeded,
    Failed,
    /// The phase never started because another phase failed.
    Canceled,
}

impl PhaseStatus {
    /// The phase was started at some time.
    pub open spec fn started(self) -> bool {
        self == PhaseStatus::Running || self == PhaseStatus::Succeeded || self
            == PhaseStatus::Failed
    }
}

/// What the caller reports to the orchestrator.
#[derive(Clone, Copy, Debug, PartialEq, Eq, Structural)]
pub enum Event {
    /// The caller wants to start the phase.
    Start(Phase),
    /// The phase ended; the flag says whether it succeeded.
    Finish(Phase, bool),
}

/// The state before anything happened: every phase is pending.
pub open spec fn initial() -> Seq<PhaseStatus> {
    Seq::new(PHASE_COUNT as nat, |i: int| PhaseStatus::Pending)
}

/// The status of `phase` in the state `s`.
pub open spec fn status_of(s: Seq<PhaseStatus>, phase: Phase) -> PhaseStatus {
    s[phase.spec_index()]
}

/// Every phase that `phase` depends on has succeeded.
pub open spec fn dependencies_succeeded(s: Seq<PhaseStatus>, phase: Phase) -> bool {
    forall|k: int|
        0 <= k < phase.spec_dependencies().len() ==> status_of(
            s,
            #[trigger] phase.spec_dependencies()[k],
        ) == PhaseStatus::Succeeded
}

/// `phase` may start: it is pending and all it depends on has succeeded.
pub open spec fn can_start(s: Seq<PhaseStatus>, phase: Phase) -> bool {
    status_of(s, phase) == PhaseStatus::Pending && dependencies_succeeded(s, phase)
}

/// The state `s` with every pending phase canceled.
pub open spec fn cancel_pending(s: Seq<PhaseStatus>) -> Seq<PhaseStatus> {
    Seq::new(
        s.len(),
        |i: int|
            if s[i] == PhaseStatus::Pending {
                PhaseStatus::Canceled
            } else {
                s[i]
            },
    )
}

/// The state after one event. A start that is not allowed, and the end of a
/// phase that is not running, change nothing. A failure cancels every
/// pending phase and leaves running phases alone.
pub open spec fn step(s: Seq<PhaseStatus>, e: Event) -> Seq<PhaseStatus> {
    match e {
        Event::Start(p) => if can_start(s, p) {
            s.update(p.spec_index(), PhaseStatus::Running)
        } else {
            s
        },
        Event::Finish(p, succeeded) => if status_of(s, p) != PhaseStatus::Running {
            s
        } else if succeeded {
            s.update(p.spec_index(), PhaseStatus::Succeeded)
        } else {
            cancel_pending(s.update(p.spec_index(), PhaseStatus::Failed))
        },
    }
}

/// The state after a whole history of events.
pub open spec fn run(events: Seq<Event>) -> Seq<PhaseStatus>
    decreases events.len(),
{
    if events.len() == 0 {
        initial()
    } else {
        step(run(events.drop_last()), events.last())
    }
}

/// Some phase has failed.
pub open spec fn aborted(s: Seq<PhaseStatus>) -> bool {
    exists|p: Phase| status_of(s, p) == PhaseStatus::Failed
}

/// What holds of every state the orchestrator can reach: a phase that was
/// started has all its dependencies succeeded, and once a phase has failed
/// none is pending.
pub open spec fn consistent(s: Seq<PhaseStatus>) -> bool {
    &&& s.len() == PHASE_COUNT
    &&& forall|b: Phase, a: Phase|
        status_of(s, b).started() && #[trigger] b.spec_depends_on(a) ==> status_of(s, a)
            == PhaseStatus::Succeeded
    &&& forall|p: Phase, q: Phase|
        #![trigger status_of(s, p), status_of(s, q)]
        status_of(s, p) == PhaseStatus::Failed ==> status_of(s, q) != PhaseStatus::Pending
}

/// One event leads from a consistent state to a consistent state.
pub proof fn step_keeps_consistent(s: Seq<PhaseStatus>, e: Event)
    requires
        consistent(s),
    ensures
        consistent(step(s, e)),
{
    let t = step(s, e);
    match e {
        Event::Start(p) => {
            if can_start(s, p) {
                assert forall|b: Phase, a: Phase|
                    status_of(t, b).started() && #[trigger] b.spec_depends_on(a) implies status_of(
                    t,
                    a,
                ) == PhaseStatus::Succeeded by {
                    let deps = b.spec_dependencies();
                    let k = choose|k: int| 0 <= k < deps.len() && deps[k] == a;
                    assert(deps[k] == a);
                    if b == p {
                        assert(status_of(s, b.spec_dependencies()[k]) == PhaseStatus::Succeeded);
                    } else {
                        assert(status_of(s, b) == status_of(t, b));
                    }
                    assert(status_of(s, a) == PhaseStatus::Succeeded);
                }
                assert forall|x: Phase, q: Phase|
                    #![trigger status_of(t, x), status_of(t, q)]
                    status_of(t, x) == PhaseStatus::Failed implies status_of(t, q)
                    != PhaseStatus::Pending by {
                    assert(status_of(s, x) == PhaseStatus::Failed);
                    assert(status_of(s, p) != PhaseStatus::Pending);
                }
            }
        },
        Event::Finish(p, succeeded) => {
            if status_of(s, p) == PhaseStatus::Running {
                let u = s.update(
                    p.spec_index(),
                    if succeeded {
                        PhaseStatus::Succeeded
                    } else {
                        PhaseStatus::Failed
                    },
                );
                assert forall|b: Phase, a: Phase|
                    status_of(t, b).started() && #[trigger] b.spec_depends_on(a) implies status_of(
                    t,
                    a,
                ) == PhaseStatus::Succeeded by {
                    assert(status_of(s, b).started());
                    assert(status_of(s, a) == PhaseStatus::Succeeded);
                    dependencies_come_first(b, a);
                }
                assert forall|x: Phase, q: Phase|
                    #![trigger status_of(t, x), status_of(t, q)]
                    status_of(t, x) == PhaseStatus::Failed implies status_of(t, q)
                    != PhaseStatus::Pending by {
                    if succeeded {
                        assert(status_of(s, x) == PhaseStatus::Failed);
                        assert(status_of(s, q) != PhaseStatus::Pending);
                    }
                }
            }
        },
    }
}

/// Every history of events ends in a consistent state.
pub proof fn run_is_consistent(events: Seq<Event>)
    ensures
        consistent(run(events)),
    decreases events.len(),
{
    if events.len() == 0 {
        assert forall|b: Phase, a: Phase|
            status_of(initial(), b).started() && #[trigger] b.spec_depends_on(a) implies status_of(
            initial(),
            a,
        ) == PhaseStatus::Succeeded by {
            assert(status_of(initial(), b) == PhaseStatus::Pending);
        }
        assert forall|x: Phase, q: Phase|
            #![trigger status_of(initial(), x), status_of(initial(), q)]
            status_of(initial(), x) == PhaseStatus::Failed implies status_of(initial(), q)
            != PhaseStatus::Pending by {
            assert(status_of(initial(), x) == PhaseStatus::Pending);
        }
    } else {
        run_is_consistent(events.drop_last());
        step_keeps_consistent(run(events.drop_last()), events.last());
    }
}

/// Whatever the order in which phases are started and end, a phase that
/// depends on another is never started before the other has succeeded: after
/// every history, a phase that is running, has succeeded or has failed has
/// each of its dependencies succeeded.
pub proof fn no_phase_starts_before_its_dependencies(events: Seq<Event>, b: Phase, a: Phase)
    requires
        b.spec_depends_on(a),
        status_of(run(events), b).started(),
    ensures
        status_of(run(events), a) == PhaseStatus::Succeeded,
{
    run_is_consistent(events);
}

/// Each phase of `chain` depends on the one that follows it.
pub open spec fn is_dependency_chain(chain: Seq<Phase>) -> bool {
    forall|i: int| 0 <= i < chain.len() - 1 ==> (#[trigger] chain[i]).spec_depends_on(chain[i + 1])
}

/// A phase that was started has everything succeeded that it depends on,
/// however long the chain of dependencies: so no phase is started after a
/// phase that it depends on, directly or not, has failed.
pub proof fn started_phase_has_all_it_depends_on(s: Seq<PhaseStatus>, chain: Seq<Phase>, k: int)
    requires
        consistent(s),
        is_dependency_chain(chain),
        0 < k < chain.len(),
        status_of(s, chain[0]).started(),
    ensures
        status_of(s, chain[k]) == PhaseStatus::Succeeded,
    decreases k,
{
    if k > 1 {
        started_phase_has_all_it_depends_on(s, chain, k - 1);
    }
    assert(chain[k - 1].spec_depends_on(chain[k]));
}

/// After a phase has failed no further phase starts: every request to start
/// one leaves the state as it is.
pub proof fn nothing_starts_after_a_failure(s: Seq<PhaseStatus>, failed: Phase, p: Phase)
    requires
        consistent(s),
        status_of(s, failed) == PhaseStatus::Failed,
    ensures
        step(s, Event::Start(p)) == s,
{
    assert(status_of(s, p) != PhaseStatus::Pending);
}

/// Why the orchestrator refuses an event.
#[derive(Clone, Copy, Debug, PartialEq, Eq, Structural)]
pub enum OrchestratorError {
    /// The phase to start is not pending: it was started or canceled before.
    NotPending,
    /// The phase to start depends on a phase that has not succeeded.
    DependencyUnmet,
    /// The phase that is reported as ended is not running.
    NotRunning,
}

/// The statuses of all phases during one run.
#[derive(Debug)]
pub struct Orchestrator {
    statuses: Vec<PhaseStatus>,
}

impl View for Orchestrator {
    type V = Seq<PhaseStatus>;

    closed spec fn view(&self) -> Seq<PhaseStatus> {
        self.statuses@
    }
}

impl Orchestrator {
    /// The orchestrator is in a state that a run can reach.
    pub open spec fn wf(&self) -> bool {
        consistent(self@)
    }

    /// An orchestrator at the start of a run.
    pub fn new() -> (r: Orchestrator)
        ensures
            r@ == initial(),
            r.wf(),
    {
        let mut statuses: Vec<PhaseStatus> = Vec::new();
        let mut i: usize = 0;
        while i < PHASE_COUNT
            invariant
                i <= PHASE_COUNT,
                statuses@.len() == i,
                forall|k: int| 0 <= k < i ==> statuses@[k] == PhaseStatus::Pending,
            decreases PHASE_COUNT - i,
        {
            statuses.push(PhaseStatus::Pending);
            i = i + 1;
        }
        proof {
            assert(statuses@ =~= initial());
            run_is_consistent(Seq::empty());
        }
        Orchestrator { statuses }
    }

    /// The status of `phase`.
    pub fn status(&self, phase: Phase) -> (r: PhaseStatus)
        requires
            self.wf(),
        ensures
            r == status_of(self@, phase),
    {
        self.statuses[phase.index()]
    }

    /// Whether every phase that `phase` depends on has succeeded.
    pub fn dependencies_met(&self, phase: Phase) -> (r: bool)
        requires
            self.wf(),
        ensures
            r == dependencies_succeeded(self@, phase),
    {
        let deps = phase.dependencies();
        let mut i: usize = 0;
        while i < deps.len()
            invariant
                self.wf(),
                deps@ == phase.spec_dependencies(),
                i <= deps.len(),
                forall|k: int|
                    0 <= k < i ==> status_of(self@, #[trigger] deps@[k]) == PhaseStatus::Succeeded,
            decreases deps.len() - i,
        {
            if self.statuses[deps[i].index()] != PhaseStatus::Succeeded {
                return false;
            }
            i = i + 1;
        }
        true
    }

    /// Whether `phase` may start now.
    pub fn is_ready(&self, phase: Phase) -> (r: bool)
        requires
            self.wf(),
        ensures
            r == can_start(self@, phase),
    {
        self.status(phase) == PhaseStatus::Pending && self.dependencies_met(phase)
    }

    /// Marks `phase` as running, if it may start. A refused start changes
    /// nothing.
    pub fn start(&mut self, phase: Phase) -> (r: Result<(), OrchestratorError>)
        requires
            old(self).wf(),
        ensures
            final(self).wf(),
            final(self)@ == step(old(self)@, Event::Start(phase)),
            r is Ok <==> can_start(old(self)@, phase),
            r == Err::<(), OrchestratorError>(OrchestratorError::NotPending) <==> status_of(
                old(self)@,
                phase,
            ) != PhaseStatus::Pending,
            r == Err::<(), OrchestratorError>(OrchestratorError::DependencyUnmet) <==> (status_of(
                old(self)@,
                phase,
            ) == PhaseStatus::Pending && !dependencies_succeeded(old(self)@, phase)),
    {
        if self.status(phase) != PhaseStatus::Pending {
            return Err(OrchestratorError::NotPending);
        }
        if !self.dependencies_met(phase) {
            return Err(OrchestratorError::DependencyUnmet);
        }
        proof {
            step_keeps_consistent(self@, Event::Start(phase));
        }
        self.statuses.set(phase.index(), PhaseStatus::Running);
        Ok(())
    }

    /// Records how a running phase ended. A failure cancels every phase that
    /// is still pending; phases that are running stay so until their own end
    /// is reported. The end of a phase that is not running is refused and
    /// changes nothing.
    pub fn finish(&mut self, phase: Phase, succeeded: bool) -> (r: Result<(), OrchestratorError>)
        requires
            old(self).wf(),
        ensures
            final(self).wf(),
            final(self)@ == step(old(self)@, Event::Finish(phase, succeeded)),
            r is Ok <==> status_of(old(self)@, phase) == PhaseStatus::Running,
            r is Err ==> r == Err::<(), OrchestratorError>(OrchestratorError::NotRunning),
    {
        if self.status(phase) != PhaseStatus::Running {
            return Err(OrchestratorError::NotRunning);
        }
        proof {
            step_keeps_consistent(self@, Event::Finish(phase, succeeded));
        }
        if succeeded {
            self.statuses.set(phase.index(), PhaseStatus::Succeeded);
        } else {
            self.statuses.set(phase.index(), PhaseStatus::Failed);
            let ghost mid = self.statuses@;
            let mut i: usize = 0;
            while i < PHASE_COUNT
                invariant
                    i <= PHASE_COUNT,
                    mid.len() == PHASE_COUNT,
                    self.statuses@.len() == PHASE_COUNT,
                    forall|k: int| 0 <= k < i ==> self.statuses@[k] == cancel_pending(mid)[k],
                    forall|k: int| i <= k < PHASE_COUNT ==> self.statuses@[k] == mid[k],
                decreases PHASE_COUNT - i,
            {
                if self.statuses[i] == PhaseStatus::Pending {
                    self.statuses.set(i, PhaseStatus::Canceled);
                }
                i = i + 1;
            }
            proof {
                assert(self.statuses@ =~= cancel_pending(mid));
            }
        }
        Ok(())
    }

    /// The phases that may start now, in the fixed order.
    pub fn ready(&self) -> (r: Vec<Phase>)
        requires
            self.wf(),
        ensures
            r@ == all_phases().filter(|p: Phase| can_start(self@, p)),
    {
        let mut out: Vec<Phase> = Vec::new();
        let mut i: usize = 0;
        let ghost pred = |p: Phase| can_start(self@, p);
        while i < PHASE_COUNT
            invariant
                self.wf(),
                i <= PHASE_COUNT,
                pred == |p: Phase| can_start(self@, p),
                out@ == all_phases().subrange(0, i as int).filter(pred),
            decreases PHASE_COUNT - i,
        {
            let ghost prev = all_phases().subrange(0, i as int);
            let ghost next = all_phases().subrange(0, i + 1);
            proof {
                assert(next.drop_last() =~= prev);
                reveal(Seq::filter);
            }
            match Phase::from_index(i) {
                Some(p) => {
                    if self.is_ready(p) {
                        out.push(p);
                    }
                },
                None => {},
            }
            i = i + 1;
        }
        proof {
            assert(all_phases().subrange(0, PHASE_COUNT as int) =~= all_phases());
        }
        out
    }

    /// No phase is pending or running.
    pub open spec fn spec_is_finished(&self) -> bool {
        forall|i: int|
            0 <= i < self@.len() ==> self@[i] != PhaseStatus::Pending && self@[i]
                != PhaseStatus::Running
    }

    /// Whether the run is over: no phase is pending or running.
    pub fn is_finished(&self) -> (r: bool)
        requires
            self.wf(),
        ensures
            r == self.spec_is_finished(),
    {
        let mut i: usize = 0;
        while i < PHASE_COUNT
            invariant
                self.wf(),
                i <= PHASE_COUNT,
                forall|k: int|
                    0 <= k < i ==> self@[k] != PhaseStatus::Pending && self@[k]
                        != PhaseStatus::Running,
            decreases PHASE_COUNT - i,
        {
            if self.statuses[i] == PhaseStatus::Pending || self.statuses[i]
                == PhaseStatus::Running {
                return false;
            }
            i = i + 1;
        }
        true
    }

    /// Whether the run was aborted: some phase has failed.
    pub fn has_failed(&self) -> (r: bool)
        requires
            self.wf(),
        ensures
            r == aborted(self@),
    {
        let mut i: usize = 0;
        while i < PHASE_COUNT
            invariant
                self.wf(),
                i <= PHASE_COUNT,
                forall|k: int| 0 <= k < i ==> self@[k] != PhaseStatus::Failed,
            decreases PHASE_COUNT - i,
        {
            if self.statuses[i] == PhaseStatus::Failed {
                proof {
                    let p = all_phases()[i as int];
                    assert(status_of(self@, p) == PhaseStatus::Failed);
                }
                return true;
            }
            i = i + 1;
        }
        false
    }
}

} // verus!
