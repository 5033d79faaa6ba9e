//! The fan-out of one phase over its hosts, and the barrier at its end: one
//! unit of work per selected host, the phase succeeds only if every unit
//! does, and a failure stops no other unit. A phase whose hosts ask to join
//! the cluster is held at the barrier until a join request was approved.

use vstd::prelude::*;
use crate::config::{Host, Role};
use crate::join::JoinTimeoutError;
use crate::orchestrator::{
    status_of, step, Event, Orchestrator, OrchestratorError, Phase, PhaseStatus,
};

verus! {

/// The positions below `n` of the hosts of `role`, in rising order.
pub open spec fn indices_of_role(hosts: Seq<Host>, role: Role, n: nat) -> Seq<usize>
    decreases n,
{
    if n == 0 {
        Seq::empty()
    } else {
        let rest = indices_of_role(hosts, role, (n - 1) as nat);
        if hosts[n - 1].spec_role() == role {
            rest.push((n - 1) as usize)
        } else {
            rest
        }
    }
}

/// The hosts that `phase` runs on, by position: control hosts first, then
/// workers, so that a control host is served before any worker that needs
/// it.
pub open spec fn selected_hosts(hosts: Seq<Host>, phase: Phase) -> Seq<usize> {
    let control = if phase.spec_applies_to(Role::Control) {
        indices_of_role(hosts, Role::Control, hosts.len())
    } else {
        Seq::empty()
    };
    let workers = if phase.spec_applies_to(Role::Worker) {
        indices_of_role(hosts, Role::Worker, hosts.len())
    } else {
        Seq::empty()
    };
    control + workers
}

fn append_role(hosts: &Vec<Host>, role: Role, out: &mut Vec<usize>)
    ensures
        final(out)@ == old(out)@ + indices_of_role(hosts@, role, hosts@.len()),
{
    let ghost before = out@;
    let n: usize = hosts.len();
    let mut i: usize = 0;
    proof {
        assert(out@ =~= before + indices_of_role(hosts@, role, 0));
    }
    while i < n
        invariant
            n == hosts@.len(),
            i <= n,
            out@ == before + indices_of_role(hosts@, role, i as nat),
        decreases n - i,
    {
        if hosts[i].role() == role {
            out.push(i);
        }
        proof {
            assert(out@ =~= before + indices_of_role(hosts@, role, (i + 1) as nat));
        }
        i = i + 1;
    }
}

/// The positions in `hosts` of the hosts that `phase` runs on.
pub fn select_hosts(hosts: &Vec<Host>, phase: Phase) -> (r: Vec<usize>)
    ensures
        r@ == selected_hosts(hosts@, phase),
{
    let mut out: Vec<usize> = Vec::new();
    if phase.applies_to(Role::Control) {
        append_role(hosts, Role::Control, &mut out);
    }
    if phase.applies_to(Role::Worker) {
        append_role(hosts, Role::Worker, &mut out);
    }
    proof {
        assert(out@ =~= selected_hosts(hosts@, phase));
    }
    out
}

/// Every position that is selected lies in the host list, and its host has a
/// role that the phase applies to.
pub proof fn selected_hosts_apply(hosts: Seq<Host>, phase: Phase, k: int)
    requires
        0 <= k < selected_hosts(hosts, phase).len(),
        hosts.len() <= usize::MAX,
    ensures
        selected_hosts(hosts, phase)[k] < hosts.len(),
        phase.spec_applies_to(hosts[selected_hosts(hosts, phase)[k] as int].spec_role()),
{
    indices_have_role(hosts, Role::Control, hosts.len());
    indices_have_role(hosts, Role::Worker, hosts.len());
}

proof fn indices_have_role(hosts: Seq<Host>, role: Role, n: nat)
    requires
        n <= hosts.len(),
        hosts.len() <= usize::MAX,
    ensures
        forall|k: int|
            0 <= k < indices_of_role(hosts, role, n).len() ==> (#[trigger] indices_of_role(
                hosts,
                role,
                n,
            )[k]) < n && hosts[indices_of_role(hosts, role, n)[k] as int].spec_role() == role,
    decreases n,
{
    if n > 0 {
        indices_have_role(hosts, role, (n - 1) as nat);
    }
}

/// How far the work on one host has come.
#[derive(Clone, Copy, Debug, PartialEq, Eq, Structural)]
pub enum UnitStatus {
    Pending,
    Running,
    Succeeded,
    Failed,
}

impl UnitStatus {
    /// The unit has run to its end, well or not.
    pub open spec fn finished(self) -> bool {
        self == UnitStatus::Succeeded || self == UnitStatus::Failed
    }
}

/// Some unit has not come to its end yet.
pub open spec fn outstanding(units: Seq<UnitStatus>) -> bool {
    exists|i: int| 0 <= i < units.len() && !(#[trigger] units[i]).finished()
}

/// Some unit has failed.
pub open spec fn any_failed(units: Seq<UnitStatus>) -> bool {
    exists|i: int| 0 <= i < units.len() && #[trigger] units[i] == UnitStatus::Failed
}

/// What the approval of a join request means to a phase at its barrier.
#[derive(Clone, Copy, Debug, PartialEq, Eq, Structural)]
pub enum Admission {
    /// Nothing is waited for: the phase needs no approval, or has it.
    Open,
    /// The phase needs an approval and has none yet.
    Waiting,
    /// The wait for an approval was given up.
    Refused,
}

/// How a phase stands that does or does not await a join, after an approval
/// or none, and after the wait was given up or not.
pub open spec fn admission_of(awaits: bool, approved: bool, gave_up: bool) -> Admission {
    if !awaits || approved {
        Admission::Open
    } else if gave_up {
        Admission::Refused
    } else {
        Admission::Waiting
    }
}

/// The status of the phase at the barrier: nothing while a unit is
/// outstanding; then failed if any unit failed; else nothing while a join
/// request is waited for, failed if that wait was given up, and succeeded
/// otherwise.
pub open spec fn terminal_status(units: Seq<UnitStatus>, admission: Admission) -> Option<PhaseStatus> {
    if outstanding(units) {
        None
    } else if any_failed(units) {
        Some(PhaseStatus::Failed)
    } else {
        match admission {
            Admission::Open => Some(PhaseStatus::Succeeded),
            Admission::Waiting => None,
            Admission::Refused => Some(PhaseStatus::Failed),
        }
    }
}

/// A single failed unit makes the phase fail: once the barrier is reached,
/// the phase's status is `Failed`.
pub proof fn one_failure_fails_the_phase(units: Seq<UnitStatus>, admission: Admission, i: int)
    requires
        0 <= i < units.len(),
        units[i] == UnitStatus::Failed,
    ensures
        terminal_status(units, admission) != Some(PhaseStatus::Succeeded),
        terminal_status(units, admission) is Some ==> terminal_status(units, admission) == Some(
            PhaseStatus::Failed,
        ),
{
}

/// The barrier is reached only when every unit has run to its end.
pub proof fn barrier_waits_for_every_unit(units: Seq<UnitStatus>, admission: Admission, i: int)
    requires
        0 <= i < units.len(),
        terminal_status(units, admission) is Some,
    ensures
        units[i].finished(),
{
}

/// A phase that awaits a join succeeds only after a join request was
/// approved.
pub proof fn no_success_without_approval(units: Seq<UnitStatus>, approved: bool, gave_up: bool)
    requires
        terminal_status(units, admission_of(true, approved, gave_up)) == Some(PhaseStatus::Succeeded),
    ensures
        approved,
{
}

/// Which unit failed first, and why.
#[derive(Debug, PartialEq, Eq)]
pub struct Failure {
    pub unit: usize,
    pub reason: String,
}

/// Why a report on a phase's run is refused.
#[derive(Clone, Copy, Debug, PartialEq, Eq, Structural)]
pub enum FanoutError {
    /// The phase has no unit of that number.
    UnknownUnit,
    /// The unit to begin is not pending.
    NotPending,
    /// The unit that is reported as ended is not running.
    NotRunning,
    /// The phase does not wait for a join request now.
    NotAwaited,
}

/// The record of one phase's run over its hosts.
#[derive(Debug)]
pub struct PhaseRun {
    phase: Phase,
    units: Vec<UnitStatus>,
    failure: Option<Failure>,
    approved: Option<String>,
    timeout: Option<JoinTimeoutError>,
}

/// The view of an optional name.
pub open spec fn name_view(name: Option<String>) -> Option<Seq<char>> {
    match name {
        Some(n) => Some(n@),
        None => None,
    }
}

impl PhaseRun {
    /// The phase that is run.
    pub closed spec fn spec_phase(&self) -> Phase {
        self.phase
    }

    /// The status of every unit.
    pub closed spec fn spec_units(&self) -> Seq<UnitStatus> {
        self.units@
    }

    /// The first failure, if any: the unit and the reason it gave.
    pub closed spec fn spec_failure(&self) -> Option<(usize, Seq<char>)> {
        match self.failure {
            Some(f) => Some((f.unit, f.reason@)),
            None => None,
        }
    }

    /// The name of the join request that was approved, if one was.
    pub closed spec fn spec_approved(&self) -> Option<Seq<char>> {
        name_view(self.approved)
    }

    /// The error with which the wait for a join request was given up, if it
    /// was.
    pub closed spec fn spec_timeout(&self) -> Option<JoinTimeoutError> {
        self.timeout
    }

    /// How the phase stands with the join it may await.
    pub open spec fn spec_admission(&self) -> Admission {
        admission_of(
            self.spec_phase() == Phase::NodeAgent,
            self.spec_approved() is Some,
            self.spec_timeout() is Some,
        )
    }

    /// The status of the phase at the barrier.
    pub open spec fn spec_terminal(&self) -> Option<PhaseStatus> {
        terminal_status(self.spec_units(), self.spec_admission())
    }

    /// Every unit has succeeded and the phase waits for a join request.
    pub open spec fn spec_awaits_approval(&self) -> bool {
        &&& !outstanding(self.spec_units())
        &&& !any_failed(self.spec_units())
        &&& self.spec_admission() == Admission::Waiting
    }

    /// A failure is recorded exactly when some unit has failed, and the unit
    /// it names is one that failed. The wait for a join request ends once,
    /// and only in a phase that awaits one and whose units all succeeded.
    pub open spec fn wf(&self) -> bool {
        &&& self.spec_failure() is Some <==> any_failed(self.spec_units())
        &&& self.spec_failure() is Some ==> {
            &&& self.spec_failure()->Some_0.0 < self.spec_units().len()
            &&& self.spec_units()[self.spec_failure()->Some_0.0 as int] == UnitStatus::Failed
        }
        &&& !(self.spec_approved() is Some && self.spec_timeout() is Some)
        &&& (self.spec_approved() is Some || self.spec_timeout() is Some) ==> {
            &&& self.spec_phase() == Phase::NodeAgent
            &&& !outstanding(self.spec_units())
            &&& !any_failed(self.spec_units())
        }
    }

    /// The record of a phase over `unit_count` hosts, none of them begun.
    pub fn new(phase: Phase, unit_count: usize) -> (r: PhaseRun)
        ensures
            r.wf(),
            r.spec_phase() == phase,
            r.spec_units() == Seq::new(unit_count as nat, |i: int| UnitStatus::Pending),
            r.spec_failure() is None,
            r.spec_approved() is None,
            r.spec_timeout() is None,
    {
        let mut units: Vec<UnitStatus> = Vec::new();
        let mut i: usize = 0;
        while i < unit_count
            invariant
                i <= unit_count,
                units@.len() == i,
                forall|k: int| 0 <= k < i ==> units@[k] == UnitStatus::Pending,
            decreases unit_count - i,
        {
            units.push(UnitStatus::Pending);
            i = i + 1;
        }
        proof {
            assert(units@ =~= Seq::new(unit_count as nat, |i: int| UnitStatus::Pending));
        }
        PhaseRun { phase, units, failure: None, approved: None, timeout: None }
    }

    /// The phase that is run.
    pub fn phase(&self) -> (r: Phase)
        ensures
            r == self.spec_phase(),
    {
        self.phase
    }

    /// The number of units.
    pub fn unit_count(&self) -> (r: usize)
        ensures
            r == self.spec_units().len(),
    {
        self.units.len()
    }

    /// The status of one unit, if there is a unit of that number.
    pub fn unit_status(&self, unit: usize) -> (r: Option<UnitStatus>)
        ensures
            unit < self.spec_units().len() ==> r == Some(self.spec_units()[unit as int]),
            unit >= self.spec_units().len() ==> r is None,
    {
        if unit < self.units.len() {
            Some(self.units[unit])
        } else {
            None
        }
    }

    /// The first failure, if any.
    pub fn failure(&self) -> (r: Option<&Failure>)
        ensures
            match r {
                Some(f) => self.spec_failure() == Some((f.unit, f.reason@)),
                None => self.spec_failure() is None,
            },
    {
        self.failure.as_ref()
    }

    /// The name of the join request that was approved, if one was.
    pub fn approved(&self) -> (r: Option<&String>)
        ensures
            match r {
                Some(name) => self.spec_approved() == Some(name@),
                None => self.spec_approved() is None,
            },
    {
        self.approved.as_ref()
    }

    /// The error with which the wait for a join request was given up, if it
    /// was.
    pub fn timeout(&self) -> (r: Option<JoinTimeoutError>)
        ensures
            r == self.spec_timeout(),
    {
        self.timeout
    }

    /// Marks a pending unit as running. Units may begin whether or not
    /// another unit has failed.
    pub fn begin(&mut self, unit: usize) -> (r: Result<(), FanoutError>)
        requires
            old(self).wf(),
        ensures
            final(self).wf(),
            final(self).spec_phase() == old(self).spec_phase(),
            final(self).spec_failure() == old(self).spec_failure(),
            final(self).spec_approved() == old(self).spec_approved(),
            final(self).spec_timeout() == old(self).spec_timeout(),
            r is Ok <==> unit < old(self).spec_units().len() && old(self).spec_units()[unit as int]
                == UnitStatus::Pending,
            r is Ok ==> final(self).spec_units() == old(self).spec_units().update(
                unit as int,
                UnitStatus::Running,
            ),
            r is Err ==> final(self).spec_units() == old(self).spec_units(),
            r == Err::<(), FanoutError>(FanoutError::UnknownUnit) <==> unit >= old(self).spec_units().len(),
            r == Err::<(), FanoutError>(FanoutError::NotPending) <==> unit < old(self).spec_units().len()
                && old(self).spec_units()[unit as int] != UnitStatus::Pending,
    {
        if unit >= self.units.len() {
            return Err(FanoutError::UnknownUnit);
        }
        if self.units[unit] != UnitStatus::Pending {
            return Err(FanoutError::NotPending);
        }
        let ghost before = self.units@;
        proof {
            assert(!before[unit as int].finished());
        }
        self.units.set(unit, UnitStatus::Running);
        proof {
            if any_failed(before) {
                let w = choose|i: int| 0 <= i < before.len() && #[trigger] before[i]
                    == UnitStatus::Failed;
                assert(self.units@[w] == UnitStatus::Failed);
            }
            if any_failed(self.units@) {
                let w = choose|i: int| 0 <= i < self.units@.len() && #[trigger] self.units@[i]
                    == UnitStatus::Failed;
                assert(before[w] == UnitStatus::Failed);
            }
        }
        Ok(())
    }

    /// Records how a running unit ended: `None` for success, or the reason
    /// of its failure. The first failure is kept as the phase's own; no
    /// other unit is touched, so every unit that runs can still come to its
    /// end.
    pub fn report(&mut self, unit: usize, outcome: Option<String>) -> (r: Result<(), FanoutError>)
        requires
            old(self).wf(),
        ensures
            final(self).wf(),
            final(self).spec_phase() == old(self).spec_phase(),
            final(self).spec_approved() == old(self).spec_approved(),
            final(self).spec_timeout() == old(self).spec_timeout(),
            r is Ok <==> unit < old(self).spec_units().len() && old(self).spec_units()[unit as int]
                == UnitStatus::Running,
            r is Ok ==> final(self).spec_units() == old(self).spec_units().update(
                unit as int,
                if outcome is None {
                    UnitStatus::Succeeded
                } else {
                    UnitStatus::Failed
                },
            ),
            r is Ok ==> final(self).spec_failure() == (if old(self).spec_failure() is None
                && outcome is Some {
                Some((unit, outcome->Some_0@))
            } else {
                old(self).spec_failure()
            }),
            r is Err ==> final(self).spec_units() == old(self).spec_units() && final(self).spec_failure()
                == old(self).spec_failure(),
            r == Err::<(), FanoutError>(FanoutError::UnknownUnit) <==> unit >= old(self).spec_units().len(),
            r == Err::<(), FanoutError>(FanoutError::NotRunning) <==> unit < old(self).spec_units().len()
                && old(self).spec_units()[unit as int] != UnitStatus::Running,
    {
        if unit >= self.units.len() {
            return Err(FanoutError::UnknownUnit);
        }
        if self.units[unit] != UnitStatus::Running {
            return Err(FanoutError::NotRunning);
        }
        let ghost before = self.units@;
        proof {
            assert(!before[unit as int].finished());
        }
        match outcome {
            None => {
                self.units.set(unit, UnitStatus::Succeeded);
            },
            Some(reason) => {
                self.units.set(unit, UnitStatus::Failed);
                if self.failure.is_none() {
                    self.failure = Some(Failure { unit, reason });
                }
            },
        }
        proof {
            if any_failed(before) {
                let w = choose|i: int| 0 <= i < before.len() && #[trigger] before[i]
                    == UnitStatus::Failed;
                assert(self.units@[w] == UnitStatus::Failed);
            }
            if any_failed(self.units@) && outcome is None {
                let w = choose|i: int| 0 <= i < self.units@.len() && #[trigger] self.units@[i]
                    == UnitStatus::Failed;
                assert(before[w] == UnitStatus::Failed);
            }
            if outcome is Some {
                assert(self.units@[unit as int] == UnitStatus::Failed);
            }
        }
        Ok(())
    }

    /// Whether every unit has succeeded.
    fn all_succeeded(&self) -> (r: bool)
        ensures
            r == (!outstanding(self.spec_units()) && !any_failed(self.spec_units())),
    {
        let n: usize = self.units.len();
        let mut i: usize = 0;
        while i < n
            invariant
                n == self.units@.len(),
                i <= n,
                forall|k: int| 0 <= k < i ==> self.units@[k] == UnitStatus::Succeeded,
            decreases n - i,
        {
            match self.units[i] {
                UnitStatus::Succeeded => {},
                UnitStatus::Failed => {
                    return false;
                },
                _ => {
                    proof {
                        assert(!self.units@[i as int].finished());
                    }
                    return false;
                },
            }
            i = i + 1;
        }
        true
    }

    /// Whether the phase waits for a join request now: every unit has
    /// succeeded, the phase awaits a join, and the wait has not ended.
    pub fn awaits_approval(&self) -> (r: bool)
        ensures
            r == self.spec_awaits_approval(),
    {
        self.phase.awaits_join() && self.approved.is_none() && self.timeout.is_none()
            && self.all_succeeded()
    }

    /// Records that the join request `name` was approved. This is refused
    /// unless the phase waits for a join request now.
    pub fn approve(&mut self, name: String) -> (r: Result<(), FanoutError>)
        requires
            old(self).wf(),
        ensures
            final(self).wf(),
            final(self).spec_phase() == old(self).spec_phase(),
            final(self).spec_units() == old(self).spec_units(),
            final(self).spec_failure() == old(self).spec_failure(),
            final(self).spec_timeout() == old(self).spec_timeout(),
            r is Ok <==> old(self).spec_awaits_approval(),
            r is Ok ==> final(self).spec_approved() == Some(name@),
            r is Err ==> r->Err_0 == FanoutError::NotAwaited && final(self).spec_approved() == old(self).spec_approved(),
    {
        if !self.awaits_approval() {
            return Err(FanoutError::NotAwaited);
        }
        self.approved = Some(name);
        Ok(())
    }

    /// Records that the wait for a join request was given up. This is
    /// refused unless the phase waits for a join request now.
    pub fn give_up(&mut self, error: JoinTimeoutError) -> (r: Result<(), FanoutError>)
        requires
            old(self).wf(),
        ensures
            final(self).wf(),
            final(self).spec_phase() == old(self).spec_phase(),
            final(self).spec_units() == old(self).spec_units(),
            final(self).spec_failure() == old(self).spec_failure(),
            final(self).spec_approved() == old(self).spec_approved(),
            r is Ok <==> old(self).spec_awaits_approval(),
            r is Ok ==> final(self).spec_timeout() == Some(error),
            r is Err ==> r->Err_0 == FanoutError::NotAwaited && final(self).spec_timeout() == old(self).spec_timeout(),
    {
        if !self.awaits_approval() {
            return Err(FanoutError::NotAwaited);
        }
        self.timeout = Some(error);
        Ok(())
    }

    /// The status of the phase at the barrier, once it is reached; nothing
    /// before that.
    pub fn terminal(&self) -> (r: Option<PhaseStatus>)
        ensures
            r == self.spec_terminal(),
    {
        let n: usize = self.units.len();
        let mut failed: bool = false;
        let mut i: usize = 0;
        while i < n
            invariant
                n == self.units@.len(),
                i <= n,
                forall|k: int| 0 <= k < i ==> (#[trigger] self.units@[k]).finished(),
                failed == (exists|k: int|
                    0 <= k < i && #[trigger] self.units@[k] == UnitStatus::Failed),
            decreases n - i,
        {
            match self.units[i] {
                UnitStatus::Pending | UnitStatus::Running => {
                    proof {
                        assert(!self.units@[i as int].finished());
                    }
                    return None;
                },
                UnitStatus::Failed => {
                    failed = true;
                },
                UnitStatus::Succeeded => {},
            }
            i = i + 1;
        }
        if failed {
            Some(PhaseStatus::Failed)
        } else if !self.phase.awaits_join() || self.approved.is_some() {
            Some(PhaseStatus::Succeeded)
        } else if self.timeout.is_some() {
            Some(PhaseStatus::Failed)
        } else {
            None
        }
    }

    /// Hands the phase's end to the orchestrator once the barrier is
    /// reached. Before that nothing is reported and the orchestrator stays
    /// as it is.
    pub fn conclude(&self, orchestrator: &mut Orchestrator) -> (r: Option<
        Result<(), OrchestratorError>,
    >)
        requires
            old(orchestrator).wf(),
        ensures
            final(orchestrator).wf(),
            r is None <==> self.spec_terminal() is None,
            r is None ==> final(orchestrator)@ == old(orchestrator)@,
            r is Some ==> final(orchestrator)@ == step(
                old(orchestrator)@,
                Event::Finish(
                    self.spec_phase(),
                    self.spec_terminal() == Some(PhaseStatus::Succeeded),
                ),
            ),
            r is Some ==> (r->Some_0 is Ok <==> status_of(old(orchestrator)@, self.spec_phase())
                == PhaseStatus::Running),
            r is Some && r->Some_0 is Err ==> r->Some_0->Err_0 == OrchestratorError::NotRunning,
    {
        match self.terminal() {
            None => None,
            Some(status) => Some(orchestrator.finish(self.phase, status == PhaseStatus::Succeeded)),
        }
    }
}

/// A run of the phase that awaits a join succeeds at its barrier only with
/// an approved join request on record.
pub proof fn joined_before_success(run: PhaseRun)
    requires
        run.spec_phase() == Phase::NodeAgent,
        run.spec_terminal() == Some(PhaseStatus::Succeeded),
    ensures
        run.spec_approved() is Some,
{
}

} // verus!
