//! The commands of the program and what each of them sets in motion.

use vstd::prelude::*;
use vstd::string::*;
use crate::orchestrator::Phase;
use crate::text::{owned, str_eq, views};

verus! {

/// What `install` can install on this machine.
#[derive(Clone, Copy, Debug, PartialEq, Eq, Structural)]
pub enum InstallTarget {
    Etcd,
    Cfssl,
    Docker,
    Kubernetes,
}

/// What `generate` can write out.
#[derive(Clone, Copy, Debug, PartialEq, Eq, Structural)]
pub enum GenerateTarget {
    Config,
}

/// A command of the program.
#[derive(Clone, Copy, Debug, PartialEq, Eq, Structural)]
pub enum Command {
    /// Bring up the whole cluster from this machine.
    Deploy,
    /// Prepare this machine alone.
    Precheck,
    /// Bring up a control host on this machine.
    Init,
    /// Let this machine join the storage tier.
    Join,
    /// Install one piece of software on this machine; nothing where the
    /// target is not known.
    Install(Option<InstallTarget>),
    /// Write out a file to start from; nothing where the target is not
    /// known.
    Generate(Option<GenerateTarget>),
}

/// Where a phase is carried out.
#[derive(Clone, Copy, Debug, PartialEq, Eq, Structural)]
pub enum Scope {
    /// On every host that the phase applies to, through the gateway.
    Cluster,
    /// On the machine that runs the program.
    ThisMachine,
}

/// One thing that a command sets in motion.
#[derive(Clone, Copy, Debug, PartialEq, Eq, Structural)]
pub enum Task {
    Run(Scope, Phase),
    Install(InstallTarget),
    WriteConfigTemplate,
}

/// The install target that `name` stands for.
pub open spec fn install_target(name: Seq<char>) -> Option<InstallTarget> {
    if name == "etcd"@ {
        Some(InstallTarget::Etcd)
    } else if name == "cfssl"@ {
        Some(InstallTarget::Cfssl)
    } else if name == "docker"@ {
        Some(InstallTarget::Docker)
    } else if name == "kubernetes"@ {
        Some(InstallTarget::Kubernetes)
    } else {
        None
    }
}

/// The install target that `name` stands for, if it is one.
pub fn parse_install_target(name: &str) -> (r: Option<InstallTarget>)
    ensures
        r == install_target(name@),
{
    if str_eq(name, "etcd") {
        Some(InstallTarget::Etcd)
    } else if str_eq(name, "cfssl") {
        Some(InstallTarget::Cfssl)
    } else if str_eq(name, "docker") {
        Some(InstallTarget::Docker)
    } else if str_eq(name, "kubernetes") {
        Some(InstallTarget::Kubernetes)
    } else {
        None
    }
}

/// The target of `generate` that `name` stands for, if it is one.
pub fn parse_generate_target(name: &str) -> (r: Option<GenerateTarget>)
    ensures
        r == (if name@ == "config"@ {
            Some(GenerateTarget::Config)
        } else {
            None
        }),
{
    if str_eq(name, "config") {
        Some(GenerateTarget::Config)
    } else {
        None
    }
}

/// The phases of a deployment, in the order in which they are gone through
/// when one phase runs at a time.
pub open spec fn deploy_order() -> Seq<Phase> {
    seq![
        Phase::PreflightCheck,
        Phase::StorageTier,
        Phase::ContainerRuntime,
        Phase::ControlPlaneApi,
        Phase::ControllerManager,
        Phase::Scheduler,
        Phase::AdminCredential,
        Phase::NodeAgent,
        Phase::ServiceProxy,
    ]
}

/// The phases that bring up a control host on this machine, in order.
pub open spec fn init_order() -> Seq<Phase> {
    seq![
        Phase::StorageTier,
        Phase::ControlPlaneApi,
        Phase::ControllerManager,
        Phase::Scheduler,
        Phase::AdminCredential,
        Phase::NodeAgent,
        Phase::ServiceProxy,
    ]
}

/// What `command` sets in motion, in order.
pub open spec fn tasks_of(command: Command) -> Seq<Task> {
    match command {
        Command::Deploy => deploy_order().map_values(|p: Phase| Task::Run(Scope::Cluster, p)),
        Command::Precheck => seq![Task::Run(Scope::ThisMachine, Phase::PreflightCheck)],
        Command::Init => init_order().map_values(|p: Phase| Task::Run(Scope::ThisMachine, p)),
        Command::Join => seq![Task::Run(Scope::ThisMachine, Phase::StorageTier)],
        Command::Install(Some(target)) => seq![Task::Install(target)],
        Command::Install(None) => seq![],
        Command::Generate(Some(GenerateTarget::Config)) => seq![Task::WriteConfigTemplate],
        Command::Generate(None) => seq![],
    }
}

/// Whether `command` reads the configuration before it does anything: all
/// commands but `generate` do.
pub fn needs_config(command: Command) -> (r: bool)
    ensures
        r == !(command is Generate),
{
    match command {
        Command::Generate(_) => false,
        _ => true,
    }
}

/// What `command` sets in motion, in order. An unknown target sets nothing
/// in motion.
pub fn run_command(command: Command) -> (r: Vec<Task>)
    ensures
        r@ == tasks_of(command),
{
    let mut out: Vec<Task> = Vec::new();
    match command {
        Command::Deploy => {
            out.push(Task::Run(Scope::Cluster, Phase::PreflightCheck));
            out.push(Task::Run(Scope::Cluster, Phase::StorageTier));
            out.push(Task::Run(Scope::Cluster, Phase::ContainerRuntime));
            out.push(Task::Run(Scope::Cluster, Phase::ControlPlaneApi));
            out.push(Task::Run(Scope::Cluster, Phase::ControllerManager));
            out.push(Task::Run(Scope::Cluster, Phase::Scheduler));
            out.push(Task::Run(Scope::Cluster, Phase::AdminCredential));
            out.push(Task::Run(Scope::Cluster, Phase::NodeAgent));
            out.push(Task::Run(Scope::Cluster, Phase::ServiceProxy));
        },
        Command::Precheck => {
            out.push(Task::Run(Scope::ThisMachine, Phase::PreflightCheck));
        },
        Command::Init => {
            out.push(Task::Run(Scope::ThisMachine, Phase::StorageTier));
            out.push(Task::Run(Scope::ThisMachine, Phase::ControlPlaneApi));
            out.push(Task::Run(Scope::ThisMachine, Phase::ControllerManager));
            out.push(Task::Run(Scope::ThisMachine, Phase::Scheduler));
            out.push(Task::Run(Scope::ThisMachine, Phase::AdminCredential));
            out.push(Task::Run(Scope::ThisMachine, Phase::NodeAgent));
            out.push(Task::Run(Scope::ThisMachine, Phase::ServiceProxy));
        },
        Command::Join => {
            out.push(Task::Run(Scope::ThisMachine, Phase::StorageTier));
        },
        Command::Install(Some(target)) => {
            out.push(Task::Install(target));
        },
        Command::Install(None) => {},
        Command::Generate(Some(GenerateTarget::Config)) => {
            out.push(Task::WriteConfigTemplate);
        },
        Command::Generate(None) => {},
    }
    proof {
        assert(out@ =~= tasks_of(command));
    }
    out
}

/// The directories that the program works in: its root, and one directory
/// each for the configuration, the storage tier, the container runtime, the
/// cluster software and the downloads.
pub open spec fn work_dirs_spec() -> Seq<Seq<char>> {
    seq![
        "/rk8s"@,
        "/rk8s/cfg"@,
        "/rk8s/etcd"@,
        "/rk8s/docker"@,
        "/rk8s/k8s"@,
        "/rk8s/preparation"@,
    ]
}

/// The directories that the program makes at its first start, the root
/// first.
pub fn work_dirs() -> (r: Vec<String>)
    ensures
        views(r@) == work_dirs_spec(),
{
    let mut out: Vec<String> = Vec::new();
    out.push(owned("/rk8s"));
    out.push(owned("/rk8s/cfg"));
    out.push(owned("/rk8s/etcd"));
    out.push(owned("/rk8s/docker"));
    out.push(owned("/rk8s/k8s"));
    out.push(owned("/rk8s/preparation"));
    proof {
        assert(views(out@) =~= work_dirs_spec());
    }
    out
}

/// A deployment goes through the phases in an order that the dependency
/// graph allows: each phase comes after every phase it depends on, and each
/// phase comes exactly once.
pub proof fn deploy_order_respects_dependencies(i: int, dependency: Phase)
    requires
        0 <= i < deploy_order().len(),
        deploy_order()[i].spec_depends_on(dependency),
    ensures
        exists|j: int| 0 <= j < i && deploy_order()[j] == dependency,
        forall|a: int, b: int|
            0 <= a < deploy_order().len() && 0 <= b < deploy_order().len() && a != b
                ==> deploy_order()[a] != deploy_order()[b],
{
    crate::orchestrator::dependencies_come_first(deploy_order()[i], dependency);
    let j = dependency.spec_index();
    assert(deploy_order()[j] == dependency);
}

} // verus!
