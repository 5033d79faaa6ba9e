use rk8s::command::{
    needs_config, parse_generate_target, parse_install_target, run_command, work_dirs, Command,
    GenerateTarget, InstallTarget, Scope, Task,
};
use rk8s::orchestrator::Phase;

#[test]
fn install_targets() {
    assert_eq!(parse_install_target("etcd"), Some(InstallTarget::Etcd));
    assert_eq!(parse_install_target("cfssl"), Some(InstallTarget::Cfssl));
    assert_eq!(parse_install_target("docker"), Some(InstallTarget::Docker));
    assert_eq!(parse_install_target("kubernetes"), Some(InstallTarget::Kubernetes));
    assert_eq!(parse_install_target("Etcd"), None);
    assert_eq!(parse_install_target(""), None);
    assert_eq!(parse_install_target("etcd "), None);
}

#[test]
fn generate_targets() {
    assert_eq!(parse_generate_target("config"), Some(GenerateTarget::Config));
    assert_eq!(parse_generate_target("configs"), None);
    assert_eq!(parse_generate_target(""), None);
}

#[test]
fn deploy_goes_through_every_phase_in_order() {
    assert_eq!(
        run_command(Command::Deploy),
        vec![
            Task::Run(Scope::Cluster, Phase::PreflightCheck),
            Task::Run(Scope::Cluster, Phase::StorageTier),
            Task::Run(Scope::Cluster, Phase::ContainerRuntime),
            Task::Run(Scope::Cluster, Phase::ControlPlaneApi),
            Task::Run(Scope::Cluster, Phase::ControllerManager),
            Task::Run(Scope::Cluster, Phase::Scheduler),
            Task::Run(Scope::Cluster, Phase::AdminCredential),
            Task::Run(Scope::Cluster, Phase::NodeAgent),
            Task::Run(Scope::Cluster, Phase::ServiceProxy),
        ]
    );
}

#[test]
fn init_brings_up_a_control_host_here() {
    assert_eq!(
        run_command(Command::Init),
        vec![
            Task::Run(Scope::ThisMachine, Phase::StorageTier),
            Task::Run(Scope::ThisMachine, Phase::ControlPlaneApi),
            Task::Run(Scope::ThisMachine, Phase::ControllerManager),
            Task::Run(Scope::ThisMachine, Phase::Scheduler),
            Task::Run(Scope::ThisMachine, Phase::AdminCredential),
            Task::Run(Scope::ThisMachine, Phase::NodeAgent),
            Task::Run(Scope::ThisMachine, Phase::ServiceProxy),
        ]
    );
}

#[test]
fn small_commands() {
    assert_eq!(
        run_command(Command::Precheck),
        vec![Task::Run(Scope::ThisMachine, Phase::PreflightCheck)]
    );
    assert_eq!(
        run_command(Command::Join),
        vec![Task::Run(Scope::ThisMachine, Phase::StorageTier)]
    );
    assert_eq!(
        run_command(Command::Install(Some(InstallTarget::Docker))),
        vec![Task::Install(InstallTarget::Docker)]
    );
    assert_eq!(run_command(Command::Install(None)), vec![]);
    assert_eq!(
        run_command(Command::Generate(Some(GenerateTarget::Config))),
        vec![Task::WriteConfigTemplate]
    );
    assert_eq!(run_command(Command::Generate(None)), vec![]);
}

#[test]
fn only_generate_works_without_configuration() {
    assert!(needs_config(Command::Deploy));
    assert!(needs_config(Command::Precheck));
    assert!(needs_config(Command::Init));
    assert!(needs_config(Command::Join));
    assert!(needs_config(Command::Install(None)));
    assert!(needs_config(Command::Install(Some(InstallTarget::Etcd))));
    assert!(!needs_config(Command::Generate(Some(GenerateTarget::Config))));
    assert!(!needs_config(Command::Generate(None)));
}

#[test]
fn working_directories() {
    assert_eq!(
        work_dirs(),
        vec!["/rk8s", "/rk8s/cfg", "/rk8s/etcd", "/rk8s/docker", "/rk8s/k8s", "/rk8s/preparation"]
    );
}
