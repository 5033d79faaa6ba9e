//! What the driving machine prepares before a phase is fanned out: the
//! certificates to issue, the files to write and the programs to unpack, as
//! a list of steps in the phase's working directory.

use vstd::prelude::*;
use vstd::string::*;
use crate::config::{CertRole, Config, Host, Role};
use crate::fixed::FixedFile;
use crate::orchestrator::Phase;
use crate::pki::Tier;
use crate::render::{
    apiserver_conf, etcd_conf, etcd_servers_spec, initial_cluster_spec, kubelet_conf,
    proxy_config, ETCDCfg, KubeApiserverCfg, KubeProxyConfig, KubeletCfg,
};
use crate::text::{owned, views};

verus! {

/// What a file holds that the driving machine writes. Hosts are named by
/// their position in the host list.
#[derive(Clone, Copy, Debug, PartialEq, Eq, Structural)]
pub enum Artifact {
    /// The signing policy of a tier.
    SigningPolicy(Tier),
    /// The request for the root certificate of a tier.
    RootRequest(Tier),
    /// The request for the server certificate of a tier.
    ServerRequest(Tier),
    /// The request for the client certificate of a role.
    ClientRequest(CertRole),
    /// The storage tier's environment file for one host.
    StorageConf(usize),
    /// The API server's environment file for one host.
    ApiServerConf(usize),
    /// The node agent's environment file for one host.
    NodeAgentConf(usize),
    /// The service proxy's settings for one host.
    ProxySettings(usize),
    /// A file with fixed text.
    Fixed(FixedFile),
}

/// The files that are written once per host.
#[derive(Clone, Copy, Debug, PartialEq, Eq, Structural)]
pub enum HostFile {
    StorageConf,
    ApiServerConf,
    NodeAgentConf,
    ProxySettings,
}

impl HostFile {
    /// The file of this kind for the host at position `index`.
    pub open spec fn spec_artifact(self, index: usize) -> Artifact {
        match self {
            HostFile::StorageConf => Artifact::StorageConf(index),
            HostFile::ApiServerConf => Artifact::ApiServerConf(index),
            HostFile::NodeAgentConf => Artifact::NodeAgentConf(index),
            HostFile::ProxySettings => Artifact::ProxySettings(index),
        }
    }

    /// The file of this kind for the host at position `index`.
    pub fn artifact(self, index: usize) -> (r: Artifact)
        ensures
            r == self.spec_artifact(index),
    {
        match self {
            HostFile::StorageConf => Artifact::StorageConf(index),
            HostFile::ApiServerConf => Artifact::ApiServerConf(index),
            HostFile::NodeAgentConf => Artifact::NodeAgentConf(index),
            HostFile::ProxySettings => Artifact::ProxySettings(index),
        }
    }
}

/// One step on the driving machine.
#[derive(Debug, PartialEq, Eq)]
pub enum LocalStep {
    /// Make the directory `path`, with the directories above it, unless it
    /// is there.
    MakeDir { path: String },
    /// Write the file `path` with what `artifact` holds.
    Write { path: String, artifact: Artifact },
    /// Run `program` with `arguments`.
    Run { program: String, arguments: Vec<String> },
    /// Issue the root certificate from the root request written before.
    IssueRoot,
    /// Issue the leaf certificate of `role` from the request written before.
    IssueLeaf { role: CertRole },
}

/// A step as plain text.
pub enum StepView {
    MakeDir { path: Seq<char> },
    Write { path: Seq<char>, artifact: Artifact },
    Run { program: Seq<char>, arguments: Seq<Seq<char>> },
    IssueRoot,
    IssueLeaf { role: CertRole },
}

impl View for LocalStep {
    type V = StepView;

    open spec fn view(&self) -> StepView {
        match self {
            LocalStep::MakeDir { path } => StepView::MakeDir { path: path@ },
            LocalStep::Write { path, artifact } => StepView::Write {
                path: path@,
                artifact: *artifact,
            },
            LocalStep::Run { program, arguments } => StepView::Run {
                program: program@,
                arguments: views(arguments@),
            },
            LocalStep::IssueRoot => StepView::IssueRoot,
            LocalStep::IssueLeaf { role } => StepView::IssueLeaf { role: *role },
        }
    }
}

/// The views of a list of steps.
pub open spec fn steps_view(steps: Seq<LocalStep>) -> Seq<StepView> {
    Seq::new(steps.len(), |i: int| steps[i]@)
}

fn no_steps() -> (r: Vec<LocalStep>)
    ensures
        steps_view(r@) == Seq::<StepView>::empty(),
{
    let r: Vec<LocalStep> = Vec::new();
    proof {
        assert(steps_view(r@) =~= Seq::<StepView>::empty());
    }
    r
}

fn push_step(out: &mut Vec<LocalStep>, step: LocalStep)
    ensures
        steps_view(final(out)@) == steps_view(old(out)@) + seq![step@],
{
    out.push(step);
    proof {
        assert(steps_view(out@) =~= steps_view(old(out)@) + seq![step@]);
    }
}

fn no_arguments() -> (r: Vec<String>)
    ensures
        views(r@) == Seq::<Seq<char>>::empty(),
{
    let r: Vec<String> = Vec::new();
    proof {
        assert(views(r@) =~= Seq::<Seq<char>>::empty());
    }
    r
}

fn push_argument(arguments: &mut Vec<String>, argument: String)
    ensures
        views(final(arguments)@) == views(old(arguments)@).push(argument@),
{
    arguments.push(argument);
    proof {
        assert(views(arguments@) =~= views(old(arguments)@).push(argument@));
    }
}

/// The place of a host's own files under the directory of files to send.
pub open spec fn host_path(host: Host, suffix: Seq<char>) -> Seq<char> {
    "to_send/"@ + host.ip@ + suffix
}

/// The host at position `index` is served where `control_only` is not set,
/// and else only if it is a control host.
pub open spec fn is_served(hosts: Seq<Host>, index: int, control_only: bool) -> bool {
    !control_only || hosts[index].spec_role() == Role::Control
}

/// One directory `suffix` for each served host among the first `n`.
pub open spec fn host_dirs(hosts: Seq<Host>, n: nat, suffix: Seq<char>, control_only: bool) -> Seq<
    StepView,
>
    decreases n,
{
    if n == 0 {
        Seq::empty()
    } else {
        let rest = host_dirs(hosts, (n - 1) as nat, suffix, control_only);
        if is_served(hosts, n - 1, control_only) {
            rest + seq![StepView::MakeDir { path: host_path(hosts[n - 1], suffix) }]
        } else {
            rest
        }
    }
}

/// One file `suffix` of the kind `kind` for each served host among the first
/// `n`.
pub open spec fn host_files(
    hosts: Seq<Host>,
    n: nat,
    suffix: Seq<char>,
    kind: HostFile,
    control_only: bool,
) -> Seq<StepView>
    decreases n,
{
    if n == 0 {
        Seq::empty()
    } else {
        let rest = host_files(hosts, (n - 1) as nat, suffix, kind, control_only);
        if is_served(hosts, n - 1, control_only) {
            rest + seq![
                StepView::Write {
                    path: host_path(hosts[n - 1], suffix),
                    artifact: kind.spec_artifact((n - 1) as usize),
                },
            ]
        } else {
            rest
        }
    }
}

fn host_file_path(host: &Host, suffix: &str) -> (r: String)
    ensures
        r@ == host_path(*host, suffix@),
{
    let mut path: String = owned("to_send/");
    path.append(host.ip.as_str());
    path.append(suffix);
    path
}

fn push_host_dirs(out: &mut Vec<LocalStep>, hosts: &Vec<Host>, suffix: &str, control_only: bool)
    ensures
        steps_view(final(out)@) == steps_view(old(out)@) + host_dirs(
            hosts@,
            hosts@.len(),
            suffix@,
            control_only,
        ),
{
    let ghost before = steps_view(out@);
    let n: usize = hosts.len();
    let mut i: usize = 0;
    proof {
        assert(steps_view(out@) =~= before + host_dirs(hosts@, 0, suffix@, control_only));
    }
    while i < n
        invariant
            n == hosts@.len(),
            i <= n,
            steps_view(out@) == before + host_dirs(hosts@, i as nat, suffix@, control_only),
        decreases n - i,
    {
        if !control_only || hosts[i].role() == Role::Control {
            push_step(out, LocalStep::MakeDir { path: host_file_path(&hosts[i], suffix) });
        }
        proof {
            assert(steps_view(out@) =~= before + host_dirs(
                hosts@,
                (i + 1) as nat,
                suffix@,
                control_only,
            ));
        }
        i = i + 1;
    }
}

fn push_host_files(
    out: &mut Vec<LocalStep>,
    hosts: &Vec<Host>,
    suffix: &str,
    kind: HostFile,
    control_only: bool,
)
    ensures
        steps_view(final(out)@) == steps_view(old(out)@) + host_files(
            hosts@,
            hosts@.len(),
            suffix@,
            kind,
            control_only,
        ),
{
    let ghost before = steps_view(out@);
    let n: usize = hosts.len();
    let mut i: usize = 0;
    proof {
        assert(steps_view(out@) =~= before + host_files(hosts@, 0, suffix@, kind, control_only));
    }
    while i < n
        invariant
            n == hosts@.len(),
            i <= n,
            steps_view(out@) == before + host_files(hosts@, i as nat, suffix@, kind, control_only),
        decreases n - i,
    {
        if !control_only || hosts[i].role() == Role::Control {
            push_step(
                out,
                LocalStep::Write {
                    path: host_file_path(&hosts[i], suffix),
                    artifact: kind.artifact(i),
                },
            );
        }
        proof {
            assert(steps_view(out@) =~= before + host_files(
                hosts@,
                (i + 1) as nat,
                suffix@,
                kind,
                control_only,
            ));
        }
        i = i + 1;
    }
}

/// What is prepared for the preflight check: the two files of kernel
/// settings.
pub open spec fn preflight_steps(hosts: Seq<Host>) -> Seq<StepView> {
    seq![StepView::MakeDir { path: "pre_check"@ }]
        + seq![
            StepView::Write {
                path: "k8s.conf"@,
                artifact: Artifact::Fixed(FixedFile::BridgeSysctl),
            },
        ]
        + seq![
            StepView::Write {
                path: "pre_check/k8s.conf"@,
                artifact: Artifact::Fixed(FixedFile::BridgeModule),
            },
        ]
}

fn preflight(hosts: &Vec<Host>) -> (r: Vec<LocalStep>)
    ensures
        steps_view(r@) == preflight_steps(hosts@),
{
    let mut out: Vec<LocalStep> = no_steps();
    push_step(&mut out, LocalStep::MakeDir { path: owned("pre_check") });
    proof {
        assert(steps_view(out@) =~= seq![StepView::MakeDir { path: "pre_check"@ }]);
    }
    push_step(
        &mut out,
        LocalStep::Write {
            path: owned("k8s.conf"),
            artifact: Artifact::Fixed(FixedFile::BridgeSysctl),
        },
    );
    push_step(
        &mut out,
        LocalStep::Write {
            path: owned("pre_check/k8s.conf"),
            artifact: Artifact::Fixed(FixedFile::BridgeModule),
        },
    );
    out
}

/// What is prepared for the storage tier: its own root and server
/// certificate, its programs, its service descriptor and each member's
/// environment file.
pub open spec fn storage_tier_steps(hosts: Seq<Host>) -> Seq<StepView> {
    seq![
        StepView::Write {
            path: "ca-config.json"@,
            artifact: Artifact::SigningPolicy(Tier::Storage),
        },
    ]
        + seq![
            StepView::Write {
                path: "ca-csr.json"@,
                artifact: Artifact::RootRequest(Tier::Storage),
            },
        ]
        + seq![StepView::IssueRoot]
        + seq![
            StepView::Write {
                path: "server-csr.json"@,
                artifact: Artifact::ServerRequest(Tier::Storage),
            },
        ]
        + seq![StepView::IssueLeaf { role: CertRole::StorageTier }]
        + seq![StepView::MakeDir { path: "to_send/etcd/cfg"@ }]
        + seq![StepView::MakeDir { path: "to_send/etcd/bin"@ }]
        + seq![StepView::MakeDir { path: "to_send/etcd/ssl"@ }]
        + host_dirs(hosts, hosts.len(), ""@, false)
        + seq![
            StepView::Run {
                program: "tar"@,
                arguments: seq!["-zxf"@, "/rk8s/preparation/etcd-v3.4.9-linux-amd64.tar.gz"@],
            },
        ]
        + seq![
            StepView::Run {
                program: "cp"@,
                arguments: seq![
                    "etcd-v3.4.9-linux-amd64/etcd"@,
                    "etcd-v3.4.9-linux-amd64/etcdctl"@,
                    "to_send/etcd/bin"@,
                ],
            },
        ]
        + seq![
            StepView::Run {
                program: "cp"@,
                arguments: seq![
                    "ca.pem"@,
                    "ca-key.pem"@,
                    "server-key.pem"@,
                    "server.pem"@,
                    "to_send/etcd/ssl"@,
                ],
            },
        ]
        + seq![
            StepView::Write {
                path: "to_send/etcd.service"@,
                artifact: Artifact::Fixed(FixedFile::EtcdUnit),
            },
        ]
        + host_files(hosts, hosts.len(), "/etcd.conf"@, HostFile::StorageConf, false)
}

fn storage_tier(hosts: &Vec<Host>) -> (r: Vec<LocalStep>)
    ensures
        steps_view(r@) == storage_tier_steps(hosts@),
{
    let mut out: Vec<LocalStep> = no_steps();
    push_step(
        &mut out,
        LocalStep::Write {
            path: owned("ca-config.json"),
            artifact: Artifact::SigningPolicy(Tier::Storage),
        },
    );
    proof {
        assert(steps_view(out@) =~= seq![
            StepView::Write {
                path: "ca-config.json"@,
                artifact: Artifact::SigningPolicy(Tier::Storage),
            },
        ]);
    }
    push_step(
        &mut out,
        LocalStep::Write {
            path: owned("ca-csr.json"),
            artifact: Artifact::RootRequest(Tier::Storage),
        },
    );
    push_step(&mut out, LocalStep::IssueRoot);
    push_step(
        &mut out,
        LocalStep::Write {
            path: owned("server-csr.json"),
            artifact: Artifact::ServerRequest(Tier::Storage),
        },
    );
    push_step(&mut out, LocalStep::IssueLeaf { role: CertRole::StorageTier });
    push_step(&mut out, LocalStep::MakeDir { path: owned("to_send/etcd/cfg") });
    push_step(&mut out, LocalStep::MakeDir { path: owned("to_send/etcd/bin") });
    push_step(&mut out, LocalStep::MakeDir { path: owned("to_send/etcd/ssl") });
    push_host_dirs(&mut out, hosts, "", false);
    let mut arguments: Vec<String> = no_arguments();
    push_argument(&mut arguments, owned("-zxf"));
    push_argument(&mut arguments, owned("/rk8s/preparation/etcd-v3.4.9-linux-amd64.tar.gz"));
    proof {
        assert(views(arguments@) =~= seq![
            "-zxf"@,
            "/rk8s/preparation/etcd-v3.4.9-linux-amd64.tar.gz"@,
        ]);
    }
    push_step(&mut out, LocalStep::Run { program: owned("tar"), arguments: arguments });
    let mut arguments: Vec<String> = no_arguments();
    push_argument(&mut arguments, owned("etcd-v3.4.9-linux-amd64/etcd"));
    push_argument(&mut arguments, owned("etcd-v3.4.9-linux-amd64/etcdctl"));
    push_argument(&mut arguments, owned("to_send/etcd/bin"));
    proof {
        assert(views(arguments@) =~= seq![
            "etcd-v3.4.9-linux-amd64/etcd"@,
            "etcd-v3.4.9-linux-amd64/etcdctl"@,
            "to_send/etcd/bin"@,
        ]);
    }
    push_step(&mut out, LocalStep::Run { program: owned("cp"), arguments: arguments });
    let mut arguments: Vec<String> = no_arguments();
    push_argument(&mut arguments, owned("ca.pem"));
    push_argument(&mut arguments, owned("ca-key.pem"));
    push_argument(&mut arguments, owned("server-key.pem"));
    push_argument(&mut arguments, owned("server.pem"));
    push_argument(&mut arguments, owned("to_send/etcd/ssl"));
    proof {
        assert(views(arguments@) =~= seq![
            "ca.pem"@,
            "ca-key.pem"@,
            "server-key.pem"@,
            "server.pem"@,
            "to_send/etcd/ssl"@,
        ]);
    }
    push_step(&mut out, LocalStep::Run { program: owned("cp"), arguments: arguments });
    push_step(
        &mut out,
        LocalStep::Write {
            path: owned("to_send/etcd.service"),
            artifact: Artifact::Fixed(FixedFile::EtcdUnit),
        },
    );
    push_host_files(&mut out, hosts, "/etcd.conf", HostFile::StorageConf, false);
    out
}

/// What is prepared for the container runtime: its programs, its service
/// descriptor and its settings.
pub open spec fn container_runtime_steps(hosts: Seq<Host>) -> Seq<StepView> {
    seq![StepView::MakeDir { path: "to_send/"@ }]
        + seq![
            StepView::Run {
                program: "tar"@,
                arguments: seq!["-zxf"@, "/rk8s/preparation/docker-20.10.9.tgz"@],
            },
        ]
        + seq![
            StepView::Write {
                path: "to_send/docker.service"@,
                artifact: Artifact::Fixed(FixedFile::DockerUnit),
            },
        ]
        + seq![
            StepView::Write {
                path: "to_send/daemon.json"@,
                artifact: Artifact::Fixed(FixedFile::DockerDaemon),
            },
        ]
}

fn container_runtime(hosts: &Vec<Host>) -> (r: Vec<LocalStep>)
    ensures
        steps_view(r@) == container_runtime_steps(hosts@),
{
    let mut out: Vec<LocalStep> = no_steps();
    push_step(&mut out, LocalStep::MakeDir { path: owned("to_send/") });
    proof {
        assert(steps_view(out@) =~= seq![StepView::MakeDir { path: "to_send/"@ }]);
    }
    let mut arguments: Vec<String> = no_arguments();
    push_argument(&mut arguments, owned("-zxf"));
    push_argument(&mut arguments, owned("/rk8s/preparation/docker-20.10.9.tgz"));
    proof {
        assert(views(arguments@) =~= seq!["-zxf"@, "/rk8s/preparation/docker-20.10.9.tgz"@]);
    }
    push_step(&mut out, LocalStep::Run { program: owned("tar"), arguments: arguments });
    push_step(
        &mut out,
        LocalStep::Write {
            path: owned("to_send/docker.service"),
            artifact: Artifact::Fixed(FixedFile::DockerUnit),
        },
    );
    push_step(
        &mut out,
        LocalStep::Write {
            path: owned("to_send/daemon.json"),
            artifact: Artifact::Fixed(FixedFile::DockerDaemon),
        },
    );
    out
}

/// What is prepared for the API server: the programs of the cluster software,
/// a directory for each host's files, the control plane's root and server
/// certificate, the token file, the service descriptor and each control
/// host's environment file.
pub open spec fn control_plane_api_steps(hosts: Seq<Host>) -> Seq<StepView> {
    seq![StepView::MakeDir { path: "to_send/kubernetes/cfg"@ }]
        + seq![StepView::MakeDir { path: "to_send/kubernetes/bin"@ }]
        + seq![StepView::MakeDir { path: "to_send/kubernetes/ssl"@ }]
        + seq![StepView::MakeDir { path: "to_send/kubernetes/logs"@ }]
        + seq![
            StepView::Run {
                program: "tar"@,
                arguments: seq!["-zxf"@, "/rk8s/preparation/kubernetes-server-linux-amd64.tar.gz"@],
            },
        ]
        + seq![
            StepView::Run {
                program: "cp"@,
                arguments: seq![
                    "kubernetes/server/bin/kube-apiserver"@,
                    "kubernetes/server/bin/kube-controller-manager"@,
                    "kubernetes/server/bin/kube-scheduler"@,
                    "kubernetes/server/bin/kubectl"@,
                    "kubernetes/server/bin/kubelet"@,
                    "kubernetes/server/bin/kube-proxy"@,
                    "to_send/"@,
                ],
            },
        ]
        + host_dirs(hosts, hosts.len(), "/apiserver"@, true)
        + host_dirs(hosts, hosts.len(), "/controller_manager"@, true)
        + host_dirs(hosts, hosts.len(), "/scheduler"@, true)
        + host_dirs(hosts, hosts.len(), "/kubelet"@, false)
        + host_dirs(hosts, hosts.len(), "/kube_proxy"@, false)
        + seq![
            StepView::Write {
                path: "ca-config.json"@,
                artifact: Artifact::SigningPolicy(Tier::ControlPlane),
            },
        ]
        + seq![
            StepView::Write {
                path: "ca-csr.json"@,
                artifact: Artifact::RootRequest(Tier::ControlPlane),
            },
        ]
        + seq![StepView::IssueRoot]
        + seq![
            StepView::Write {
                path: "server-csr.json"@,
                artifact: Artifact::ServerRequest(Tier::ControlPlane),
            },
        ]
        + seq![StepView::IssueLeaf { role: CertRole::ControlPlaneApi }]
        + seq![
            StepView::Write {
                path: "to_send/token.csv"@,
                artifact: Artifact::Fixed(FixedFile::Token),
            },
        ]
        + seq![
            StepView::Write {
                path: "to_send/kube-apiserver.service"@,
                artifact: Artifact::Fixed(FixedFile::ApiServerUnit),
            },
        ]
        + host_files(
            hosts,
            hosts.len(),
            "/apiserver/kube-apiserver.conf"@,
            HostFile::ApiServerConf,
            true,
        )
}

fn control_plane_api(hosts: &Vec<Host>) -> (r: Vec<LocalStep>)
    ensures
        steps_view(r@) == control_plane_api_steps(hosts@),
{
    let mut out: Vec<LocalStep> = no_steps();
    push_step(&mut out, LocalStep::MakeDir { path: owned("to_send/kubernetes/cfg") });
    proof {
        assert(steps_view(out@) =~= seq![StepView::MakeDir { path: "to_send/kubernetes/cfg"@ }]);
    }
    push_step(&mut out, LocalStep::MakeDir { path: owned("to_send/kubernetes/bin") });
    push_step(&mut out, LocalStep::MakeDir { path: owned("to_send/kubernetes/ssl") });
    push_step(&mut out, LocalStep::MakeDir { path: owned("to_send/kubernetes/logs") });
    let mut arguments: Vec<String> = no_arguments();
    push_argument(&mut arguments, owned("-zxf"));
    push_argument(&mut arguments, owned("/rk8s/preparation/kubernetes-server-linux-amd64.tar.gz"));
    proof {
        assert(views(arguments@) =~= seq![
            "-zxf"@,
            "/rk8s/preparation/kubernetes-server-linux-amd64.tar.gz"@,
        ]);
    }
    push_step(&mut out, LocalStep::Run { program: owned("tar"), arguments: arguments });
    let mut arguments: Vec<String> = no_arguments();
    push_argument(&mut arguments, owned("kubernetes/server/bin/kube-apiserver"));
    push_argument(&mut arguments, owned("kubernetes/server/bin/kube-controller-manager"));
    push_argument(&mut arguments, owned("kubernetes/server/bin/kube-scheduler"));
    push_argument(&mut arguments, owned("kubernetes/server/bin/kubectl"));
    push_argument(&mut arguments, owned("kubernetes/server/bin/kubelet"));
    push_argument(&mut arguments, owned("kubernetes/server/bin/kube-proxy"));
    push_argument(&mut arguments, owned("to_send/"));
    proof {
        assert(views(arguments@) =~= seq![
            "kubernetes/server/bin/kube-apiserver"@,
            "kubernetes/server/bin/kube-controller-manager"@,
            "kubernetes/server/bin/kube-scheduler"@,
            "kubernetes/server/bin/kubectl"@,
            "kubernetes/server/bin/kubelet"@,
            "kubernetes/server/bin/kube-proxy"@,
            "to_send/"@,
        ]);
    }
    push_step(&mut out, LocalStep::Run { program: owned("cp"), arguments: arguments });
    push_host_dirs(&mut out, hosts, "/apiserver", true);
    push_host_dirs(&mut out, hosts, "/controller_manager", true);
    push_host_dirs(&mut out, hosts, "/scheduler", true);
    push_host_dirs(&mut out, hosts, "/kubelet", false);
    push_host_dirs(&mut out, hosts, "/kube_proxy", false);
    push_step(
        &mut out,
        LocalStep::Write {
            path: owned("ca-config.json"),
            artifact: Artifact::SigningPolicy(Tier::ControlPlane),
        },
    );
    push_step(
        &mut out,
        LocalStep::Write {
            path: owned("ca-csr.json"),
            artifact: Artifact::RootRequest(Tier::ControlPlane),
        },
    );
    push_step(&mut out, LocalStep::IssueRoot);
    push_step(
        &mut out,
        LocalStep::Write {
            path: owned("server-csr.json"),
            artifact: Artifact::ServerRequest(Tier::ControlPlane),
        },
    );
    push_step(&mut out, LocalStep::IssueLeaf { role: CertRole::ControlPlaneApi });
    push_step(
        &mut out,
        LocalStep::Write {
            path: owned("to_send/token.csv"),
            artifact: Artifact::Fixed(FixedFile::Token),
        },
    );
    push_step(
        &mut out,
        LocalStep::Write {
            path: owned("to_send/kube-apiserver.service"),
            artifact: Artifact::Fixed(FixedFile::ApiServerUnit),
        },
    );
    push_host_files(
        &mut out,
        hosts,
        "/apiserver/kube-apiserver.conf",
        HostFile::ApiServerConf,
        true,
    );
    out
}

/// What is prepared for the controller manager: its client certificate, its
/// environment file and its service descriptor.
pub open spec fn controller_manager_steps(hosts: Seq<Host>) -> Seq<StepView> {
    seq![
        StepView::Write {
            path: "kube-controller-manager-csr.json"@,
            artifact: Artifact::ClientRequest(CertRole::ControllerManager),
        },
    ]
        + seq![StepView::IssueLeaf { role: CertRole::ControllerManager }]
        + seq![
            StepView::Write {
                path: "to_send/kube-controller-manager.conf"@,
                artifact: Artifact::Fixed(FixedFile::ControllerManagerConf),
            },
        ]
        + seq![
            StepView::Write {
                path: "to_send/kube-controller-manager.service"@,
                artifact: Artifact::Fixed(FixedFile::ControllerManagerUnit),
            },
        ]
}

fn controller_manager(hosts: &Vec<Host>) -> (r: Vec<LocalStep>)
    ensures
        steps_view(r@) == controller_manager_steps(hosts@),
{
    let mut out: Vec<LocalStep> = no_steps();
    push_step(
        &mut out,
        LocalStep::Write {
            path: owned("kube-controller-manager-csr.json"),
            artifact: Artifact::ClientRequest(CertRole::ControllerManager),
        },
    );
    proof {
        assert(steps_view(out@) =~= seq![
            StepView::Write {
                path: "kube-controller-manager-csr.json"@,
                artifact: Artifact::ClientRequest(CertRole::ControllerManager),
            },
        ]);
    }
    push_step(&mut out, LocalStep::IssueLeaf { role: CertRole::ControllerManager });
    push_step(
        &mut out,
        LocalStep::Write {
            path: owned("to_send/kube-controller-manager.conf"),
            artifact: Artifact::Fixed(FixedFile::ControllerManagerConf),
        },
    );
    push_step(
        &mut out,
        LocalStep::Write {
            path: owned("to_send/kube-controller-manager.service"),
            artifact: Artifact::Fixed(FixedFile::ControllerManagerUnit),
        },
    );
    out
}

/// What is prepared for the scheduler: its client certificate, its
/// environment file and its service descriptor.
pub open spec fn scheduler_steps(hosts: Seq<Host>) -> Seq<StepView> {
    seq![
        StepView::Write {
            path: "kube-scheduler-csr.json"@,
            artifact: Artifact::ClientRequest(CertRole::Scheduler),
        },
    ]
        + seq![StepView::IssueLeaf { role: CertRole::Scheduler }]
        + seq![
            StepView::Write {
                path: "to_send/kube-scheduler.conf"@,
                artifact: Artifact::Fixed(FixedFile::SchedulerConf),
            },
        ]
        + seq![
            StepView::Write {
                path: "to_send/kube-scheduler.service"@,
                artifact: Artifact::Fixed(FixedFile::SchedulerUnit),
            },
        ]
}

fn scheduler(hosts: &Vec<Host>) -> (r: Vec<LocalStep>)
    ensures
        steps_view(r@) == scheduler_steps(hosts@),
{
    let mut out: Vec<LocalStep> = no_steps();
    push_step(
        &mut out,
        LocalStep::Write {
            path: owned("kube-scheduler-csr.json"),
            artifact: Artifact::ClientRequest(CertRole::Scheduler),
        },
    );
    proof {
        assert(steps_view(out@) =~= seq![
            StepView::Write {
                path: "kube-scheduler-csr.json"@,
                artifact: Artifact::ClientRequest(CertRole::Scheduler),
            },
        ]);
    }
    push_step(&mut out, LocalStep::IssueLeaf { role: CertRole::Scheduler });
    push_step(
        &mut out,
        LocalStep::Write {
            path: owned("to_send/kube-scheduler.conf"),
            artifact: Artifact::Fixed(FixedFile::SchedulerConf),
        },
    );
    push_step(
        &mut out,
        LocalStep::Write {
            path: owned("to_send/kube-scheduler.service"),
            artifact: Artifact::Fixed(FixedFile::SchedulerUnit),
        },
    );
    out
}

/// What is prepared for the administrative credential: the administrator's
/// client certificate.
pub open spec fn admin_credential_steps(hosts: Seq<Host>) -> Seq<StepView> {
    seq![
        StepView::Write {
            path: "admin-csr.json"@,
            artifact: Artifact::ClientRequest(CertRole::AdminCredential),
        },
    ]
        + seq![StepView::IssueLeaf { role: CertRole::AdminCredential }]
}

fn admin_credential(hosts: &Vec<Host>) -> (r: Vec<LocalStep>)
    ensures
        steps_view(r@) == admin_credential_steps(hosts@),
{
    let mut out: Vec<LocalStep> = no_steps();
    push_step(
        &mut out,
        LocalStep::Write {
            path: owned("admin-csr.json"),
            artifact: Artifact::ClientRequest(CertRole::AdminCredential),
        },
    );
    proof {
        assert(steps_view(out@) =~= seq![
            StepView::Write {
                path: "admin-csr.json"@,
                artifact: Artifact::ClientRequest(CertRole::AdminCredential),
            },
        ]);
    }
    push_step(&mut out, LocalStep::IssueLeaf { role: CertRole::AdminCredential });
    out
}

/// What is prepared for the node agent: its settings, its service descriptor
/// and each host's environment file.
pub open spec fn node_agent_steps(hosts: Seq<Host>) -> Seq<StepView> {
    seq![
        StepView::Write {
            path: "to_send/kubelet-config.yml"@,
            artifact: Artifact::Fixed(FixedFile::NodeAgentSettings),
        },
    ]
        + seq![
            StepView::Write {
                path: "to_send/kubelet.service"@,
                artifact: Artifact::Fixed(FixedFile::NodeAgentUnit),
            },
        ]
        + host_files(hosts, hosts.len(), "/kubelet/kubelet.conf"@, HostFile::NodeAgentConf, false)
}

fn node_agent(hosts: &Vec<Host>) -> (r: Vec<LocalStep>)
    ensures
        steps_view(r@) == node_agent_steps(hosts@),
{
    let mut out: Vec<LocalStep> = no_steps();
    push_step(
        &mut out,
        LocalStep::Write {
            path: owned("to_send/kubelet-config.yml"),
            artifact: Artifact::Fixed(FixedFile::NodeAgentSettings),
        },
    );
    proof {
        assert(steps_view(out@) =~= seq![
            StepView::Write {
                path: "to_send/kubelet-config.yml"@,
                artifact: Artifact::Fixed(FixedFile::NodeAgentSettings),
            },
        ]);
    }
    push_step(
        &mut out,
        LocalStep::Write {
            path: owned("to_send/kubelet.service"),
            artifact: Artifact::Fixed(FixedFile::NodeAgentUnit),
        },
    );
    push_host_files(&mut out, hosts, "/kubelet/kubelet.conf", HostFile::NodeAgentConf, false);
    out
}

/// What is prepared for the service proxy: its client certificate, its
/// environment file, its service descriptor and each host's settings.
pub open spec fn service_proxy_steps(hosts: Seq<Host>) -> Seq<StepView> {
    seq![
        StepView::Write {
            path: "kube-proxy-csr.json"@,
            artifact: Artifact::ClientRequest(CertRole::ServiceProxy),
        },
    ]
        + seq![StepView::IssueLeaf { role: CertRole::ServiceProxy }]
        + seq![
            StepView::Write {
                path: "to_send/kube-proxy.conf"@,
                artifact: Artifact::Fixed(FixedFile::ProxyConf),
            },
        ]
        + seq![
            StepView::Write {
                path: "to_send/kube-proxy.service"@,
                artifact: Artifact::Fixed(FixedFile::ProxyUnit),
            },
        ]
        + host_files(
            hosts,
            hosts.len(),
            "/kube_proxy/kube-proxy-config.yml"@,
            HostFile::ProxySettings,
            false,
        )
}

fn service_proxy(hosts: &Vec<Host>) -> (r: Vec<LocalStep>)
    ensures
        steps_view(r@) == service_proxy_steps(hosts@),
{
    let mut out: Vec<LocalStep> = no_steps();
    push_step(
        &mut out,
        LocalStep::Write {
            path: owned("kube-proxy-csr.json"),
            artifact: Artifact::ClientRequest(CertRole::ServiceProxy),
        },
    );
    proof {
        assert(steps_view(out@) =~= seq![
            StepView::Write {
                path: "kube-proxy-csr.json"@,
                artifact: Artifact::ClientRequest(CertRole::ServiceProxy),
            },
        ]);
    }
    push_step(&mut out, LocalStep::IssueLeaf { role: CertRole::ServiceProxy });
    push_step(
        &mut out,
        LocalStep::Write {
            path: owned("to_send/kube-proxy.conf"),
            artifact: Artifact::Fixed(FixedFile::ProxyConf),
        },
    );
    push_step(
        &mut out,
        LocalStep::Write {
            path: owned("to_send/kube-proxy.service"),
            artifact: Artifact::Fixed(FixedFile::ProxyUnit),
        },
    );
    push_host_files(
        &mut out,
        hosts,
        "/kube_proxy/kube-proxy-config.yml",
        HostFile::ProxySettings,
        false,
    );
    out
}

/// The directory in which the files of `phase` are prepared.
pub open spec fn spec_work_dir(phase: Phase) -> Seq<char> {
    match phase {
        Phase::PreflightCheck => "/rk8s"@,
        Phase::StorageTier => "/rk8s/etcd"@,
        Phase::ContainerRuntime => "/rk8s/docker"@,
        Phase::ControlPlaneApi => "/rk8s/k8s"@,
        Phase::ControllerManager => "/rk8s/k8s"@,
        Phase::Scheduler => "/rk8s/k8s"@,
        Phase::AdminCredential => "/rk8s/k8s"@,
        Phase::NodeAgent => "/rk8s/k8s"@,
        Phase::ServiceProxy => "/rk8s/k8s"@,
    }
}

/// The directory in which the files of `phase` are prepared; the paths of
/// its steps are meant from there.
pub fn work_dir(phase: Phase) -> (r: &'static str)
    ensures
        r@ == spec_work_dir(phase),
{
    match phase {
        Phase::PreflightCheck => "/rk8s",
        Phase::StorageTier => "/rk8s/etcd",
        Phase::ContainerRuntime => "/rk8s/docker",
        Phase::ControlPlaneApi => "/rk8s/k8s",
        Phase::ControllerManager => "/rk8s/k8s",
        Phase::Scheduler => "/rk8s/k8s",
        Phase::AdminCredential => "/rk8s/k8s",
        Phase::NodeAgent => "/rk8s/k8s",
        Phase::ServiceProxy => "/rk8s/k8s",
    }
}

/// What the driving machine prepares for `phase`, in order.
pub open spec fn local_steps_spec(phase: Phase, hosts: Seq<Host>) -> Seq<StepView> {
    match phase {
        Phase::PreflightCheck => preflight_steps(hosts),
        Phase::StorageTier => storage_tier_steps(hosts),
        Phase::ContainerRuntime => container_runtime_steps(hosts),
        Phase::ControlPlaneApi => control_plane_api_steps(hosts),
        Phase::ControllerManager => controller_manager_steps(hosts),
        Phase::Scheduler => scheduler_steps(hosts),
        Phase::AdminCredential => admin_credential_steps(hosts),
        Phase::NodeAgent => node_agent_steps(hosts),
        Phase::ServiceProxy => service_proxy_steps(hosts),
    }
}

/// What the driving machine prepares before `phase` is fanned out over the
/// cluster `hosts`: the certificates it has issued, the files it writes and
/// the programs it unpacks.
pub fn local_steps(phase: Phase, hosts: &Vec<Host>) -> (r: Vec<LocalStep>)
    ensures
        steps_view(r@) == local_steps_spec(phase, hosts@),
{
    match phase {
        Phase::PreflightCheck => preflight(hosts),
        Phase::StorageTier => storage_tier(hosts),
        Phase::ContainerRuntime => container_runtime(hosts),
        Phase::ControlPlaneApi => control_plane_api(hosts),
        Phase::ControllerManager => controller_manager(hosts),
        Phase::Scheduler => scheduler(hosts),
        Phase::AdminCredential => admin_credential(hosts),
        Phase::NodeAgent => node_agent(hosts),
        Phase::ServiceProxy => service_proxy(hosts),
    }
}

/// The phase in which the leaf certificate of `role` is issued.
pub open spec fn issuing_phase(role: CertRole) -> Phase {
    match role {
        CertRole::StorageTier => Phase::StorageTier,
        CertRole::ControlPlaneApi => Phase::ControlPlaneApi,
        CertRole::ControllerManager => Phase::ControllerManager,
        CertRole::Scheduler => Phase::Scheduler,
        CertRole::AdminCredential => Phase::AdminCredential,
        CertRole::ServiceProxy => Phase::ServiceProxy,
    }
}

proof fn host_steps_issue_nothing(
    hosts: Seq<Host>,
    n: nat,
    suffix: Seq<char>,
    kind: HostFile,
    control_only: bool,
)
    ensures
        forall|j: int|
            0 <= j < host_dirs(hosts, n, suffix, control_only).len() ==> (#[trigger] host_dirs(
                hosts,
                n,
                suffix,
                control_only,
            )[j]) is MakeDir,
        forall|j: int|
            0 <= j < host_files(hosts, n, suffix, kind, control_only).len() ==> (
            #[trigger] host_files(hosts, n, suffix, kind, control_only)[j]) is Write,
    decreases n,
{
    if n > 0 {
        host_steps_issue_nothing(hosts, (n - 1) as nat, suffix, kind, control_only);
    }
}

/// The leaf certificate of a role is issued in one phase only. With each
/// phase started at most once, no certificate is issued twice in a run.
pub proof fn leaf_is_issued_in_one_phase(phase: Phase, hosts: Seq<Host>, role: CertRole, i: int)
    requires
        0 <= i < local_steps_spec(phase, hosts).len(),
        local_steps_spec(phase, hosts)[i] == (StepView::IssueLeaf { role }),
    ensures
        phase == issuing_phase(role),
{
    let n = hosts.len();
    host_steps_issue_nothing(hosts, n, ""@, HostFile::StorageConf, false);
    host_steps_issue_nothing(hosts, n, "/etcd.conf"@, HostFile::StorageConf, false);
    host_steps_issue_nothing(hosts, n, "/apiserver"@, HostFile::ApiServerConf, true);
    host_steps_issue_nothing(hosts, n, "/controller_manager"@, HostFile::ApiServerConf, true);
    host_steps_issue_nothing(hosts, n, "/scheduler"@, HostFile::ApiServerConf, true);
    host_steps_issue_nothing(hosts, n, "/kubelet"@, HostFile::ApiServerConf, false);
    host_steps_issue_nothing(hosts, n, "/kube_proxy"@, HostFile::ApiServerConf, false);
    host_steps_issue_nothing(
        hosts,
        n,
        "/apiserver/kube-apiserver.conf"@,
        HostFile::ApiServerConf,
        true,
    );
    host_steps_issue_nothing(hosts, n, "/kubelet/kubelet.conf"@, HostFile::NodeAgentConf, false);
    host_steps_issue_nothing(
        hosts,
        n,
        "/kube_proxy/kube-proxy-config.yml"@,
        HostFile::ProxySettings,
        false,
    );
}

/// The text of a file that is rendered from the topology or has fixed text;
/// nothing for a certificate document and for a host that is not listed.
pub open spec fn rendered_text(artifact: Artifact, config: Config) -> Option<Seq<char>> {
    let hosts = config.instance_hosts@;
    match artifact {
        Artifact::StorageConf(i) => if i < hosts.len() {
            Some(etcd_conf(hosts[i as int].ip@, hosts[i as int].name@, initial_cluster_spec(hosts)))
        } else {
            None
        },
        Artifact::ApiServerConf(i) => if i < hosts.len() {
            Some(apiserver_conf(hosts[i as int].ip@, etcd_servers_spec(hosts)))
        } else {
            None
        },
        Artifact::NodeAgentConf(i) => if i < hosts.len() {
            Some(kubelet_conf(hosts[i as int].name@))
        } else {
            None
        },
        Artifact::ProxySettings(i) => if i < hosts.len() {
            Some(proxy_config(hosts[i as int].name@))
        } else {
            None
        },
        Artifact::Fixed(file) => Some(file.spec_text()),
        _ => None,
    }
}

/// The text of `artifact` where it is text that this library renders. The
/// certificate documents are left to the caller, who writes them from the
/// requests of the certificate engine.
pub fn render(artifact: Artifact, config: &Config) -> (r: Option<String>)
    ensures
        match r {
            Some(text) => rendered_text(artifact, *config) == Some(text@),
            None => rendered_text(artifact, *config) is None,
        },
{
    let n: usize = config.instance_hosts.len();
    match artifact {
        Artifact::StorageConf(i) => if i < n {
            Some(
                ETCDCfg::generate(
                    config.instance_hosts[i].ip.as_str(),
                    config.instance_hosts[i].name.as_str(),
                    config,
                ),
            )
        } else {
            None
        },
        Artifact::ApiServerConf(i) => if i < n {
            Some(KubeApiserverCfg::generate(config.instance_hosts[i].ip.as_str(), config))
        } else {
            None
        },
        Artifact::NodeAgentConf(i) => if i < n {
            Some(KubeletCfg::generate(config.instance_hosts[i].name.as_str()))
        } else {
            None
        },
        Artifact::ProxySettings(i) => if i < n {
            Some(KubeProxyConfig::generate(config.instance_hosts[i].name.as_str()))
        } else {
            None
        },
        Artifact::Fixed(file) => Some(owned(file.text())),
        _ => None,
    }
}

} // verus!
