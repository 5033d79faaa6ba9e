//! The remote execution plan: what each phase asks of each host, as a list
//! of calls on the gateway.

use vstd::prelude::*;
use vstd::string::*;
use crate::config::{Host, Role};
use crate::fanout::{select_hosts, selected_hosts, selected_hosts_apply};
use crate::gateway::{calls_view, copy_to, exec_on, CallView, GatewayCall};
use crate::orchestrator::Phase;
use crate::render::{concat_all, hosts_lines, hosts_table};
use crate::text::{owned, views};

verus! {

fn push_exec(out: &mut Vec<GatewayCall>, host: &str, command: String)
    ensures
        calls_view(final(out)@) == calls_view(old(out)@) + seq![exec_on(host@, command@)],
{
    out.push(GatewayCall::Exec { host: owned(host), command });
    proof {
        assert(calls_view(out@) =~= calls_view(old(out)@) + seq![exec_on(host@, command@)]);
    }
}

fn push_copy(
    out: &mut Vec<GatewayCall>,
    host: &str,
    sources: Vec<String>,
    destination: &str,
    recursive: bool,
)
    ensures
        calls_view(final(out)@) == calls_view(old(out)@) + seq![
            copy_to(host@, views(sources@), destination@, recursive),
        ],
{
    out.push(
        GatewayCall::Copy { sources, host: owned(host), destination: owned(destination), recursive },
    );
    proof {
        assert(calls_view(out@) =~= calls_view(old(out)@) + seq![
            copy_to(host@, views(sources@), destination@, recursive),
        ]);
    }
}

fn no_paths() -> (r: Vec<String>)
    ensures
        views(r@) == Seq::<Seq<char>>::empty(),
{
    let r: Vec<String> = Vec::new();
    proof {
        assert(views(r@) =~= Seq::<Seq<char>>::empty());
    }
    r
}

fn push_path(paths: &mut Vec<String>, path: String)
    ensures
        views(final(paths)@) == views(old(paths)@).push(path@),
{
    paths.push(path);
    proof {
        assert(views(paths@) =~= views(old(paths)@).push(path@));
    }
}

fn no_calls() -> (r: Vec<GatewayCall>)
    ensures
        calls_view(r@) == Seq::<CallView>::empty(),
{
    let r: Vec<GatewayCall> = Vec::new();
    proof {
        assert(calls_view(r@) =~= Seq::<CallView>::empty());
    }
    r
}

/// The three commands that make the service manager take up `service` on
/// `host`: reload, start, enable.
pub open spec fn activation(host: Seq<char>, service: Seq<char>) -> Seq<CallView> {
    seq![
        exec_on(host, "systemctl daemon-reload"@),
        exec_on(host, "systemctl start "@ + service),
        exec_on(host, "systemctl enable "@ + service),
    ]
}

fn push_activation(out: &mut Vec<GatewayCall>, host: &str, service: &str)
    ensures
        calls_view(final(out)@) == calls_view(old(out)@) + activation(host@, service@),
{
    let ghost before = calls_view(out@);
    push_exec(out, host, owned("systemctl daemon-reload"));
    let mut start: String = owned("systemctl start ");
    start.append(service);
    push_exec(out, host, start);
    let mut enable: String = owned("systemctl enable ");
    enable.append(service);
    push_exec(out, host, enable);
    proof {
        assert(calls_view(out@) =~= before + activation(host@, service@));
    }
}

/// The four commands that write client settings into the file `path` on
/// `host`: the cluster and its API server at `server`, the credentials of
/// `user`, a context that joins the two, and the choice of that context.
pub open spec fn kubeconfig(
    host: Seq<char>,
    server: Seq<char>,
    user: Seq<char>,
    credentials: Seq<char>,
    path: Seq<char>,
) -> Seq<CallView> {
    seq![
        exec_on(
            host,
            "kubectl config set-cluster kubernetes --certificate-authority=/opt/kubernetes/ssl/ca.pem --embed-certs=true --server=https://"@
                + server + ":6443 --kubeconfig="@ + path,
        ),
        exec_on(
            host,
            "kubectl config set-credentials "@ + user + " "@ + credentials + " --kubeconfig="@
                + path,
        ),
        exec_on(
            host,
            "kubectl config set-context default --cluster=kubernetes --user="@ + user
                + " --kubeconfig="@ + path,
        ),
        exec_on(host, "kubectl config use-context default --kubeconfig="@ + path),
    ]
}

fn push_kubeconfig(
    out: &mut Vec<GatewayCall>,
    host: &str,
    server: &str,
    user: &str,
    credentials: &str,
    path: &str,
)
    ensures
        calls_view(final(out)@) == calls_view(old(out)@) + kubeconfig(
            host@,
            server@,
            user@,
            credentials@,
            path@,
        ),
{
    let ghost before = calls_view(out@);
    let mut cluster: String = owned(
        "kubectl config set-cluster kubernetes --certificate-authority=/opt/kubernetes/ssl/ca.pem --embed-certs=true --server=https://",
    );
    cluster.append(server);
    cluster.append(":6443 --kubeconfig=");
    cluster.append(path);
    push_exec(out, host, cluster);
    let mut login: String = owned("kubectl config set-credentials ");
    login.append(user);
    login.append(" ");
    login.append(credentials);
    login.append(" --kubeconfig=");
    login.append(path);
    push_exec(out, host, login);
    let mut context: String = owned(
        "kubectl config set-context default --cluster=kubernetes --user=",
    );
    context.append(user);
    context.append(" --kubeconfig=");
    context.append(path);
    push_exec(out, host, context);
    let mut choice: String = owned("kubectl config use-context default --kubeconfig=");
    choice.append(path);
    push_exec(out, host, choice);
    proof {
        assert(calls_view(out@) =~= before + kubeconfig(
            host@,
            server@,
            user@,
            credentials@,
            path@,
        ));
    }
}

/// The position of the first control host at or after position `i`.
pub open spec fn first_control_from(hosts: Seq<Host>, i: int) -> Option<int>
    decreases hosts.len() - i,
{
    if i < 0 || i >= hosts.len() {
        None
    } else if hosts[i].spec_role() == Role::Control {
        Some(i)
    } else {
        first_control_from(hosts, i + 1)
    }
}

/// The address at which `host` reaches the API server: its own if it is a
/// control host, else that of the first control host. A worker in a cluster
/// without control hosts is pointed at itself.
pub open spec fn api_server_ip(hosts: Seq<Host>, host: Host) -> Seq<char> {
    if host.spec_role() == Role::Control {
        host.ip@
    } else {
        match first_control_from(hosts, 0) {
            Some(i) => hosts[i].ip@,
            None => host.ip@,
        }
    }
}

/// The address at which `host` reaches the API server.
pub fn api_server(hosts: &Vec<Host>, host: &Host) -> (r: String)
    ensures
        r@ == api_server_ip(hosts@, *host),
{
    if host.role() == Role::Control {
        return host.ip.clone();
    }
    let n: usize = hosts.len();
    let mut i: usize = 0;
    while i < n
        invariant
            n == hosts@.len(),
            i <= n,
            host.spec_role() != Role::Control,
            first_control_from(hosts@, 0) == first_control_from(hosts@, i as int),
        decreases n - i,
    {
        if hosts[i].role() == Role::Control {
            return hosts[i].ip.clone();
        }
        i = i + 1;
    }
    host.ip.clone()
}

/// The position of the first control host, if there is one.
pub fn first_control_host(hosts: &Vec<Host>) -> (r: Option<usize>)
    ensures
        match r {
            Some(i) => first_control_from(hosts@, 0) == Some(i as int),
            None => first_control_from(hosts@, 0) is None,
        },
{
    let n: usize = hosts.len();
    let mut i: usize = 0;
    while i < n
        invariant
            n == hosts@.len(),
            i <= n,
            first_control_from(hosts@, 0) == first_control_from(hosts@, i as int),
        decreases n - i,
    {
        if hosts[i].role() == Role::Control {
            return Some(i);
        }
        i = i + 1;
    }
    None
}

/// The call that lists the pending join requests on the control host at
/// `host`.
pub fn list_join_requests(host: &str) -> (r: GatewayCall)
    ensures
        r@ == exec_on(host@, "kubectl get csr"@),
{
    GatewayCall::Exec { host: owned(host), command: owned("kubectl get csr") }
}

/// The call that approves the join request `name` on the control host at
/// `host`.
pub fn approve_join_request(host: &str, name: &str) -> (r: GatewayCall)
    ensures
        r@ == exec_on(host@, "kubectl certificate approve "@ + name@),
{
    let mut command: String = owned("kubectl certificate approve ");
    command.append(name);
    GatewayCall::Exec { host: owned(host), command }
}

/// What is asked of one host for the preflight check: the firewall and swap
/// are switched off, the host is named, the table of host names and the
/// kernel settings are put in place.
pub open spec fn preflight_calls(host: Host, hosts: Seq<Host>) -> Seq<CallView> {
    seq![exec_on(host.ip@, "systemctl stop firewalld"@)]
        + seq![exec_on(host.ip@, "systemctl disable firewalld"@)]
        + seq![exec_on(host.ip@, "sed -i s/enforcing/disabled/ /etc/selinux/config"@)]
        + seq![exec_on(host.ip@, "sed -ri \"s/.*swap.*/#&/\" /etc/fstab"@)]
        + seq![exec_on(host.ip@, "hostnamectl set-hostname "@ + host.name@)]
        + seq![exec_on(host.ip@, "echo \""@ + concat_all(hosts_lines(hosts)) + "\" >> /etc/hosts"@)]
        + seq![copy_to(host.ip@, seq!["k8s.conf"@], "/etc/sysctl.d"@, false)]
        + seq![copy_to(host.ip@, seq!["pre_check/k8s.conf"@], "/etc/modules-load.d"@, false)]
        + seq![exec_on(host.ip@, "sysctl --system"@)]
}

fn preflight(host: &Host, hosts: &Vec<Host>) -> (r: Vec<GatewayCall>)
    ensures
        calls_view(r@) == preflight_calls(*host, hosts@),
{
    let mut out: Vec<GatewayCall> = no_calls();
    let table = hosts_table(hosts);
    push_exec(&mut out, host.ip.as_str(), owned("systemctl stop firewalld"));
    proof {
        assert(calls_view(out@) =~= seq![exec_on(host.ip@, "systemctl stop firewalld"@)]);
    }
    push_exec(&mut out, host.ip.as_str(), owned("systemctl disable firewalld"));
    push_exec(
        &mut out,
        host.ip.as_str(),
        owned("sed -i s/enforcing/disabled/ /etc/selinux/config"),
    );
    push_exec(&mut out, host.ip.as_str(), owned("sed -ri \"s/.*swap.*/#&/\" /etc/fstab"));
    let mut command: String = owned("hostnamectl set-hostname ");
    command.append(host.name.as_str());
    push_exec(&mut out, host.ip.as_str(), command);
    let mut command: String = owned("echo \"");
    command.append(table.as_str());
    command.append("\" >> /etc/hosts");
    push_exec(&mut out, host.ip.as_str(), command);
    let mut sources: Vec<String> = no_paths();
    push_path(&mut sources, owned("k8s.conf"));
    push_copy(&mut out, host.ip.as_str(), sources, "/etc/sysctl.d", false);
    let mut sources: Vec<String> = no_paths();
    push_path(&mut sources, owned("pre_check/k8s.conf"));
    push_copy(&mut out, host.ip.as_str(), sources, "/etc/modules-load.d", false);
    push_exec(&mut out, host.ip.as_str(), owned("sysctl --system"));
    out
}

/// What is asked of one host for the storage tier: its files are copied and
/// the service is started.
pub open spec fn storage_tier_calls(host: Host, hosts: Seq<Host>) -> Seq<CallView> {
    seq![copy_to(host.ip@, seq!["to_send/etcd"@], "/opt/"@, true)]
        + seq![copy_to(host.ip@, seq!["to_send/etcd.service"@], "/usr/lib/systemd/system/"@, false)]
        + seq![
            copy_to(
                host.ip@,
                seq!["to_send/"@ + host.ip@ + "/etcd.conf"@],
                "/opt/etcd/cfg"@,
                false,
            ),
        ]
        + activation(host.ip@, "etcd"@)
}

fn storage_tier(host: &Host, hosts: &Vec<Host>) -> (r: Vec<GatewayCall>)
    ensures
        calls_view(r@) == storage_tier_calls(*host, hosts@),
{
    let mut out: Vec<GatewayCall> = no_calls();
    let mut sources: Vec<String> = no_paths();
    push_path(&mut sources, owned("to_send/etcd"));
    push_copy(&mut out, host.ip.as_str(), sources, "/opt/", true);
    proof {
        assert(calls_view(out@) =~= seq![
            copy_to(host.ip@, seq!["to_send/etcd"@], "/opt/"@, true),
        ]);
    }
    let mut sources: Vec<String> = no_paths();
    push_path(&mut sources, owned("to_send/etcd.service"));
    push_copy(&mut out, host.ip.as_str(), sources, "/usr/lib/systemd/system/", false);
    let mut sources: Vec<String> = no_paths();
    let mut path: String = owned("to_send/");
    path.append(host.ip.as_str());
    path.append("/etcd.conf");
    push_path(&mut sources, path);
    push_copy(&mut out, host.ip.as_str(), sources, "/opt/etcd/cfg", false);
    push_activation(&mut out, host.ip.as_str(), "etcd");
    out
}

/// What is asked of one host for the container runtime: its programs and
/// settings are copied and the service is started.
pub open spec fn container_runtime_calls(host: Host, hosts: Seq<Host>) -> Seq<CallView> {
    seq![
        copy_to(
            host.ip@,
            seq![
                "docker/containerd"@,
                "docker/containerd-shim"@,
                "docker/containerd-shim-runc-v2"@,
                "docker/ctr"@,
                "docker/docker"@,
                "docker/dockerd"@,
                "docker/docker-init"@,
                "docker/docker-proxy"@,
                "docker/runc"@,
                "/rk8s/preparation/youki"@,
            ],
            "/usr/bin"@,
            false,
        ),
    ]
        + seq![exec_on(host.ip@, "mkdir /etc/docker"@)]
        + seq![copy_to(host.ip@, seq!["to_send/daemon.json"@], "/etc/docker"@, false)]
        + seq![
            copy_to(host.ip@, seq!["to_send/docker.service"@], "/usr/lib/systemd/system/"@, false),
        ]
        + activation(host.ip@, "docker"@)
}

fn container_runtime(host: &Host, hosts: &Vec<Host>) -> (r: Vec<GatewayCall>)
    ensures
        calls_view(r@) == container_runtime_calls(*host, hosts@),
{
    let mut out: Vec<GatewayCall> = no_calls();
    let mut sources: Vec<String> = no_paths();
    push_path(&mut sources, owned("docker/containerd"));
    push_path(&mut sources, owned("docker/containerd-shim"));
    push_path(&mut sources, owned("docker/containerd-shim-runc-v2"));
    push_path(&mut sources, owned("docker/ctr"));
    push_path(&mut sources, owned("docker/docker"));
    push_path(&mut sources, owned("docker/dockerd"));
    push_path(&mut sources, owned("docker/docker-init"));
    push_path(&mut sources, owned("docker/docker-proxy"));
    push_path(&mut sources, owned("docker/runc"));
    push_path(&mut sources, owned("/rk8s/preparation/youki"));
    proof {
        assert(views(sources@) =~= seq![
            "docker/containerd"@,
            "docker/containerd-shim"@,
            "docker/containerd-shim-runc-v2"@,
            "docker/ctr"@,
            "docker/docker"@,
            "docker/dockerd"@,
            "docker/docker-init"@,
            "docker/docker-proxy"@,
            "docker/runc"@,
            "/rk8s/preparation/youki"@,
        ]);
    }
    push_copy(&mut out, host.ip.as_str(), sources, "/usr/bin", false);
    proof {
        assert(calls_view(out@) =~= seq![
            copy_to(
                host.ip@,
                seq![
                    "docker/containerd"@,
                    "docker/containerd-shim"@,
                    "docker/containerd-shim-runc-v2"@,
                    "docker/ctr"@,
                    "docker/docker"@,
                    "docker/dockerd"@,
                    "docker/docker-init"@,
                    "docker/docker-proxy"@,
                    "docker/runc"@,
                    "/rk8s/preparation/youki"@,
                ],
                "/usr/bin"@,
                false,
            ),
        ]);
    }
    push_exec(&mut out, host.ip.as_str(), owned("mkdir /etc/docker"));
    let mut sources: Vec<String> = no_paths();
    push_path(&mut sources, owned("to_send/daemon.json"));
    push_copy(&mut out, host.ip.as_str(), sources, "/etc/docker", false);
    let mut sources: Vec<String> = no_paths();
    push_path(&mut sources, owned("to_send/docker.service"));
    push_copy(&mut out, host.ip.as_str(), sources, "/usr/lib/systemd/system/", false);
    push_activation(&mut out, host.ip.as_str(), "docker");
    out
}

/// What is asked of one host for the API server: the programs of the control
/// plane, the server certificate, the token file and the settings are copied
/// and the service is started.
pub open spec fn control_plane_api_calls(host: Host, hosts: Seq<Host>) -> Seq<CallView> {
    seq![copy_to(host.ip@, seq!["to_send/kubernetes"@], "/opt/"@, true)]
        + seq![
            copy_to(
                host.ip@,
                seq!["to_send/kubelet"@, "to_send/kube-proxy"@],
                "/opt/kubernetes/bin"@,
                false,
            ),
        ]
        + seq![
            copy_to(
                host.ip@,
                seq![
                    "to_send/kube-apiserver"@,
                    "to_send/kube-controller-manager"@,
                    "to_send/kube-scheduler"@,
                ],
                "/opt/kubernetes/bin"@,
                false,
            ),
        ]
        + seq![copy_to(host.ip@, seq!["to_send/kubectl"@], "/usr/bin"@, false)]
        + seq![
            copy_to(
                host.ip@,
                seq!["ca.pem"@, "ca-key.pem"@, "server-key.pem"@, "server.pem"@],
                "/opt/kubernetes/ssl"@,
                false,
            ),
        ]
        + seq![
            copy_to(
                host.ip@,
                seq![
                    "to_send/token.csv"@,
                    "to_send/"@ + host.ip@ + "/apiserver/kube-apiserver.conf"@,
                ],
                "/opt/kubernetes/cfg"@,
                false,
            ),
        ]
        + seq![
            copy_to(
                host.ip@,
                seq!["to_send/kube-apiserver.service"@],
                "/usr/lib/systemd/system/"@,
                false,
            ),
        ]
        + activation(host.ip@, "kube-apiserver"@)
}

fn control_plane_api(host: &Host, hosts: &Vec<Host>) -> (r: Vec<GatewayCall>)
    ensures
        calls_view(r@) == control_plane_api_calls(*host, hosts@),
{
    let mut out: Vec<GatewayCall> = no_calls();
    let mut sources: Vec<String> = no_paths();
    push_path(&mut sources, owned("to_send/kubernetes"));
    push_copy(&mut out, host.ip.as_str(), sources, "/opt/", true);
    proof {
        assert(calls_view(out@) =~= seq![
            copy_to(host.ip@, seq!["to_send/kubernetes"@], "/opt/"@, true),
        ]);
    }
    let mut sources: Vec<String> = no_paths();
    push_path(&mut sources, owned("to_send/kubelet"));
    push_path(&mut sources, owned("to_send/kube-proxy"));
    proof {
        assert(views(sources@) =~= seq!["to_send/kubelet"@, "to_send/kube-proxy"@]);
    }
    push_copy(&mut out, host.ip.as_str(), sources, "/opt/kubernetes/bin", false);
    let mut sources: Vec<String> = no_paths();
    push_path(&mut sources, owned("to_send/kube-apiserver"));
    push_path(&mut sources, owned("to_send/kube-controller-manager"));
    push_path(&mut sources, owned("to_send/kube-scheduler"));
    proof {
        assert(views(sources@) =~= seq![
            "to_send/kube-apiserver"@,
            "to_send/kube-controller-manager"@,
            "to_send/kube-scheduler"@,
        ]);
    }
    push_copy(&mut out, host.ip.as_str(), sources, "/opt/kubernetes/bin", false);
    let mut sources: Vec<String> = no_paths();
    push_path(&mut sources, owned("to_send/kubectl"));
    push_copy(&mut out, host.ip.as_str(), sources, "/usr/bin", false);
    let mut sources: Vec<String> = no_paths();
    push_path(&mut sources, owned("ca.pem"));
    push_path(&mut sources, owned("ca-key.pem"));
    push_path(&mut sources, owned("server-key.pem"));
    push_path(&mut sources, owned("server.pem"));
    proof {
        assert(views(sources@) =~= seq![
            "ca.pem"@,
            "ca-key.pem"@,
            "server-key.pem"@,
            "server.pem"@,
        ]);
    }
    push_copy(&mut out, host.ip.as_str(), sources, "/opt/kubernetes/ssl", false);
    let mut sources: Vec<String> = no_paths();
    push_path(&mut sources, owned("to_send/token.csv"));
    let mut path: String = owned("to_send/");
    path.append(host.ip.as_str());
    path.append("/apiserver/kube-apiserver.conf");
    push_path(&mut sources, path);
    proof {
        assert(views(sources@) =~= seq![
            "to_send/token.csv"@,
            "to_send/"@ + host.ip@ + "/apiserver/kube-apiserver.conf"@,
        ]);
    }
    push_copy(&mut out, host.ip.as_str(), sources, "/opt/kubernetes/cfg", false);
    let mut sources: Vec<String> = no_paths();
    push_path(&mut sources, owned("to_send/kube-apiserver.service"));
    push_copy(&mut out, host.ip.as_str(), sources, "/usr/lib/systemd/system/", false);
    push_activation(&mut out, host.ip.as_str(), "kube-apiserver");
    out
}

/// What is asked of one host for the controller manager.
pub open spec fn controller_manager_calls(host: Host, hosts: Seq<Host>) -> Seq<CallView> {
    seq![
        copy_to(
            host.ip@,
            seq!["kube-controller-manager.pem"@, "kube-controller-manager-key.pem"@],
            "/opt/kubernetes/ssl"@,
            false,
        ),
    ]
        + seq![
            copy_to(
                host.ip@,
                seq!["to_send/kube-controller-manager.conf"@],
                "/opt/kubernetes/cfg"@,
                false,
            ),
        ]
        + seq![
            copy_to(
                host.ip@,
                seq!["to_send/kube-controller-manager.service"@],
                "/usr/lib/systemd/system/"@,
                false,
            ),
        ]
        + kubeconfig(
            host.ip@,
            api_server_ip(hosts, host),
            "kube-controller-manager"@,
            "--client-certificate=/opt/kubernetes/ssl/kube-controller-manager.pem --client-key=/opt/kubernetes/ssl/kube-controller-manager-key.pem --embed-certs=true"@,
            "/opt/kubernetes/cfg/kube-controller-manager.kubeconfig"@,
        )
        + activation(host.ip@, "kube-controller-manager"@)
}

fn controller_manager(host: &Host, hosts: &Vec<Host>) -> (r: Vec<GatewayCall>)
    ensures
        calls_view(r@) == controller_manager_calls(*host, hosts@),
{
    let mut out: Vec<GatewayCall> = no_calls();
    let server = api_server(hosts, host);
    let mut sources: Vec<String> = no_paths();
    push_path(&mut sources, owned("kube-controller-manager.pem"));
    push_path(&mut sources, owned("kube-controller-manager-key.pem"));
    proof {
        assert(views(sources@) =~= seq![
            "kube-controller-manager.pem"@,
            "kube-controller-manager-key.pem"@,
        ]);
    }
    push_copy(&mut out, host.ip.as_str(), sources, "/opt/kubernetes/ssl", false);
    proof {
        assert(calls_view(out@) =~= seq![
            copy_to(
                host.ip@,
                seq!["kube-controller-manager.pem"@, "kube-controller-manager-key.pem"@],
                "/opt/kubernetes/ssl"@,
                false,
            ),
        ]);
    }
    let mut sources: Vec<String> = no_paths();
    push_path(&mut sources, owned("to_send/kube-controller-manager.conf"));
    push_copy(&mut out, host.ip.as_str(), sources, "/opt/kubernetes/cfg", false);
    let mut sources: Vec<String> = no_paths();
    push_path(&mut sources, owned("to_send/kube-controller-manager.service"));
    push_copy(&mut out, host.ip.as_str(), sources, "/usr/lib/systemd/system/", false);
    push_kubeconfig(
        &mut out,
        host.ip.as_str(),
        server.as_str(),
        "kube-controller-manager",
        "--client-certificate=/opt/kubernetes/ssl/kube-controller-manager.pem --client-key=/opt/kubernetes/ssl/kube-controller-manager-key.pem --embed-certs=true",
        "/opt/kubernetes/cfg/kube-controller-manager.kubeconfig",
    );
    push_activation(&mut out, host.ip.as_str(), "kube-controller-manager");
    out
}

/// What is asked of one host for the scheduler.
pub open spec fn scheduler_calls(host: Host, hosts: Seq<Host>) -> Seq<CallView> {
    seq![
        copy_to(
            host.ip@,
            seq!["kube-scheduler.pem"@, "kube-scheduler-key.pem"@],
            "/opt/kubernetes/ssl"@,
            false,
        ),
    ]
        + seq![
            copy_to(host.ip@, seq!["to_send/kube-scheduler.conf"@], "/opt/kubernetes/cfg"@, false),
        ]
        + seq![
            copy_to(
                host.ip@,
                seq!["to_send/kube-scheduler.service"@],
                "/usr/lib/systemd/system/"@,
                false,
            ),
        ]
        + kubeconfig(
            host.ip@,
            api_server_ip(hosts, host),
            "kube-scheduler"@,
            "--client-certificate=/opt/kubernetes/ssl/kube-scheduler.pem --client-key=/opt/kubernetes/ssl/kube-scheduler-key.pem --embed-certs=true"@,
            "/opt/kubernetes/cfg/kube-scheduler.kubeconfig"@,
        )
        + activation(host.ip@, "kube-scheduler"@)
}

fn scheduler(host: &Host, hosts: &Vec<Host>) -> (r: Vec<GatewayCall>)
    ensures
        calls_view(r@) == scheduler_calls(*host, hosts@),
{
    let mut out: Vec<GatewayCall> = no_calls();
    let server = api_server(hosts, host);
    let mut sources: Vec<String> = no_paths();
    push_path(&mut sources, owned("kube-scheduler.pem"));
    push_path(&mut sources, owned("kube-scheduler-key.pem"));
    proof {
        assert(views(sources@) =~= seq!["kube-scheduler.pem"@, "kube-scheduler-key.pem"@]);
    }
    push_copy(&mut out, host.ip.as_str(), sources, "/opt/kubernetes/ssl", false);
    proof {
        assert(calls_view(out@) =~= seq![
            copy_to(
                host.ip@,
                seq!["kube-scheduler.pem"@, "kube-scheduler-key.pem"@],
                "/opt/kubernetes/ssl"@,
                false,
            ),
        ]);
    }
    let mut sources: Vec<String> = no_paths();
    push_path(&mut sources, owned("to_send/kube-scheduler.conf"));
    push_copy(&mut out, host.ip.as_str(), sources, "/opt/kubernetes/cfg", false);
    let mut sources: Vec<String> = no_paths();
    push_path(&mut sources, owned("to_send/kube-scheduler.service"));
    push_copy(&mut out, host.ip.as_str(), sources, "/usr/lib/systemd/system/", false);
    push_kubeconfig(
        &mut out,
        host.ip.as_str(),
        server.as_str(),
        "kube-scheduler",
        "--client-certificate=/opt/kubernetes/ssl/kube-scheduler.pem --client-key=/opt/kubernetes/ssl/kube-scheduler-key.pem --embed-certs=true",
        "/opt/kubernetes/cfg/kube-scheduler.kubeconfig",
    );
    push_activation(&mut out, host.ip.as_str(), "kube-scheduler");
    out
}

/// What is asked of one host for the administrative credential: its
/// certificate is copied, its client settings are written and the node agents
/// are allowed to ask for certificates.
pub open spec fn admin_credential_calls(host: Host, hosts: Seq<Host>) -> Seq<CallView> {
    seq![copy_to(host.ip@, seq!["admin.pem"@, "admin-key.pem"@], "/opt/kubernetes/ssl"@, false)]
        + seq![exec_on(host.ip@, "mkdir /root/.kube"@)]
        + kubeconfig(
            host.ip@,
            api_server_ip(hosts, host),
            "cluster-admin"@,
            "--client-certificate=/opt/kubernetes/ssl/admin.pem --client-key=/opt/kubernetes/ssl/admin-key.pem --embed-certs=true"@,
            "/root/.kube/config"@,
        )
        + seq![
            exec_on(
                host.ip@,
                "kubectl create clusterrolebinding kubelet-bootstrap --clusterrole=system:node-bootstrapper --user=kubelet-bootstrap"@,
            ),
        ]
}

fn admin_credential(host: &Host, hosts: &Vec<Host>) -> (r: Vec<GatewayCall>)
    ensures
        calls_view(r@) == admin_credential_calls(*host, hosts@),
{
    let mut out: Vec<GatewayCall> = no_calls();
    let server = api_server(hosts, host);
    let mut sources: Vec<String> = no_paths();
    push_path(&mut sources, owned("admin.pem"));
    push_path(&mut sources, owned("admin-key.pem"));
    proof {
        assert(views(sources@) =~= seq!["admin.pem"@, "admin-key.pem"@]);
    }
    push_copy(&mut out, host.ip.as_str(), sources, "/opt/kubernetes/ssl", false);
    proof {
        assert(calls_view(out@) =~= seq![
            copy_to(host.ip@, seq!["admin.pem"@, "admin-key.pem"@], "/opt/kubernetes/ssl"@, false),
        ]);
    }
    push_exec(&mut out, host.ip.as_str(), owned("mkdir /root/.kube"));
    push_kubeconfig(
        &mut out,
        host.ip.as_str(),
        server.as_str(),
        "cluster-admin",
        "--client-certificate=/opt/kubernetes/ssl/admin.pem --client-key=/opt/kubernetes/ssl/admin-key.pem --embed-certs=true",
        "/root/.kube/config",
    );
    push_exec(
        &mut out,
        host.ip.as_str(),
        owned(
            "kubectl create clusterrolebinding kubelet-bootstrap --clusterrole=system:node-bootstrapper --user=kubelet-bootstrap",
        ),
    );
    out
}

/// What is asked of one host for the node agent. A worker is first given the
/// programs that a control host got with its API server.
pub open spec fn node_agent_calls(host: Host, hosts: Seq<Host>) -> Seq<CallView> {
    (if host.spec_role() == Role::Worker {
        seq![copy_to(host.ip@, seq!["to_send/kubernetes"@], "/opt/"@, true)]
            + seq![
                copy_to(
                    host.ip@,
                    seq!["to_send/kubelet"@, "to_send/kube-proxy"@],
                    "/opt/kubernetes/bin"@,
                    false,
                ),
            ]
    } else {
        Seq::empty()
    })
        + seq![
            copy_to(
                host.ip@,
                seq![
                    "to_send/"@ + host.ip@ + "/kubelet/kubelet.conf"@,
                    "to_send/kubelet-config.yml"@,
                ],
                "/opt/kubernetes/cfg"@,
                false,
            ),
        ]
        + seq![
            copy_to(host.ip@, seq!["to_send/kubelet.service"@], "/usr/lib/systemd/system/"@, false),
        ]
        + kubeconfig(
            host.ip@,
            api_server_ip(hosts, host),
            "kubelet-bootstrap"@,
            "--token=4136692876ad4b01bb9dd0988480ebba"@,
            "/opt/kubernetes/cfg/bootstrap.kubeconfig"@,
        )
        + activation(host.ip@, "kubelet"@)
}

fn node_agent(host: &Host, hosts: &Vec<Host>) -> (r: Vec<GatewayCall>)
    ensures
        calls_view(r@) == node_agent_calls(*host, hosts@),
{
    let mut out: Vec<GatewayCall> = no_calls();
    let server = api_server(hosts, host);
    if host.role() == Role::Worker {
        let mut sources: Vec<String> = no_paths();
        push_path(&mut sources, owned("to_send/kubernetes"));
        push_copy(&mut out, host.ip.as_str(), sources, "/opt/", true);
        proof {
            assert(calls_view(out@) =~= seq![
                copy_to(host.ip@, seq!["to_send/kubernetes"@], "/opt/"@, true),
            ]);
        }
        let mut sources: Vec<String> = no_paths();
        push_path(&mut sources, owned("to_send/kubelet"));
        push_path(&mut sources, owned("to_send/kube-proxy"));
        proof {
            assert(views(sources@) =~= seq!["to_send/kubelet"@, "to_send/kube-proxy"@]);
        }
        push_copy(&mut out, host.ip.as_str(), sources, "/opt/kubernetes/bin", false);
    }
    let mut sources: Vec<String> = no_paths();
    let mut path: String = owned("to_send/");
    path.append(host.ip.as_str());
    path.append("/kubelet/kubelet.conf");
    push_path(&mut sources, path);
    push_path(&mut sources, owned("to_send/kubelet-config.yml"));
    proof {
        assert(views(sources@) =~= seq![
            "to_send/"@ + host.ip@ + "/kubelet/kubelet.conf"@,
            "to_send/kubelet-config.yml"@,
        ]);
    }
    push_copy(&mut out, host.ip.as_str(), sources, "/opt/kubernetes/cfg", false);
    let mut sources: Vec<String> = no_paths();
    push_path(&mut sources, owned("to_send/kubelet.service"));
    push_copy(&mut out, host.ip.as_str(), sources, "/usr/lib/systemd/system/", false);
    push_kubeconfig(
        &mut out,
        host.ip.as_str(),
        server.as_str(),
        "kubelet-bootstrap",
        "--token=4136692876ad4b01bb9dd0988480ebba",
        "/opt/kubernetes/cfg/bootstrap.kubeconfig",
    );
    push_activation(&mut out, host.ip.as_str(), "kubelet");
    out
}

/// What is asked of one host for the service proxy. A control host applies
/// the network add-on afterwards.
pub open spec fn service_proxy_calls(host: Host, hosts: Seq<Host>) -> Seq<CallView> {
    let calls = seq![
            copy_to(
                host.ip@,
                seq!["kube-proxy.pem"@, "kube-proxy-key.pem"@],
                "/opt/kubernetes/ssl"@,
                false,
            ),
        ]
        + seq![
            copy_to(
                host.ip@,
                seq![
                    "to_send/kube-proxy.conf"@,
                    "to_send/"@ + host.ip@ + "/kube_proxy/kube-proxy-config.yml"@,
                ],
                "/opt/kubernetes/cfg"@,
                false,
            ),
        ]
        + seq![
            copy_to(
                host.ip@,
                seq!["to_send/kube-proxy.service"@],
                "/usr/lib/systemd/system/"@,
                false,
            ),
        ]
        + kubeconfig(
            host.ip@,
            api_server_ip(hosts, host),
            "kube-proxy"@,
            "--client-certificate=/opt/kubernetes/ssl/kube-proxy.pem --client-key=/opt/kubernetes/ssl/kube-proxy-key.pem --embed-certs=true"@,
            "/opt/kubernetes/cfg/kube-proxy.kubeconfig"@,
        )
        + activation(host.ip@, "kube-proxy"@);
    if host.spec_role() == Role::Control {
        calls + seq![copy_to(host.ip@, seq!["/rk8s/preparation/calico.yaml"@], "/root"@, false)]
            + seq![exec_on(host.ip@, "kubectl apply -f /root/calico.yaml"@)]
    } else {
        calls
    }
}

fn service_proxy(host: &Host, hosts: &Vec<Host>) -> (r: Vec<GatewayCall>)
    ensures
        calls_view(r@) == service_proxy_calls(*host, hosts@),
{
    let mut out: Vec<GatewayCall> = no_calls();
    let server = api_server(hosts, host);
    let mut sources: Vec<String> = no_paths();
    push_path(&mut sources, owned("kube-proxy.pem"));
    push_path(&mut sources, owned("kube-proxy-key.pem"));
    proof {
        assert(views(sources@) =~= seq!["kube-proxy.pem"@, "kube-proxy-key.pem"@]);
    }
    push_copy(&mut out, host.ip.as_str(), sources, "/opt/kubernetes/ssl", false);
    proof {
        assert(calls_view(out@) =~= seq![
            copy_to(
                host.ip@,
                seq!["kube-proxy.pem"@, "kube-proxy-key.pem"@],
                "/opt/kubernetes/ssl"@,
                false,
            ),
        ]);
    }
    let mut sources: Vec<String> = no_paths();
    push_path(&mut sources, owned("to_send/kube-proxy.conf"));
    let mut path: String = owned("to_send/");
    path.append(host.ip.as_str());
    path.append("/kube_proxy/kube-proxy-config.yml");
    push_path(&mut sources, path);
    proof {
        assert(views(sources@) =~= seq![
            "to_send/kube-proxy.conf"@,
            "to_send/"@ + host.ip@ + "/kube_proxy/kube-proxy-config.yml"@,
        ]);
    }
    push_copy(&mut out, host.ip.as_str(), sources, "/opt/kubernetes/cfg", false);
    let mut sources: Vec<String> = no_paths();
    push_path(&mut sources, owned("to_send/kube-proxy.service"));
    push_copy(&mut out, host.ip.as_str(), sources, "/usr/lib/systemd/system/", false);
    push_kubeconfig(
        &mut out,
        host.ip.as_str(),
        server.as_str(),
        "kube-proxy",
        "--client-certificate=/opt/kubernetes/ssl/kube-proxy.pem --client-key=/opt/kubernetes/ssl/kube-proxy-key.pem --embed-certs=true",
        "/opt/kubernetes/cfg/kube-proxy.kubeconfig",
    );
    push_activation(&mut out, host.ip.as_str(), "kube-proxy");
    if host.role() == Role::Control {
        let mut sources: Vec<String> = no_paths();
        push_path(&mut sources, owned("/rk8s/preparation/calico.yaml"));
        push_copy(&mut out, host.ip.as_str(), sources, "/root", false);
        push_exec(&mut out, host.ip.as_str(), owned("kubectl apply -f /root/calico.yaml"));
    }
    out
}

/// What is asked of one host in `phase`, in the order in which it is asked.
pub open spec fn unit_calls_spec(phase: Phase, host: Host, hosts: Seq<Host>) -> Seq<CallView> {
    match phase {
        Phase::PreflightCheck => preflight_calls(host, hosts),
        Phase::StorageTier => storage_tier_calls(host, hosts),
        Phase::ContainerRuntime => container_runtime_calls(host, hosts),
        Phase::ControlPlaneApi => control_plane_api_calls(host, hosts),
        Phase::ControllerManager => controller_manager_calls(host, hosts),
        Phase::Scheduler => scheduler_calls(host, hosts),
        Phase::AdminCredential => admin_credential_calls(host, hosts),
        Phase::NodeAgent => node_agent_calls(host, hosts),
        Phase::ServiceProxy => service_proxy_calls(host, hosts),
    }
}

/// The calls that make up the unit of work of `phase` on `host`, a member of
/// the cluster `hosts`.
pub fn unit_calls(phase: Phase, host: &Host, hosts: &Vec<Host>) -> (r: Vec<GatewayCall>)
    ensures
        calls_view(r@) == unit_calls_spec(phase, *host, hosts@),
{
    match phase {
        Phase::PreflightCheck => preflight(host, hosts),
        Phase::StorageTier => storage_tier(host, hosts),
        Phase::ContainerRuntime => container_runtime(host, hosts),
        Phase::ControlPlaneApi => control_plane_api(host, hosts),
        Phase::ControllerManager => controller_manager(host, hosts),
        Phase::Scheduler => scheduler(host, hosts),
        Phase::AdminCredential => admin_credential(host, hosts),
        Phase::NodeAgent => node_agent(host, hosts),
        Phase::ServiceProxy => service_proxy(host, hosts),
    }
}

/// The host that a call is addressed to.
pub open spec fn call_host(call: CallView) -> Seq<char> {
    match call {
        CallView::Exec { host, .. } => host,
        CallView::Copy { host, .. } => host,
    }
}

/// Every call of a unit is addressed to the unit's own host: a phase reaches
/// no host but those it is fanned out to.
pub proof fn unit_calls_address_their_host(phase: Phase, host: Host, hosts: Seq<Host>, i: int)
    requires
        0 <= i < unit_calls_spec(phase, host, hosts).len(),
    ensures
        call_host(unit_calls_spec(phase, host, hosts)[i]) == host.ip@,
{
}

/// `calls` is the unit of work of `phase` on the host at position `index`.
pub open spec fn is_unit_of(
    calls: Vec<GatewayCall>,
    phase: Phase,
    hosts: Seq<Host>,
    index: usize,
) -> bool {
    index < hosts.len() && calls_view(calls@) == unit_calls_spec(phase, hosts[index as int], hosts)
}

/// A phase reaches only the hosts it applies to: every call of every unit
/// is addressed to the unit's host, and that host has a role that the phase
/// runs on. So the phases of the control plane never touch a worker.
pub proof fn phase_reaches_only_its_hosts(phase: Phase, hosts: Seq<Host>, k: int, i: int)
    requires
        hosts.len() <= usize::MAX,
        0 <= k < selected_hosts(hosts, phase).len(),
        0 <= i < unit_calls_spec(
            phase,
            hosts[selected_hosts(hosts, phase)[k] as int],
            hosts,
        ).len(),
    ensures
        selected_hosts(hosts, phase)[k] < hosts.len(),
        phase.spec_applies_to(hosts[selected_hosts(hosts, phase)[k] as int].spec_role()),
        call_host(
            unit_calls_spec(phase, hosts[selected_hosts(hosts, phase)[k] as int], hosts)[i],
        ) == hosts[selected_hosts(hosts, phase)[k] as int].ip@,
{
    selected_hosts_apply(hosts, phase, k);
    unit_calls_address_their_host(phase, hosts[selected_hosts(hosts, phase)[k] as int], hosts, i);
}

/// The work of `phase` over the whole cluster: one list of calls for each
/// host that the phase runs on, control hosts first.
pub fn start(phase: Phase, hosts: &Vec<Host>) -> (r: Vec<Vec<GatewayCall>>)
    ensures
        r@.len() == selected_hosts(hosts@, phase).len(),
        forall|k: int|
            0 <= k < r@.len() ==> is_unit_of(
                #[trigger] r@[k],
                phase,
                hosts@,
                selected_hosts(hosts@, phase)[k],
            ),
{
    let selected = select_hosts(hosts, phase);
    let n: usize = hosts.len();
    let mut out: Vec<Vec<GatewayCall>> = Vec::new();
    let mut k: usize = 0;
    while k < selected.len()
        invariant
            selected@ == selected_hosts(hosts@, phase),
            n == hosts@.len(),
            k <= selected@.len(),
            out@.len() == k,
            forall|j: int| 0 <= j < k ==> is_unit_of(#[trigger] out@[j], phase, hosts@, selected@[j]),
        decreases selected@.len() - k,
    {
        proof {
            selected_hosts_apply(hosts@, phase, k as int);
        }
        let calls = unit_calls(phase, &hosts[selected[k]], hosts);
        proof {
            assert(is_unit_of(calls, phase, hosts@, selected@[k as int]));
        }
        out.push(calls);
        k = k + 1;
    }
    out
}

} // verus!
