//! The files whose text depends on nothing: service descriptors, fixed
//! settings and the bootstrap token. They are handed out as they stand.

use vstd::prelude::*;

verus! {

/// The kernel settings that let bridged traffic pass the packet filter.
pub const BRIDGE_SYSCTL: &'static str = r#"net.bridge.bridge-nf-call-ip6tables = 1
net.bridge.bridge-nf-call-iptables = 1
"#;

/// The kernel module to load at boot.
pub const BRIDGE_MODULE: &'static str = r#"br_netfilter
"#;

/// The service descriptor of the storage tier.
pub const ETCD_UNIT: &'static str = r#"[Unit]
Description=Etcd Server
After=network.target
After=network-online.target
Wants=network-online.target

[Service]
Type=notify
EnvironmentFile=/opt/etcd/cfg/etcd.conf
ExecStart=/opt/etcd/bin/etcd \
--cert-file=/opt/etcd/ssl/server.pem \
--key-file=/opt/etcd/ssl/server-key.pem \
--peer-cert-file=/opt/etcd/ssl/server.pem \
--peer-key-file=/opt/etcd/ssl/server-key.pem \
--trusted-ca-file=/opt/etcd/ssl/ca.pem \
--peer-trusted-ca-file=/opt/etcd/ssl/ca.pem \
--logger=zap
Restart=on-failure
LimitNOFILE=65536

[Install]
WantedBy=multi-user.target
"#;

/// The settings of the container runtime.
pub const DOCKER_DAEMON: &'static str = r#"{
    "default-runtime": "youki",
    "runtimes": {
        "youki": {
            "path": "/usr/bin/youki"
        }
    },
    "exec-opts": ["native.cgroupdriver=systemd"],
    "log-driver": "json-file",
    "log-opts": {
        "max-size": "100m"
    },
    "storage-driver": "overlay2"
}
"#;

/// The service descriptor of the container runtime.
pub const DOCKER_UNIT: &'static str = r#"[Unit]
Description=Docker Application Container Engine
Documentation=https://docs.docker.com
After=network-online.target firewalld.service
Wants=network-online.target

[Service]
Type=notify
ExecStart=/usr/bin/dockerd
ExecReload=/bin/kill -s HUP $MAINPID
LimitNOFILE=infinity
LimitNPROC=infinity
LimitCORE=infinity
TimeoutStartSec=0
Delegate=yes
KillMode=process
Restart=on-failure
StartLimitBurst=3
StartLimitInterval=60s

[Install]
WantedBy=multi-user.target
"#;

/// The token file with which node agents introduce themselves.
pub const BOOTSTRAP_TOKEN: &'static str = r#"4136692876ad4b01bb9dd0988480ebba,kubelet-bootstrap,10001,"system:node-bootstrapper""#;

/// The service descriptor of the API server.
pub const API_SERVER_UNIT: &'static str = r#"[Unit]
Description=Kubernetes API Server
Documentation=https://github.com/kubernetes/kubernetes

[Service]
EnvironmentFile=/opt/kubernetes/cfg/kube-apiserver.conf
ExecStart=/opt/kubernetes/bin/kube-apiserver $KUBE_APISERVER_OPTS
Restart=on-failure

[Install]
WantedBy=multi-user.target
"#;

/// The environment file of the controller manager.
pub const CONTROLLER_MANAGER_CONF: &'static str = r#"KUBE_CONTROLLER_MANAGER_OPTS="--logtostderr=false \
--v=2 \
--log-dir=/opt/kubernetes/logs \
--leader-elect=true \
--kubeconfig=/opt/kubernetes/cfg/kube-controller-manager.kubeconfig \
--bind-address=127.0.0.1 \
--allocate-node-cidrs=true \
--cluster-cidr=10.244.0.0/16 \
--service-cluster-ip-range=10.0.0.0/24 \
--cluster-signing-cert-file=/opt/kubernetes/ssl/ca.pem \
--cluster-signing-key-file=/opt/kubernetes/ssl/ca-key.pem  \
--root-ca-file=/opt/kubernetes/ssl/ca.pem \
--service-account-private-key-file=/opt/kubernetes/ssl/ca-key.pem \
--cluster-signing-duration=87600h0m0s"

"#;

/// The service descriptor of the controller manager.
pub const CONTROLLER_MANAGER_UNIT: &'static str = r#"[Unit]
Description=Kubernetes Controller Manager
Documentation=https://github.com/kubernetes/kubernetes

[Service]
EnvironmentFile=/opt/kubernetes/cfg/kube-controller-manager.conf
ExecStart=/opt/kubernetes/bin/kube-controller-manager $KUBE_CONTROLLER_MANAGER_OPTS
Restart=on-failure

[Install]
WantedBy=multi-user.target
"#;

/// The environment file of the scheduler.
pub const SCHEDULER_CONF: &'static str = r#"KUBE_SCHEDULER_OPTS="--logtostderr=false \
--v=2 \
--log-dir=/opt/kubernetes/logs \
--leader-elect \
--kubeconfig=/opt/kubernetes/cfg/kube-scheduler.kubeconfig \
--bind-address=127.0.0.1"

"#;

/// The service descriptor of the scheduler.
pub const SCHEDULER_UNIT: &'static str = r#"[Unit]
Description=Kubernetes Scheduler
Documentation=https://github.com/kubernetes/kubernetes

[Service]
EnvironmentFile=/opt/kubernetes/cfg/kube-scheduler.conf
ExecStart=/opt/kubernetes/bin/kube-scheduler $KUBE_SCHEDULER_OPTS
Restart=on-failure

[Install]
WantedBy=multi-user.target
"#;

/// The settings of the node agent.
pub const NODE_AGENT_SETTINGS: &'static str = r#"kind: KubeletConfiguration
apiVersion: kubelet.config.k8s.io/v1beta1
address: 0.0.0.0
port: 10250
readOnlyPort: 10255
cgroupDriver: systemd
clusterDNS:
- 10.0.0.2
clusterDomain: cluster.local 
failSwapOn: false
authentication:
  anonymous:
    enabled: false
  webhook:
    cacheTTL: 2m0s
    enabled: true
  x509:
    clientCAFile: /opt/kubernetes/ssl/ca.pem 
authorization:
  mode: Webhook
  webhook:
    cacheAuthorizedTTL: 5m0s
    cacheUnauthorizedTTL: 30s
evictionHard:
  imagefs.available: 15%
  memory.available: 100Mi
  nodefs.available: 10%
  nodefs.inodesFree: 5%
maxOpenFiles: 1000000
maxPods: 110

"#;

/// The service descriptor of the node agent.
pub const NODE_AGENT_UNIT: &'static str = r#"[Unit]
Description=Kubernetes Kubelet
After=docker.service

[Service]
EnvironmentFile=/opt/kubernetes/cfg/kubelet.conf
ExecStart=/opt/kubernetes/bin/kubelet $KUBELET_OPTS
Restart=on-failure
LimitNOFILE=65536

[Install]
WantedBy=multi-user.target
"#;

/// The environment file of the service proxy.
pub const PROXY_CONF: &'static str = r#"KUBE_PROXY_OPTS="--logtostderr=false \
--v=2 \
--log-dir=/opt/kubernetes/logs \
--config=/opt/kubernetes/cfg/kube-proxy-config.yml"

"#;

/// The service descriptor of the service proxy.
pub const PROXY_UNIT: &'static str = r#"[Unit]
Description=Kubernetes Proxy
After=network.target

[Service]
EnvironmentFile=/opt/kubernetes/cfg/kube-proxy.conf
ExecStart=/opt/kubernetes/bin/kube-proxy $KUBE_PROXY_OPTS
Restart=on-failure
LimitNOFILE=65536

[Install]
WantedBy=multi-user.target
"#;

/// A file with fixed text.
#[derive(Clone, Copy, Debug, PartialEq, Eq, Structural)]
pub enum FixedFile {
    /// The kernel settings that let bridged traffic pass the packet filter.
    BridgeSysctl,
    /// The kernel module to load at boot.
    BridgeModule,
    /// The service descriptor of the storage tier.
    EtcdUnit,
    /// The settings of the container runtime.
    DockerDaemon,
    /// The service descriptor of the container runtime.
    DockerUnit,
    /// The token file with which node agents introduce themselves.
    Token,
    /// The service descriptor of the API server.
    ApiServerUnit,
    /// The environment file of the controller manager.
    ControllerManagerConf,
    /// The service descriptor of the controller manager.
    ControllerManagerUnit,
    /// The environment file of the scheduler.
    SchedulerConf,
    /// The service descriptor of the scheduler.
    SchedulerUnit,
    /// The settings of the node agent.
    NodeAgentSettings,
    /// The service descriptor of the node agent.
    NodeAgentUnit,
    /// The environment file of the service proxy.
    ProxyConf,
    /// The service descriptor of the service proxy.
    ProxyUnit,
}

impl FixedFile {
    /// The text of the file.
    pub open spec fn spec_text(self) -> Seq<char> {
        match self {
            FixedFile::BridgeSysctl => BRIDGE_SYSCTL@,
            FixedFile::BridgeModule => BRIDGE_MODULE@,
            FixedFile::EtcdUnit => ETCD_UNIT@,
            FixedFile::DockerDaemon => DOCKER_DAEMON@,
            FixedFile::DockerUnit => DOCKER_UNIT@,
            FixedFile::Token => BOOTSTRAP_TOKEN@,
            FixedFile::ApiServerUnit => API_SERVER_UNIT@,
            FixedFile::ControllerManagerConf => CONTROLLER_MANAGER_CONF@,
            FixedFile::ControllerManagerUnit => CONTROLLER_MANAGER_UNIT@,
            FixedFile::SchedulerConf => SCHEDULER_CONF@,
            FixedFile::SchedulerUnit => SCHEDULER_UNIT@,
            FixedFile::NodeAgentSettings => NODE_AGENT_SETTINGS@,
            FixedFile::NodeAgentUnit => NODE_AGENT_UNIT@,
            FixedFile::ProxyConf => PROXY_CONF@,
            FixedFile::ProxyUnit => PROXY_UNIT@,
        }
    }

    /// The text of the file.
    pub fn text(self) -> (r: &'static str)
        ensures
            r@ == self.spec_text(),
    {
        match self {
            FixedFile::BridgeSysctl => BRIDGE_SYSCTL,
            FixedFile::BridgeModule => BRIDGE_MODULE,
            FixedFile::EtcdUnit => ETCD_UNIT,
            FixedFile::DockerDaemon => DOCKER_DAEMON,
            FixedFile::DockerUnit => DOCKER_UNIT,
            FixedFile::Token => BOOTSTRAP_TOKEN,
            FixedFile::ApiServerUnit => API_SERVER_UNIT,
            FixedFile::ControllerManagerConf => CONTROLLER_MANAGER_CONF,
            FixedFile::ControllerManagerUnit => CONTROLLER_MANAGER_UNIT,
            FixedFile::SchedulerConf => SCHEDULER_CONF,
            FixedFile::SchedulerUnit => SCHEDULER_UNIT,
            FixedFile::NodeAgentSettings => NODE_AGENT_SETTINGS,
            FixedFile::NodeAgentUnit => NODE_AGENT_UNIT,
            FixedFile::ProxyConf => PROXY_CONF,
            FixedFile::ProxyUnit => PROXY_UNIT,
        }
    }
}

} // verus!
