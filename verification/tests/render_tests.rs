use rk8s::config::{generate_config_template, Host};
use rk8s::render::{
    etcd_servers, hosts_table, initial_cluster, join_strings, ETCDCfg, KubeApiserverCfg,
    KubeProxyConfig, KubeletCfg,
};

fn three_hosts() -> Vec<Host> {
    vec![
        Host::new("10.0.0.1", "master01"),
        Host::new("10.0.0.2", "worker01"),
        Host::new("10.0.0.3", "worker02"),
    ]
}

#[test]
fn initial_cluster_of_three_hosts() {
    assert_eq!(
        initial_cluster(&three_hosts()),
        "etcd_master01=https://10.0.0.1:2380,etcd_worker01=https://10.0.0.2:2380,etcd_worker02=https://10.0.0.3:2380"
    );
}

#[test]
fn initial_cluster_of_one_host_has_no_comma() {
    let hosts = vec![Host::new("10.0.0.1", "master01")];
    assert_eq!(initial_cluster(&hosts), "etcd_master01=https://10.0.0.1:2380");
}

#[test]
fn initial_cluster_of_no_host_is_empty() {
    assert_eq!(initial_cluster(&Vec::new()), "");
}

#[test]
fn initial_cluster_has_one_entry_per_host() {
    for n in 1..8usize {
        let hosts: Vec<Host> = (0..n)
            .map(|i| Host::new(&format!("10.0.0.{}", i + 1), &format!("node{}", i)))
            .collect();
        let text = initial_cluster(&hosts);
        let entries: Vec<&str> = text.split(',').collect();
        assert_eq!(entries.len(), n);
        assert!(!text.starts_with(','));
        assert!(!text.ends_with(','));
        assert!(!text.contains(",,"));
        for (i, entry) in entries.iter().enumerate() {
            assert_eq!(*entry, format!("etcd_node{}=https://10.0.0.{}:2380", i, i + 1));
        }
    }
}

#[test]
fn storage_endpoints_for_the_api_server() {
    assert_eq!(
        etcd_servers(&three_hosts()),
        "https://10.0.0.1:2379,https://10.0.0.2:2379,https://10.0.0.3:2379"
    );
    assert_eq!(etcd_servers(&Vec::new()), "");
}

#[test]
fn join_strings_places_the_separator_between() {
    let parts = vec!["a".to_string(), "".to_string(), "c".to_string()];
    assert_eq!(join_strings(&parts, "--"), "a----c");
    assert_eq!(join_strings(&Vec::new(), ","), "");
    assert_eq!(join_strings(&vec!["x".to_string()], ","), "x");
}

#[test]
fn table_of_host_names() {
    assert_eq!(
        hosts_table(&three_hosts()),
        "10.0.0.1 master01\n10.0.0.2 worker01\n10.0.0.3 worker02\n"
    );
    assert_eq!(hosts_table(&Vec::new()), "");
}

#[test]
fn storage_tier_environment_file() {
    let mut config = generate_config_template();
    config.instance_hosts = vec![Host::new("10.0.0.1", "master01"), Host::new("10.0.0.2", "worker01")];
    let text = ETCDCfg::generate("10.0.0.2", "worker01", &config);
    let expected = "#[Member]\n\
ETCD_NAME=\"etcd_worker01\"\n\
ETCD_DATA_DIR=\"/var/lib/etcd/default.etcd\"\n\
ETCD_LISTEN_PEER_URLS=\"https://10.0.0.2:2380\"\n\
ETCD_LISTEN_CLIENT_URLS=\"https://10.0.0.2:2379\"\n\
\n\
#[Clustering]\n\
ETCD_INITIAL_ADVERTISE_PEER_URLS=\"https://10.0.0.2:2380\"\n\
ETCD_ADVERTISE_CLIENT_URLS=\"https://10.0.0.2:2379\"\n\
ETCD_INITIAL_CLUSTER=\"etcd_master01=https://10.0.0.1:2380,etcd_worker01=https://10.0.0.2:2380\"\n\
ETCD_INITIAL_CLUSTER_TOKEN=\"etcd-cluster\"\n\
ETCD_INITIAL_CLUSTER_STATE=\"new\"\n";
    assert_eq!(text, expected);
}

#[test]
fn api_server_environment_file() {
    let mut config = generate_config_template();
    config.instance_hosts = vec![Host::new("10.0.0.1", "master01"), Host::new("10.0.0.2", "worker01")];
    let text = KubeApiserverCfg::generate("10.0.0.1", &config);
    let lines: Vec<&str> = text.lines().collect();
    assert_eq!(lines[0], "KUBE_APISERVER_OPTS=\"--logtostderr=false \\");
    assert_eq!(lines[1], "--v=2 \\");
    assert_eq!(lines[2], "--log-dir=/opt/kubernetes/logs \\");
    assert_eq!(lines[3], "--etcd-servers=https://10.0.0.1:2379,https://10.0.0.2:2379");
    assert_eq!(lines[4], "--bind-address=10.0.0.1");
    assert_eq!(lines[5], "--secure-port=6443");
    assert_eq!(lines[6], "--advertise-address=10.0.0.1");
    assert_eq!(lines[7], "--allow-privileged=true \\");
    assert_eq!(lines[lines.len() - 1], "--audit-log-path=/opt/kubernetes/logs/k8s-audit.log\"");
    assert_eq!(lines.len(), 37);
    assert!(text.ends_with("k8s-audit.log\"\n"));
}

#[test]
fn node_agent_environment_file() {
    let text = KubeletCfg::generate("worker01");
    let expected = "KUBELET_OPTS=\"--logtostderr=false \\\n\
--v=2 \\\n\
--log-dir=/opt/kubernetes/logs \\\n\
--hostname-override=worker01 \\\n\
--network-plugin=cni \\\n\
--kubeconfig=/opt/kubernetes/cfg/kubelet.kubeconfig \\\n\
--bootstrap-kubeconfig=/opt/kubernetes/cfg/bootstrap.kubeconfig \\\n\
--config=/opt/kubernetes/cfg/kubelet-config.yml \\\n\
--cert-dir=/opt/kubernetes/ssl \\\n\
--pod-infra-container-image=registry.cn-hangzhou.aliyuncs.com/google-containers/pause-amd64:3.0\"\n\n";
    assert_eq!(text, expected);
}

#[test]
fn service_proxy_settings_file() {
    let text = KubeProxyConfig::generate("master01");
    let expected = "kind: KubeProxyConfiguration\n\
apiVersion: kubeproxy.config.k8s.io/v1alpha1\n\
bindAddress: 0.0.0.0\n\
metricsBindAddress: 0.0.0.0:10249\n\
clientConnection:\n  kubeconfig: /opt/kubernetes/cfg/kube-proxy.kubeconfig\n\
hostnameOverride: master01 \\\n\
clusterCIDR: 10.244.0.0/16\n\n";
    assert_eq!(text, expected);
}
