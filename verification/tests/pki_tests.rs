use rk8s::config::{generate_config_template, CertRole, Host};
use rk8s::pki::{
    issuance_result, issue_leaf, issue_root, leaf_name, tier_of, CAConfig, CACsr,
    KubeControllerManagerCsr, KubeProxyCsr, KubeSchedulerCsr, KubectlCsr, PKIIssuanceError,
    ServerCsr, Tier,
};

#[test]
fn storage_server_request_names_every_member() {
    let config = generate_config_template();
    let csr = ServerCsr::from(&config, Tier::Storage);
    assert_eq!(csr.CN, "etcd");
    assert_eq!(csr.hosts, vec!["192.168.221.143", "192.168.221.147", "192.168.221.148"]);
    assert_eq!(csr.key.algo, "rsa");
    assert_eq!(csr.key.size, 2048);
    assert_eq!(csr.names.len(), 1);
    assert_eq!(csr.names[0].C, "CN");
    assert_eq!(csr.names[0].L, "Beijing");
    assert_eq!(csr.names[0].ST, "Beijing");
    assert_eq!(csr.names[0].O, None);
    assert_eq!(csr.names[0].OU, None);
}

#[test]
fn control_plane_server_request_adds_the_service_names() {
    let config = generate_config_template();
    let csr = ServerCsr::from(&config, Tier::ControlPlane);
    assert_eq!(csr.CN, "kubernetes");
    assert_eq!(
        csr.hosts,
        vec![
            "10.0.0.1",
            "127.0.0.1",
            "kubernetes",
            "kubernetes.default",
            "kubernetes.default.svc",
            "kubernetes.default.svc.cluster",
            "kubernetes.default.svc.cluster.local",
            "192.168.221.143",
            "192.168.221.147",
            "192.168.221.148",
        ]
    );
    assert_eq!(csr.names[0].O, Some("k8s".to_string()));
    assert_eq!(csr.names[0].OU, Some("System".to_string()));
}

#[test]
fn server_requests_cover_the_configured_hosts() {
    let mut config = generate_config_template();
    config.instance_hosts.push(Host::new("10.9.8.7", "worker03"));
    for tier in [Tier::Storage, Tier::ControlPlane] {
        let csr = ServerCsr::from(&config, tier);
        for host in &config.instance_hosts {
            assert!(csr.hosts.contains(&host.ip));
        }
    }
}

#[test]
fn server_request_without_members() {
    let mut config = generate_config_template();
    config.instance_hosts = Vec::new();
    assert!(ServerCsr::from(&config, Tier::Storage).hosts.is_empty());
    assert_eq!(ServerCsr::from(&config, Tier::ControlPlane).hosts.len(), 7);
}

#[test]
fn client_requests_name_no_hosts() {
    let config = generate_config_template();
    let manager = KubeControllerManagerCsr::from(&config);
    assert_eq!(manager.CN, "system:kube-controller-manager");
    assert!(manager.hosts.is_empty());
    assert_eq!(manager.key.size, 2048);
    assert_eq!(manager.names[0].O, Some("system:masters".to_string()));
    let scheduler = KubeSchedulerCsr::from(&config);
    assert_eq!(scheduler.CN, "system:kube-scheduler");
    assert!(scheduler.hosts.is_empty());
    let admin = KubectlCsr::from(&config);
    assert_eq!(admin.CN, "admin");
    assert!(admin.hosts.is_empty());
    assert_eq!(admin.names[0].O, Some("system:masters".to_string()));
    let proxy = KubeProxyCsr::from(&config);
    assert_eq!(proxy.CN, "system:kube-proxy");
    assert!(proxy.hosts.is_empty());
    assert_eq!(proxy.names[0].O, Some("k8s".to_string()));
    assert_eq!(proxy.names[0].OU, Some("System".to_string()));
}

#[test]
fn client_request_follows_the_configuration() {
    let mut config = generate_config_template();
    config.kube_ctl.common_name = "operator".to_string();
    config.kube_ctl.key_algo = "ecdsa".to_string();
    config.kube_ctl.key_size = 384;
    config.kube_ctl.subject.country = "DE".to_string();
    let admin = KubectlCsr::from(&config);
    assert_eq!(admin.CN, "operator");
    assert_eq!(admin.key.algo, "ecdsa");
    assert_eq!(admin.key.size, 384);
    assert_eq!(admin.names[0].C, "DE");
}

#[test]
fn root_requests() {
    let config = generate_config_template();
    let storage = CACsr::from(&config, Tier::Storage);
    assert_eq!(storage.CN, "etcd CA");
    assert_eq!(storage.key.algo, "rsa");
    assert_eq!(storage.names[0].O, None);
    let control = CACsr::from(&config, Tier::ControlPlane);
    assert_eq!(control.CN, "kubernetes");
    assert_eq!(control.names[0].O, Some("k8s".to_string()));
}

#[test]
fn signing_policy_per_tier() {
    let mut config = generate_config_template();
    config.etcd.expiry = "100h".to_string();
    config.kube_apiserver.usages = vec!["signing".to_string()];
    let storage = CAConfig::from(&config, Tier::Storage);
    assert_eq!(storage.default_expiry, "100h");
    assert_eq!(storage.profile.name, "www");
    assert_eq!(storage.profile.expiry, "100h");
    assert_eq!(
        storage.profile.usages,
        vec!["signing", "key encipherment", "server auth", "client auth"]
    );
    let control = CAConfig::from(&config, Tier::ControlPlane);
    assert_eq!(control.default_expiry, "87600h");
    assert_eq!(control.profile.name, "kubernetes");
    assert_eq!(control.profile.usages, vec!["signing"]);
}

#[test]
fn tiers_and_names_of_roles() {
    assert_eq!(tier_of(CertRole::StorageTier), Tier::Storage);
    assert_eq!(tier_of(CertRole::ControlPlaneApi), Tier::ControlPlane);
    assert_eq!(tier_of(CertRole::AdminCredential), Tier::ControlPlane);
    assert_eq!(Tier::Storage.server_role(), CertRole::StorageTier);
    assert_eq!(Tier::ControlPlane.server_role(), CertRole::ControlPlaneApi);
    assert_eq!(leaf_name(CertRole::StorageTier), "server");
    assert_eq!(leaf_name(CertRole::AdminCredential), "admin");
    assert_eq!(leaf_name(CertRole::ServiceProxy), "kube-proxy");
}

#[test]
fn root_issuance_arguments() {
    let run = issue_root();
    assert_eq!(run.signer, vec!["gencert", "-initca", "ca-csr.json"]);
    assert_eq!(run.writer, vec!["-bare", "ca", "-"]);
}

#[test]
fn leaf_issuance_arguments() {
    let storage = issue_leaf(CertRole::StorageTier);
    assert_eq!(
        storage.signer,
        vec![
            "gencert",
            "-ca=ca.pem",
            "-ca-key=ca-key.pem",
            "-config=ca-config.json",
            "-profile=www",
            "server-csr.json",
        ]
    );
    assert_eq!(storage.writer, vec!["-bare", "server"]);
    let scheduler = issue_leaf(CertRole::Scheduler);
    assert_eq!(scheduler.signer[4], "-profile=kubernetes");
    assert_eq!(scheduler.signer[5], "kube-scheduler-csr.json");
    assert_eq!(scheduler.writer, vec!["-bare", "kube-scheduler"]);
}

#[test]
fn issuance_fails_on_bad_status_or_output() {
    assert_eq!(issuance_result(0, true), Ok(()));
    assert_eq!(issuance_result(1, true), Err(PKIIssuanceError::SignerFailed(1)));
    assert_eq!(issuance_result(-3, false), Err(PKIIssuanceError::SignerFailed(-3)));
    assert_eq!(issuance_result(0, false), Err(PKIIssuanceError::UnparsableOutput));
}
