use rk8s::config::{
    generate_config_template, is_positive_hours, CertRole, Config, ConfigError, Host, Role,
};
use rk8s::text::{clone_all, contains, matches_at, str_eq};

fn template_with_hosts(hosts: Vec<Host>) -> Config {
    let mut config = generate_config_template();
    config.instance_hosts = hosts;
    config
}

#[test]
fn template_lists_one_control_host_and_two_workers() {
    let config = generate_config_template();
    assert_eq!(config.instance_name, "master01");
    assert_eq!(config.instance_ip, "192.168.221.143");
    assert_eq!(
        config.instance_hosts,
        vec![
            Host::new("192.168.221.143", "master01"),
            Host::new("192.168.221.147", "worker01"),
            Host::new("192.168.221.148", "worker02"),
        ]
    );
    assert_eq!(config.instance_hosts[0].role(), Role::Control);
    assert_eq!(config.instance_hosts[1].role(), Role::Worker);
    assert_eq!(config.instance_hosts[2].role(), Role::Worker);
}

#[test]
fn template_gives_every_role_rsa_2048_for_ten_years() {
    let config = generate_config_template();
    for role in [
        CertRole::StorageTier,
        CertRole::ControlPlaneApi,
        CertRole::ControllerManager,
        CertRole::Scheduler,
        CertRole::AdminCredential,
        CertRole::ServiceProxy,
    ] {
        let spec = config.signing_spec(role);
        assert_eq!(spec.key_algo, "rsa");
        assert_eq!(spec.key_size, 2048);
        assert_eq!(spec.expiry, "87600h");
        assert_eq!(
            spec.usages,
            vec!["signing", "key encipherment", "server auth", "client auth"]
        );
        assert_eq!(spec.subject.country, "CN");
        assert_eq!(spec.subject.locality, "Beijing");
        assert_eq!(spec.subject.state, "Beijing");
        assert!(spec.is_valid());
    }
}

#[test]
fn template_names_each_role() {
    let config = generate_config_template();
    assert_eq!(config.etcd_ca_CN, "etcd CA");
    assert_eq!(config.etcd.common_name, "etcd");
    assert_eq!(config.etcd.subject.organization, None);
    assert_eq!(config.etcd.subject.organizational_unit, None);
    assert_eq!(config.kube_apiserver.common_name, "kubernetes");
    assert_eq!(config.kube_apiserver.subject.organization, Some("k8s".to_string()));
    assert_eq!(config.kube_controller_manager.common_name, "system:kube-controller-manager");
    assert_eq!(
        config.kube_controller_manager.subject.organization,
        Some("system:masters".to_string())
    );
    assert_eq!(config.kube_scheduler.common_name, "system:kube-scheduler");
    assert_eq!(config.kube_ctl.common_name, "admin");
    assert_eq!(config.kube_proxy.common_name, "system:kube-proxy");
    assert_eq!(config.kube_proxy.subject.organizational_unit, Some("System".to_string()));
    assert_eq!(config.cfssl_url, "https://pkg.cfssl.org/R1.2/cfssl_linux-amd64");
    assert_eq!(
        config.kubernetes_url,
        "https://dl.k8s.io/v1.20.15/kubernetes-server-linux-amd64.tar.gz"
    );
}

#[test]
fn template_is_valid() {
    assert_eq!(generate_config_template().validate(), Ok(()));
}

#[test]
fn duplicate_address_is_refused() {
    let config = template_with_hosts(vec![
        Host::new("10.0.0.5", "master01"),
        Host::new("10.0.0.6", "worker01"),
        Host::new("10.0.0.5", "worker02"),
    ]);
    assert!(!config.has_distinct_ips());
    assert_eq!(config.validate(), Err(ConfigError::DuplicateHost));
}

#[test]
fn empty_host_list_is_valid() {
    let config = template_with_hosts(Vec::new());
    assert!(config.has_distinct_ips());
    assert_eq!(config.validate(), Ok(()));
}

#[test]
fn short_rsa_key_is_refused() {
    let mut config = generate_config_template();
    config.kube_scheduler.key_size = 1024;
    assert!(!config.kube_scheduler.is_valid());
    assert_eq!(
        config.validate(),
        Err(ConfigError::InvalidSigningSpec(CertRole::Scheduler))
    );
}

#[test]
fn short_key_of_another_algorithm_is_accepted() {
    let mut config = generate_config_template();
    config.etcd.key_algo = "ecdsa".to_string();
    config.etcd.key_size = 256;
    assert!(config.etcd.is_valid());
    assert_eq!(config.validate(), Ok(()));
}

#[test]
fn first_invalid_role_is_reported() {
    let mut config = generate_config_template();
    config.kube_proxy.expiry = "0h".to_string();
    config.kube_apiserver.key_size = 2047;
    assert_eq!(
        config.validate(),
        Err(ConfigError::InvalidSigningSpec(CertRole::ControlPlaneApi))
    );
    config.kube_apiserver.key_size = 2048;
    assert_eq!(
        config.validate(),
        Err(ConfigError::InvalidSigningSpec(CertRole::ServiceProxy))
    );
}

#[test]
fn duplicate_address_is_reported_before_invalid_role() {
    let mut config = template_with_hosts(vec![
        Host::new("10.0.0.5", "master01"),
        Host::new("10.0.0.5", "worker01"),
    ]);
    config.etcd.key_size = 512;
    assert_eq!(config.validate(), Err(ConfigError::DuplicateHost));
}

#[test]
fn validity_must_be_a_positive_number_of_hours() {
    assert!(is_positive_hours("87600h"));
    assert!(is_positive_hours("1h"));
    assert!(is_positive_hours("010h"));
    assert!(!is_positive_hours("0h"));
    assert!(!is_positive_hours("000h"));
    assert!(!is_positive_hours("h"));
    assert!(!is_positive_hours(""));
    assert!(!is_positive_hours("12"));
    assert!(!is_positive_hours("12m"));
    assert!(!is_positive_hours("-5h"));
    assert!(!is_positive_hours("1.5h"));
}

#[test]
fn role_is_read_from_the_name() {
    assert_eq!(Host::new("10.0.0.1", "master01").role(), Role::Control);
    assert_eq!(Host::new("10.0.0.1", "k8s-master").role(), Role::Control);
    assert_eq!(Host::new("10.0.0.1", "worker01").role(), Role::Worker);
    assert_eq!(Host::new("10.0.0.1", "maste").role(), Role::Worker);
    assert_eq!(Host::new("10.0.0.1", "").role(), Role::Worker);
    assert_eq!(Host::new("10.0.0.1", "Master").role(), Role::Worker);
}

#[test]
fn text_helpers_agree_with_std() {
    for (hay, needle) in [
        ("master01", "master"),
        ("worker", "master"),
        ("", ""),
        ("abc", ""),
        ("", "a"),
        ("aab", "ab"),
        ("héllo wörld", "wör"),
        ("abc", "abcd"),
    ] {
        assert_eq!(contains(hay, needle), hay.contains(needle));
        assert_eq!(matches_at(hay, needle, 0), hay.starts_with(needle));
        assert_eq!(str_eq(hay, needle), hay == needle);
    }
    assert!(str_eq("rsa", "rsa"));
    assert!(matches_at("abcab", "ab", 3));
    assert!(!matches_at("abcab", "ab", 4));
    assert!(!matches_at("abcab", "ab", 9));
    assert!(matches_at("abc", "", 3));
    assert!(!matches_at("abc", "", 4));
    let words = vec!["a".to_string(), "bc".to_string()];
    assert_eq!(clone_all(&words), words);
}
