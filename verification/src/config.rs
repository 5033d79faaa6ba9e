//! The topology model: which hosts form the cluster, which role each plays,
//! and the certificate parameters of every component.

use vstd::prelude::*;
use vstd::string::*;
use crate::text::{contains, contains_seq, owned, str_eq, views};

verus! {

/// The part a host plays in the cluster.
#[derive(Clone, Copy, Debug, PartialEq, Eq, Structural)]
pub enum Role {
    Control,
    Worker,
}

/// The role a host name stands for: names that hold `master` are control
/// hosts, all others are workers.
pub open spec fn role_of(name: Seq<char>) -> Role {
    if contains_seq(name, "master"@) {
        Role::Control
    } else {
        Role::Worker
    }
}

/// One cluster member: its address and its name.
#[derive(Debug, PartialEq, Eq)]
pub struct Host {
    pub ip: String,
    pub name: String,
}

impl Host {
    /// The host at the address `ip` with the name `name`.
    pub fn new(ip: &str, name: &str) -> (r: Host)
        ensures
            r.ip@ == ip@,
            r.name@ == name@,
    {
        Host { ip: owned(ip), name: owned(name) }
    }

    /// The role of this host, read from its name.
    pub open spec fn spec_role(&self) -> Role {
        role_of(self.name@)
    }

    /// The role of this host, read from its name.
    pub fn role(&self) -> (r: Role)
        ensures
            r == self.spec_role(),
    {
        if contains(self.name.as_str(), "master") {
            Role::Control
        } else {
            Role::Worker
        }
    }
}

/// The addresses of `hosts`, in order.
pub open spec fn host_ips(hosts: Seq<Host>) -> Seq<Seq<char>> {
    Seq::new(hosts.len(), |i: int| hosts[i].ip@)
}

/// No address occurs twice among `hosts`.
pub open spec fn distinct_ips(hosts: Seq<Host>) -> bool {
    forall|i: int, j: int|
        0 <= i < hosts.len() && 0 <= j < hosts.len() && i != j ==> hosts[i].ip@ != hosts[j].ip@
}

/// The identities for which a certificate is issued.
#[derive(Clone, Copy, Debug, PartialEq, Eq, Structural)]
pub enum CertRole {
    StorageTier,
    ControlPlaneApi,
    ControllerManager,
    Scheduler,
    AdminCredential,
    ServiceProxy,
}

/// The subject fields of a certificate. The storage tier names no
/// organization and no organizational unit.
#[derive(Debug)]
pub struct Subject {
    pub country: String,
    pub locality: String,
    pub state: String,
    pub organization: Option<String>,
    pub organizational_unit: Option<String>,
}

/// The certificate parameters of one role.
#[derive(Debug)]
pub struct SigningSpec {
    pub common_name: String,
    pub key_algo: String,
    pub key_size: i64,
    pub expiry: String,
    pub usages: Vec<String>,
    pub subject: Subject,
}

/// The view of an optional string.
pub open spec fn opt_view(s: Option<String>) -> Option<Seq<char>> {
    match s {
        Some(t) => Some(t@),
        None => None,
    }
}

/// `c` is a decimal digit.
pub open spec fn is_digit(c: char) -> bool {
    '0' <= c && c <= '9'
}

/// `s` is a whole, positive number of hours: decimal digits, not all of them
/// zero, followed by `h`.
pub open spec fn positive_hours(s: Seq<char>) -> bool {
    &&& s.len() >= 2
    &&& s[s.len() - 1] == 'h'
    &&& forall|i: int| 0 <= i < s.len() - 1 ==> is_digit(#[trigger] s[i])
    &&& exists|i: int| 0 <= i < s.len() - 1 && #[trigger] s[i] != '0'
}

/// Whether `s` is a whole, positive number of hours.
pub fn is_positive_hours(s: &str) -> (r: bool)
    ensures
        r == positive_hours(s@),
{
    let n: usize = s.unicode_len();
    if n < 2 {
        return false;
    }
    if s.get_char(n - 1) != 'h' {
        return false;
    }
    let mut nonzero: bool = false;
    let mut i: usize = 0;
    while i < n - 1
        invariant
            n == s@.len(),
            n >= 2,
            i <= n - 1,
            forall|k: int| 0 <= k < i ==> is_digit(#[trigger] s@[k]),
            nonzero == (exists|k: int| 0 <= k < i && #[trigger] s@[k] != '0'),
        decreases n - i,
    {
        let c: char = s.get_char(i);
        if !('0' <= c && c <= '9') {
            return false;
        }
        if c != '0' {
            nonzero = true;
        }
        i = i + 1;
    }
    nonzero
}

impl SigningSpec {
    /// The validity duration is positive, and an RSA key has at least 2048
    /// bits.
    pub open spec fn valid(&self) -> bool {
        &&& positive_hours(self.expiry@)
        &&& (self.key_algo@ == "rsa"@ ==> self.key_size >= 2048)
    }

    /// Whether the parameters are consistent.
    pub fn is_valid(&self) -> (r: bool)
        ensures
            r == self.valid(),
    {
        if !is_positive_hours(self.expiry.as_str()) {
            return false;
        }
        if str_eq(self.key_algo.as_str(), "rsa") {
            self.key_size >= 2048
        } else {
            true
        }
    }
}

/// Why a configuration is refused.
#[derive(Clone, Copy, Debug, PartialEq, Eq, Structural)]
pub enum ConfigError {
    /// Two hosts share one address.
    DuplicateHost,
    /// The certificate parameters of this role are inconsistent.
    InvalidSigningSpec(CertRole),
}

/// The description of the target cluster, fixed for a whole run.
#[allow(non_snake_case)]
#[derive(Debug)]
pub struct Config {
    /// The machine running this program.
    pub instance_name: String,
    /// The address of the machine running this program.
    pub instance_ip: String,
    /// The members of the cluster, in the order in which they are listed.
    pub instance_hosts: Vec<Host>,
    pub cfssl_url: String,
    pub cfssljson_url: String,
    pub cfsslcertinfo_url: String,
    pub etcd_url: String,
    pub docker_url: String,
    pub kubernetes_url: String,
    /// The common name of the storage tier's own root certificate.
    pub etcd_ca_CN: String,
    pub etcd: SigningSpec,
    pub kube_apiserver: SigningSpec,
    pub kube_controller_manager: SigningSpec,
    pub kube_scheduler: SigningSpec,
    pub kube_ctl: SigningSpec,
    pub kube_proxy: SigningSpec,
}

impl Config {
    /// The certificate parameters of `role`.
    pub open spec fn spec_signing_spec(&self, role: CertRole) -> SigningSpec {
        match role {
            CertRole::StorageTier => self.etcd,
            CertRole::ControlPlaneApi => self.kube_apiserver,
            CertRole::ControllerManager => self.kube_controller_manager,
            CertRole::Scheduler => self.kube_scheduler,
            CertRole::AdminCredential => self.kube_ctl,
            CertRole::ServiceProxy => self.kube_proxy,
        }
    }

    /// The certificate parameters of `role`: every role has exactly one set.
    pub fn signing_spec(&self, role: CertRole) -> (r: &SigningSpec)
        ensures
            *r == self.spec_signing_spec(role),
    {
        match role {
            CertRole::StorageTier => &self.etcd,
            CertRole::ControlPlaneApi => &self.kube_apiserver,
            CertRole::ControllerManager => &self.kube_controller_manager,
            CertRole::Scheduler => &self.kube_scheduler,
            CertRole::AdminCredential => &self.kube_ctl,
            CertRole::ServiceProxy => &self.kube_proxy,
        }
    }

    /// The first role, in issuing order, whose parameters are inconsistent.
    pub open spec fn first_invalid(&self) -> Option<CertRole> {
        if !self.etcd.valid() {
            Some(CertRole::StorageTier)
        } else if !self.kube_apiserver.valid() {
            Some(CertRole::ControlPlaneApi)
        } else if !self.kube_controller_manager.valid() {
            Some(CertRole::ControllerManager)
        } else if !self.kube_scheduler.valid() {
            Some(CertRole::Scheduler)
        } else if !self.kube_ctl.valid() {
            Some(CertRole::AdminCredential)
        } else if !self.kube_proxy.valid() {
            Some(CertRole::ServiceProxy)
        } else {
            None
        }
    }

    /// What `validate` answers.
    pub open spec fn check(&self) -> Result<(), ConfigError> {
        if !distinct_ips(self.instance_hosts@) {
            Err(ConfigError::DuplicateHost)
        } else {
            match self.first_invalid() {
                Some(role) => Err(ConfigError::InvalidSigningSpec(role)),
                None => Ok(()),
            }
        }
    }

    /// The configuration is usable: addresses are unique and every role's
    /// parameters are consistent.
    pub open spec fn wf(&self) -> bool {
        self.check() is Ok
    }

    /// Whether no address is listed twice.
    pub fn has_distinct_ips(&self) -> (r: bool)
        ensures
            r == distinct_ips(self.instance_hosts@),
    {
        let n: usize = self.instance_hosts.len();
        let mut i: usize = 0;
        while i < n
            invariant
                n == self.instance_hosts@.len(),
                i <= n,
                forall|a: int, b: int|
                    0 <= a < i && 0 <= b < n && a != b
                        ==> self.instance_hosts@[a].ip@ != self.instance_hosts@[b].ip@,
            decreases n - i,
        {
            let mut j: usize = 0;
            while j < n
                invariant
                    n == self.instance_hosts@.len(),
                    i < n,
                    j <= n,
                    forall|b: int|
                        0 <= b < j && i != b
                            ==> self.instance_hosts@[i as int].ip@ != self.instance_hosts@[b].ip@,
                decreases n - j,
            {
                if i != j && str_eq(
                    self.instance_hosts[i].ip.as_str(),
                    self.instance_hosts[j].ip.as_str(),
                ) {
                    return false;
                }
                j = j + 1;
            }
            i = i + 1;
        }
        true
    }

    /// Checks the configuration before any phase runs.
    pub fn validate(&self) -> (r: Result<(), ConfigError>)
        ensures
            r == self.check(),
    {
        if !self.has_distinct_ips() {
            Err(ConfigError::DuplicateHost)
        } else if !self.etcd.is_valid() {
            Err(ConfigError::InvalidSigningSpec(CertRole::StorageTier))
        } else if !self.kube_apiserver.is_valid() {
            Err(ConfigError::InvalidSigningSpec(CertRole::ControlPlaneApi))
        } else if !self.kube_controller_manager.is_valid() {
            Err(ConfigError::InvalidSigningSpec(CertRole::ControllerManager))
        } else if !self.kube_scheduler.is_valid() {
            Err(ConfigError::InvalidSigningSpec(CertRole::Scheduler))
        } else if !self.kube_ctl.is_valid() {
            Err(ConfigError::InvalidSigningSpec(CertRole::AdminCredential))
        } else if !self.kube_proxy.is_valid() {
            Err(ConfigError::InvalidSigningSpec(CertRole::ServiceProxy))
        } else {
            Ok(())
        }
    }
}

/// The usages of the template's signing profile, in order.
pub open spec fn template_usages() -> Seq<Seq<char>> {
    seq!["signing"@, "key encipherment"@, "server auth"@, "client auth"@]
}

/// `s` is the template's set of parameters for the given common name,
/// organization and organizational unit.
pub open spec fn is_template_spec(
    s: SigningSpec,
    common_name: Seq<char>,
    organization: Option<Seq<char>>,
    organizational_unit: Option<Seq<char>>,
) -> bool {
    &&& s.common_name@ == common_name
    &&& s.key_algo@ == "rsa"@
    &&& s.key_size == 2048
    &&& s.expiry@ == "87600h"@
    &&& views(s.usages@) == template_usages()
    &&& s.subject.country@ == "CN"@
    &&& s.subject.locality@ == "Beijing"@
    &&& s.subject.state@ == "Beijing"@
    &&& opt_view(s.subject.organization) == organization
    &&& opt_view(s.subject.organizational_unit) == organizational_unit
}

/// The template's parameters for one role.
fn template_spec(common_name: &str, organization: Option<&str>, organizational_unit: Option<&str>) -> (r:
    SigningSpec)
    ensures
        is_template_spec(
            r,
            common_name@,
            match organization {
                Some(o) => Some(o@),
                None => None,
            },
            match organizational_unit {
                Some(o) => Some(o@),
                None => None,
            },
        ),
        r.valid(),
{
    let mut usages: Vec<String> = Vec::new();
    usages.push(owned("signing"));
    usages.push(owned("key encipherment"));
    usages.push(owned("server auth"));
    usages.push(owned("client auth"));
    let r = SigningSpec {
        common_name: owned(common_name),
        key_algo: owned("rsa"),
        key_size: 2048,
        expiry: owned("87600h"),
        usages,
        subject: Subject {
            country: owned("CN"),
            locality: owned("Beijing"),
            state: owned("Beijing"),
            organization: match organization {
                Some(o) => Some(owned(o)),
                None => None,
            },
            organizational_unit: match organizational_unit {
                Some(o) => Some(owned(o)),
                None => None,
            },
        },
    };
    proof {
        reveal_strlit("87600h");
        assert(views(r.usages@) =~= template_usages());
        assert(r.expiry@[0] != '0');
    }
    r
}

/// The template's host list.
pub open spec fn template_hosts() -> Seq<(Seq<char>, Seq<char>)> {
    seq![
        ("192.168.221.143"@, "master01"@),
        ("192.168.221.147"@, "worker01"@),
        ("192.168.221.148"@, "worker02"@),
    ]
}

/// The addresses and names of `hosts`, in order.
pub open spec fn host_pairs(hosts: Seq<Host>) -> Seq<(Seq<char>, Seq<char>)> {
    Seq::new(hosts.len(), |i: int| (hosts[i].ip@, hosts[i].name@))
}

/// The configuration that `generate config` writes out as a starting point:
/// one control host and two workers, RSA keys of 2048 bits, ten years of
/// validity.
pub fn generate_config_template() -> (r: Config)
    ensures
        r.instance_name@ == "master01"@,
        r.instance_ip@ == "192.168.221.143"@,
        host_pairs(r.instance_hosts@) == template_hosts(),
        r.cfssl_url@ == "https://pkg.cfssl.org/R1.2/cfssl_linux-amd64"@,
        r.cfssljson_url@ == "https://pkg.cfssl.org/R1.2/cfssljson_linux-amd64"@,
        r.cfsslcertinfo_url@ == "https://pkg.cfssl.org/R1.2/cfssl-certinfo_linux-amd64"@,
        r.etcd_url@
            == "https://github.com/etcd-io/etcd/releases/download/v3.4.9/etcd-v3.4.9-linux-amd64.tar.gz"@,
        r.docker_url@ == "https://download.docker.com/linux/static/stable/x86_64/docker-20.10.9.tgz"@,
        r.kubernetes_url@ == "https://dl.k8s.io/v1.20.15/kubernetes-server-linux-amd64.tar.gz"@,
        r.etcd_ca_CN@ == "etcd CA"@,
        is_template_spec(r.etcd, "etcd"@, None, None),
        is_template_spec(r.kube_apiserver, "kubernetes"@, Some("k8s"@), Some("System"@)),
        is_template_spec(
            r.kube_controller_manager,
            "system:kube-controller-manager"@,
            Some("system:masters"@),
            Some("System"@),
        ),
        is_template_spec(
            r.kube_scheduler,
            "system:kube-scheduler"@,
            Some("system:masters"@),
            Some("System"@),
        ),
        is_template_spec(r.kube_ctl, "admin"@, Some("system:masters"@), Some("System"@)),
        is_template_spec(r.kube_proxy, "system:kube-proxy"@, Some("k8s"@), Some("System"@)),
        r.wf(),
{
    let mut hosts: Vec<Host> = Vec::new();
    hosts.push(Host::new("192.168.221.143", "master01"));
    hosts.push(Host::new("192.168.221.147", "worker01"));
    hosts.push(Host::new("192.168.221.148", "worker02"));
    proof {
        reveal_strlit("192.168.221.143");
        reveal_strlit("192.168.221.147");
        reveal_strlit("192.168.221.148");
        assert("192.168.221.143"@[14] == '3');
        assert("192.168.221.147"@[14] == '7');
        assert("192.168.221.148"@[14] == '8');
        assert(host_pairs(hosts@) =~= template_hosts());
    }
    Config {
        instance_name: owned("master01"),
        instance_ip: owned("192.168.221.143"),
        instance_hosts: hosts,
        cfssl_url: owned("https://pkg.cfssl.org/R1.2/cfssl_linux-amd64"),
        cfssljson_url: owned("https://pkg.cfssl.org/R1.2/cfssljson_linux-amd64"),
        cfsslcertinfo_url: owned("https://pkg.cfssl.org/R1.2/cfssl-certinfo_linux-amd64"),
        etcd_url: owned(
            "https://github.com/etcd-io/etcd/releases/download/v3.4.9/etcd-v3.4.9-linux-amd64.tar.gz",
        ),
        docker_url: owned("https://download.docker.com/linux/static/stable/x86_64/docker-20.10.9.tgz"),
        kubernetes_url: owned("https://dl.k8s.io/v1.20.15/kubernetes-server-linux-amd64.tar.gz"),
        etcd_ca_CN: owned("etcd CA"),
        etcd: template_spec("etcd", None, None),
        kube_apiserver: template_spec("kubernetes", Some("k8s"), Some("System")),
        kube_controller_manager: template_spec(
            "system:kube-controller-manager",
            Some("system:masters"),
            Some("System"),
        ),
        kube_scheduler: template_spec("system:kube-scheduler", Some("system:masters"), Some("System")),
        kube_ctl: template_spec("admin", Some("system:masters"), Some("System")),
        kube_proxy: template_spec("system:kube-proxy", Some("k8s"), Some("System")),
    }
}

} // verus!
