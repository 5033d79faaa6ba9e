//! The certificate authority engine: the requests handed to the signing tool
//! for the root certificate of each tier and for the leaf certificate of each
//! role.

use vstd::prelude::*;
use vstd::string::*;
use crate::config::{host_ips, opt_view, CertRole, Config, SigningSpec, Subject};
use crate::text::{clone_all, owned, views};

verus! {

/// The two certificate hierarchies: the storage tier has a root of its own,
/// every other role chains to the control plane's root.
#[derive(Clone, Copy, Debug, PartialEq, Eq, Structural)]
pub enum Tier {
    Storage,
    ControlPlane,
}

impl Tier {
    /// The role whose parameters describe this tier's root and server
    /// certificate.
    pub open spec fn spec_server_role(self) -> CertRole {
        match self {
            Tier::Storage => CertRole::StorageTier,
            Tier::ControlPlane => CertRole::ControlPlaneApi,
        }
    }

    /// The role whose parameters describe this tier's root and server
    /// certificate.
    pub fn server_role(self) -> (r: CertRole)
        ensures
            r == self.spec_server_role(),
    {
        match self {
            Tier::Storage => CertRole::StorageTier,
            Tier::ControlPlane => CertRole::ControlPlaneApi,
        }
    }

    /// The name of the signing profile that leaves of this tier are issued
    /// under.
    pub open spec fn spec_profile_name(self) -> Seq<char> {
        match self {
            Tier::Storage => "www"@,
            Tier::ControlPlane => "kubernetes"@,
        }
    }

    /// The name of the signing profile that leaves of this tier are issued
    /// under.
    pub fn profile_name(self) -> (r: &'static str)
        ensures
            r@ == self.spec_profile_name(),
    {
        match self {
            Tier::Storage => "www",
            Tier::ControlPlane => "kubernetes",
        }
    }
}

/// The tier whose root signs the leaf of `role`.
pub open spec fn spec_tier_of(role: CertRole) -> Tier {
    match role {
        CertRole::StorageTier => Tier::Storage,
        _ => Tier::ControlPlane,
    }
}

/// The tier whose root signs the leaf of `role`.
pub fn tier_of(role: CertRole) -> (r: Tier)
    ensures
        r == spec_tier_of(role),
{
    match role {
        CertRole::StorageTier => Tier::Storage,
        _ => Tier::ControlPlane,
    }
}

/// The key of a certificate request.
#[derive(Debug, PartialEq, Eq)]
pub struct Key {
    pub algo: String,
    pub size: i64,
}

/// The subject of a certificate request.
#[allow(non_snake_case)]
#[derive(Debug, PartialEq, Eq)]
pub struct Name {
    pub C: String,
    pub L: String,
    pub ST: String,
    pub O: Option<String>,
    pub OU: Option<String>,
}

/// `key` asks for the algorithm and size of `spec`.
pub open spec fn key_matches(key: Key, spec: SigningSpec) -> bool {
    key.algo@ == spec.key_algo@ && key.size == spec.key_size
}

/// `names` is the one subject that `subject` describes.
pub open spec fn names_match(names: Seq<Name>, subject: Subject) -> bool {
    &&& names.len() == 1
    &&& names[0].C@ == subject.country@
    &&& names[0].L@ == subject.locality@
    &&& names[0].ST@ == subject.state@
    &&& opt_view(names[0].O) == opt_view(subject.organization)
    &&& opt_view(names[0].OU) == opt_view(subject.organizational_unit)
}

fn clone_opt(s: &Option<String>) -> (r: Option<String>)
    ensures
        opt_view(r) == opt_view(*s),
{
    match s {
        Some(t) => Some(t.clone()),
        None => None,
    }
}

fn key_of(spec: &SigningSpec) -> (r: Key)
    ensures
        key_matches(r, *spec),
{
    Key { algo: spec.key_algo.clone(), size: spec.key_size }
}

fn names_of(spec: &SigningSpec) -> (r: Vec<Name>)
    ensures
        names_match(r@, spec.subject),
{
    let mut names: Vec<Name> = Vec::new();
    names.push(
        Name {
            C: spec.subject.country.clone(),
            L: spec.subject.locality.clone(),
            ST: spec.subject.state.clone(),
            O: clone_opt(&spec.subject.organization),
            OU: clone_opt(&spec.subject.organizational_unit),
        },
    );
    names
}

/// A named bundle of validity and allowed usages.
#[derive(Debug, PartialEq, Eq)]
pub struct Profile {
    pub name: String,
    pub expiry: String,
    pub usages: Vec<String>,
}

/// The signing policy of one tier: a default validity and one profile.
#[derive(Debug, PartialEq, Eq)]
pub struct CAConfig {
    pub default_expiry: String,
    pub profile: Profile,
}

impl CAConfig {
    /// The signing policy of `tier`: its profile carries the validity and
    /// the usages that the configuration gives to the tier's server role.
    pub fn from(config: &Config, tier: Tier) -> (r: CAConfig)
        ensures
            r.default_expiry@ == config.spec_signing_spec(tier.spec_server_role()).expiry@,
            r.profile.name@ == tier.spec_profile_name(),
            r.profile.expiry@ == config.spec_signing_spec(tier.spec_server_role()).expiry@,
            views(r.profile.usages@) == views(
                config.spec_signing_spec(tier.spec_server_role()).usages@,
            ),
    {
        let spec = config.signing_spec(tier.server_role());
        CAConfig {
            default_expiry: spec.expiry.clone(),
            profile: Profile {
                name: owned(tier.profile_name()),
                expiry: spec.expiry.clone(),
                usages: clone_all(&spec.usages),
            },
        }
    }
}

/// The request for a self-signed root certificate. It names no hosts.
#[allow(non_snake_case)]
#[derive(Debug, PartialEq, Eq)]
pub struct CACsr {
    pub CN: String,
    pub key: Key,
    pub names: Vec<Name>,
}

/// The common name of the root certificate of `tier`.
pub open spec fn root_common_name(config: Config, tier: Tier) -> Seq<char> {
    match tier {
        Tier::Storage => config.etcd_ca_CN@,
        Tier::ControlPlane => config.kube_apiserver.common_name@,
    }
}

impl CACsr {
    /// The request for the root certificate of `tier`.
    pub fn from(config: &Config, tier: Tier) -> (r: CACsr)
        ensures
            r.CN@ == root_common_name(*config, tier),
            key_matches(r.key, config.spec_signing_spec(tier.spec_server_role())),
            names_match(r.names@, config.spec_signing_spec(tier.spec_server_role()).subject),
    {
        let spec = config.signing_spec(tier.server_role());
        CACsr {
            CN: match tier {
                Tier::Storage => config.etcd_ca_CN.clone(),
                Tier::ControlPlane => config.kube_apiserver.common_name.clone(),
            },
            key: key_of(spec),
            names: names_of(spec),
        }
    }
}

/// The virtual service address, the loopback address and the service names
/// under which the control plane's endpoint is reached from inside the
/// cluster.
pub open spec fn well_known_hosts() -> Seq<Seq<char>> {
    seq![
        "10.0.0.1"@,
        "127.0.0.1"@,
        "kubernetes"@,
        "kubernetes.default"@,
        "kubernetes.default.svc"@,
        "kubernetes.default.svc.cluster"@,
        "kubernetes.default.svc.cluster.local"@,
    ]
}

/// The alternative names of the server certificate of `tier` in a cluster
/// with the member addresses `ips`.
pub open spec fn server_hosts(tier: Tier, ips: Seq<Seq<char>>) -> Seq<Seq<char>> {
    match tier {
        Tier::Storage => ips,
        Tier::ControlPlane => well_known_hosts() + ips,
    }
}

/// The request for a server certificate: one that is presented by every
/// cluster member.
#[allow(non_snake_case)]
#[derive(Debug, PartialEq, Eq)]
pub struct ServerCsr {
    pub CN: String,
    pub hosts: Vec<String>,
    pub key: Key,
    pub names: Vec<Name>,
}

impl ServerCsr {
    /// The request for the server certificate of `tier`. Its alternative
    /// names hold every member address, after the well-known names where the
    /// tier has any.
    pub fn from(config: &Config, tier: Tier) -> (r: ServerCsr)
        ensures
            r.CN@ == config.spec_signing_spec(tier.spec_server_role()).common_name@,
            views(r.hosts@) == server_hosts(tier, host_ips(config.instance_hosts@)),
            key_matches(r.key, config.spec_signing_spec(tier.spec_server_role())),
            names_match(r.names@, config.spec_signing_spec(tier.spec_server_role()).subject),
    {
        let spec = config.signing_spec(tier.server_role());
        let mut hosts: Vec<String> = Vec::new();
        match tier {
            Tier::Storage => {},
            Tier::ControlPlane => {
                hosts.push(owned("10.0.0.1"));
                hosts.push(owned("127.0.0.1"));
                hosts.push(owned("kubernetes"));
                hosts.push(owned("kubernetes.default"));
                hosts.push(owned("kubernetes.default.svc"));
                hosts.push(owned("kubernetes.default.svc.cluster"));
                hosts.push(owned("kubernetes.default.svc.cluster.local"));
            },
        }
        let ghost fixed = views(hosts@);
        let base: usize = hosts.len();
        proof {
            assert(fixed =~= match tier {
                Tier::Storage => Seq::<Seq<char>>::empty(),
                Tier::ControlPlane => well_known_hosts(),
            });
        }
        let n: usize = config.instance_hosts.len();
        let mut i: usize = 0;
        while i < n
            invariant
                n == config.instance_hosts@.len(),
                i <= n,
                base <= 7,
                hosts@.len() == base + i,
                views(hosts@) == fixed + host_ips(config.instance_hosts@).subrange(0, i as int),
            decreases n - i,
        {
            let ghost before = views(hosts@);
            hosts.push(config.instance_hosts[i].ip.clone());
            proof {
                assert(views(hosts@) =~= before.push(config.instance_hosts@[i as int].ip@));
                assert(host_ips(config.instance_hosts@).subrange(0, i + 1) =~= host_ips(
                    config.instance_hosts@,
                ).subrange(0, i as int).push(config.instance_hosts@[i as int].ip@));
                assert(views(hosts@) =~= fixed + host_ips(config.instance_hosts@).subrange(
                    0,
                    i + 1,
                ));
            }
            i = i + 1;
        }
        proof {
            assert(host_ips(config.instance_hosts@).subrange(0, n as int) =~= host_ips(
                config.instance_hosts@,
            ));
            assert(views(hosts@) =~= server_hosts(tier, host_ips(config.instance_hosts@)));
        }
        ServerCsr { CN: spec.common_name.clone(), hosts, key: key_of(spec), names: names_of(spec) }
    }
}

/// Every member address of the cluster is among the alternative names of
/// each tier's server certificate request.
pub proof fn server_hosts_cover_members(tier: Tier, ips: Seq<Seq<char>>, i: int)
    requires
        0 <= i < ips.len(),
    ensures
        server_hosts(tier, ips).contains(ips[i]),
{
    match tier {
        Tier::Storage => {
            assert(server_hosts(tier, ips)[i] == ips[i]);
        },
        Tier::ControlPlane => {
            assert(server_hosts(tier, ips)[well_known_hosts().len() + i] == ips[i]);
        },
    }
}

/// The four parts of a request for a client-only identity with the
/// parameters `spec`: the list of hosts is empty.
#[allow(non_snake_case)]
pub open spec fn is_client_request(
    CN: String,
    hosts: Vec<String>,
    key: Key,
    names: Vec<Name>,
    spec: SigningSpec,
) -> bool {
    &&& CN@ == spec.common_name@
    &&& hosts@.len() == 0
    &&& key_matches(key, spec)
    &&& names_match(names@, spec.subject)
}

/// The request for the client certificate of the controller manager. It names no hosts.
#[allow(non_snake_case)]
#[derive(Debug, PartialEq, Eq)]
pub struct KubeControllerManagerCsr {
    pub CN: String,
    pub hosts: Vec<String>,
    pub key: Key,
    pub names: Vec<Name>,
}

impl KubeControllerManagerCsr {
    /// The request for the client certificate of the controller manager, with the
    /// parameters that the configuration gives to that role.
    pub fn from(config: &Config) -> (r: KubeControllerManagerCsr)
        ensures
            is_client_request(
                r.CN,
                r.hosts,
                r.key,
                r.names,
                config.spec_signing_spec(CertRole::ControllerManager),
            ),
    {
        let spec = &config.kube_controller_manager;
        KubeControllerManagerCsr {
            CN: spec.common_name.clone(),
            hosts: Vec::new(),
            key: key_of(spec),
            names: names_of(spec),
        }
    }
}

/// The request for the client certificate of the scheduler. It names no hosts.
#[allow(non_snake_case)]
#[derive(Debug, PartialEq, Eq)]
pub struct KubeSchedulerCsr {
    pub CN: String,
    pub hosts: Vec<String>,
    pub key: Key,
    pub names: Vec<Name>,
}

impl KubeSchedulerCsr {
    /// The request for the client certificate of the scheduler, with the
    /// parameters that the configuration gives to that role.
    pub fn from(config: &Config) -> (r: KubeSchedulerCsr)
        ensures
            is_client_request(
                r.CN,
                r.hosts,
                r.key,
                r.names,
                config.spec_signing_spec(CertRole::Scheduler),
            ),
    {
        let spec = &config.kube_scheduler;
        KubeSchedulerCsr {
            CN: spec.common_name.clone(),
            hosts: Vec::new(),
            key: key_of(spec),
            names: names_of(spec),
        }
    }
}

/// The request for the client certificate of the administrator. It names no hosts.
#[allow(non_snake_case)]
#[derive(Debug, PartialEq, Eq)]
pub struct KubectlCsr {
    pub CN: String,
    pub hosts: Vec<String>,
    pub key: Key,
    pub names: Vec<Name>,
}

impl KubectlCsr {
    /// The request for the client certificate of the administrator, with the
    /// parameters that the configuration gives to that role.
    pub fn from(config: &Config) -> (r: KubectlCsr)
        ensures
            is_client_request(
                r.CN,
                r.hosts,
                r.key,
                r.names,
                config.spec_signing_spec(CertRole::AdminCredential),
            ),
    {
        let spec = &config.kube_ctl;
        KubectlCsr {
            CN: spec.common_name.clone(),
            hosts: Vec::new(),
            key: key_of(spec),
            names: names_of(spec),
        }
    }
}

/// The request for the client certificate of the service proxy. It names no hosts.
#[allow(non_snake_case)]
#[derive(Debug, PartialEq, Eq)]
pub struct KubeProxyCsr {
    pub CN: String,
    pub hosts: Vec<String>,
    pub key: Key,
    pub names: Vec<Name>,
}

impl KubeProxyCsr {
    /// The request for the client certificate of the service proxy, with the
    /// parameters that the configuration gives to that role.
    pub fn from(config: &Config) -> (r: KubeProxyCsr)
        ensures
            is_client_request(
                r.CN,
                r.hosts,
                r.key,
                r.names,
                config.spec_signing_spec(CertRole::ServiceProxy),
            ),
    {
        let spec = &config.kube_proxy;
        KubeProxyCsr {
            CN: spec.common_name.clone(),
            hosts: Vec::new(),
            key: key_of(spec),
            names: names_of(spec),
        }
    }
}

/// Why issuing a certificate failed.
#[derive(Clone, Copy, Debug, PartialEq, Eq, Structural)]
pub enum PKIIssuanceError {
    /// The signing tool ended with this status, which is not zero.
    SignerFailed(i32),
    /// The signing tool ended well, but its output holds no certificate and
    /// key.
    UnparsableOutput,
}

/// What one run of the signing tool amounts to: issuance succeeded exactly
/// when the tool ended with status zero and its output could be read.
pub open spec fn issuance(exit_code: i32, parsable: bool) -> Result<(), PKIIssuanceError> {
    if exit_code != 0 {
        Err(PKIIssuanceError::SignerFailed(exit_code))
    } else if !parsable {
        Err(PKIIssuanceError::UnparsableOutput)
    } else {
        Ok(())
    }
}

/// Judges one run of the signing tool.
pub fn issuance_result(exit_code: i32, parsable: bool) -> (r: Result<(), PKIIssuanceError>)
    ensures
        r == issuance(exit_code, parsable),
{
    if exit_code != 0 {
        Err(PKIIssuanceError::SignerFailed(exit_code))
    } else if !parsable {
        Err(PKIIssuanceError::UnparsableOutput)
    } else {
        Ok(())
    }
}

/// The name under which the certificate and key of `role` are stored, and
/// after which its request file is named.
pub open spec fn spec_leaf_name(role: CertRole) -> Seq<char> {
    match role {
        CertRole::StorageTier => "server"@,
        CertRole::ControlPlaneApi => "server"@,
        CertRole::ControllerManager => "kube-controller-manager"@,
        CertRole::Scheduler => "kube-scheduler"@,
        CertRole::AdminCredential => "admin"@,
        CertRole::ServiceProxy => "kube-proxy"@,
    }
}

/// The name under which the certificate and key of `role` are stored.
pub fn leaf_name(role: CertRole) -> (r: &'static str)
    ensures
        r@ == spec_leaf_name(role),
{
    match role {
        CertRole::StorageTier => "server",
        CertRole::ControlPlaneApi => "server",
        CertRole::ControllerManager => "kube-controller-manager",
        CertRole::Scheduler => "kube-scheduler",
        CertRole::AdminCredential => "admin",
        CertRole::ServiceProxy => "kube-proxy",
    }
}

/// One run of the signing tool: the arguments of the signer, and those of
/// the program that splits its answer into certificate and key files.
#[derive(Debug, PartialEq, Eq)]
pub struct Issuance {
    pub signer: Vec<String>,
    pub writer: Vec<String>,
}

/// The signer's arguments for a self-signed root certificate.
pub open spec fn root_signer_arguments() -> Seq<Seq<char>> {
    seq!["gencert"@, "-initca"@, "ca-csr.json"@]
}

/// The writer's arguments for a root certificate.
pub open spec fn root_writer_arguments() -> Seq<Seq<char>> {
    seq!["-bare"@, "ca"@, "-"@]
}

/// The signer's arguments for the leaf certificate of `role`: it signs with
/// the root of the role's tier, under that tier's profile.
pub open spec fn leaf_signer_arguments(role: CertRole) -> Seq<Seq<char>> {
    seq![
        "gencert"@,
        "-ca=ca.pem"@,
        "-ca-key=ca-key.pem"@,
        "-config=ca-config.json"@,
        "-profile="@ + spec_tier_of(role).spec_profile_name(),
        spec_leaf_name(role) + "-csr.json"@,
    ]
}

/// The writer's arguments for the leaf certificate of `role`.
pub open spec fn leaf_writer_arguments(role: CertRole) -> Seq<Seq<char>> {
    seq!["-bare"@, spec_leaf_name(role)]
}

/// How the root certificate of a tier is issued: the signer is run on the
/// tier's root request in its mode for new authorities.
pub fn issue_root() -> (r: Issuance)
    ensures
        views(r.signer@) == root_signer_arguments(),
        views(r.writer@) == root_writer_arguments(),
{
    let mut signer: Vec<String> = Vec::new();
    signer.push(owned("gencert"));
    signer.push(owned("-initca"));
    signer.push(owned("ca-csr.json"));
    let mut writer: Vec<String> = Vec::new();
    writer.push(owned("-bare"));
    writer.push(owned("ca"));
    writer.push(owned("-"));
    proof {
        assert(views(signer@) =~= root_signer_arguments());
        assert(views(writer@) =~= root_writer_arguments());
    }
    Issuance { signer, writer }
}

/// How the leaf certificate of `role` is issued: the signer is run on the
/// role's request, against the root of the role's tier and under the
/// profile of that tier.
pub fn issue_leaf(role: CertRole) -> (r: Issuance)
    ensures
        views(r.signer@) == leaf_signer_arguments(role),
        views(r.writer@) == leaf_writer_arguments(role),
{
    let mut profile: String = owned("-profile=");
    profile.append(tier_of(role).profile_name());
    let mut request: String = owned(leaf_name(role));
    request.append("-csr.json");
    let mut signer: Vec<String> = Vec::new();
    signer.push(owned("gencert"));
    signer.push(owned("-ca=ca.pem"));
    signer.push(owned("-ca-key=ca-key.pem"));
    signer.push(owned("-config=ca-config.json"));
    signer.push(profile);
    signer.push(request);
    let mut writer: Vec<String> = Vec::new();
    writer.push(owned("-bare"));
    writer.push(owned(leaf_name(role)));
    proof {
        assert(views(signer@) =~= leaf_signer_arguments(role));
        assert(views(writer@) =~= leaf_writer_arguments(role));
    }
    Issuance { signer, writer }
}

} // verus!
