//! The artifact renderer: the text of the per-host configuration files, as a
//! function of the topology alone.

use vstd::prelude::*;
use vstd::string::*;
use crate::config::{Config, Host};
use crate::text::{owned, views};

verus! {

/// `parts` with `sep` between each two neighbours.
pub open spec fn join(parts: Seq<Seq<char>>, sep: Seq<char>) -> Seq<char>
    decreases parts.len(),
{
    if parts.len() == 0 {
        Seq::empty()
    } else if parts.len() == 1 {
        parts[0]
    } else {
        join(parts.drop_last(), sep) + sep + parts.last()
    }
}

/// All of `parts`, one after the other.
pub open spec fn concat_all(parts: Seq<Seq<char>>) -> Seq<char>
    decreases parts.len(),
{
    if parts.len() == 0 {
        Seq::empty()
    } else {
        concat_all(parts.drop_last()) + parts.last()
    }
}

/// Joins `parts` with `sep` between each two neighbours.
pub fn join_strings(parts: &Vec<String>, sep: &str) -> (r: String)
    ensures
        r@ == join(views(parts@), sep@),
{
    let mut out: String = String::new();
    let n: usize = parts.len();
    let mut i: usize = 0;
    while i < n
        invariant
            n == parts@.len(),
            i <= n,
            out@ == join(views(parts@).subrange(0, i as int), sep@),
        decreases n - i,
    {
        let ghost prev = views(parts@).subrange(0, i as int);
        let ghost next = views(parts@).subrange(0, i + 1);
        proof {
            assert(next.drop_last() =~= prev);
            assert(next.last() == parts@[i as int]@);
        }
        if i > 0 {
            out.append(sep);
        } else {
            proof {
                assert(out@ =~= Seq::<char>::empty());
                assert(out@ + parts@[i as int]@ =~= parts@[i as int]@);
            }
        }
        out.append(parts[i].as_str());
        i = i + 1;
    }
    proof {
        assert(views(parts@).subrange(0, n as int) =~= views(parts@));
    }
    out
}

// The fixed pieces of the addresses under which members of the storage tier
// are reached, and the mark that separates entries of a list.
pub const MEMBER_PREFIX: &'static str = "etcd_";

pub const PEER_SCHEME: &'static str = "=https://";

pub const PEER_PORT: &'static str = ":2380";

pub const CLIENT_SCHEME: &'static str = "https://";

pub const CLIENT_PORT: &'static str = ":2379";

pub const COMMA: &'static str = ",";

/// The entry of one member in the storage tier's initial membership:
/// its member name, and the address its peers reach it at.
pub open spec fn member_entry(host: Host) -> Seq<char> {
    MEMBER_PREFIX@ + host.name@ + PEER_SCHEME@ + host.ip@ + PEER_PORT@
}

/// The membership entries of `hosts`, one per host, in order.
pub open spec fn member_entries(hosts: Seq<Host>) -> Seq<Seq<char>> {
    Seq::new(hosts.len(), |i: int| member_entry(hosts[i]))
}

/// The initial membership of the storage tier: the entries of all hosts,
/// separated by commas.
pub open spec fn initial_cluster_spec(hosts: Seq<Host>) -> Seq<char> {
    join(member_entries(hosts), COMMA@)
}

/// The initial membership of the storage tier formed by `hosts`.
pub fn initial_cluster(hosts: &Vec<Host>) -> (r: String)
    ensures
        r@ == initial_cluster_spec(hosts@),
{
    let mut entries: Vec<String> = Vec::new();
    let n: usize = hosts.len();
    let mut i: usize = 0;
    while i < n
        invariant
            n == hosts@.len(),
            i <= n,
            entries@.len() == i,
            forall|k: int| 0 <= k < i ==> entries@[k]@ == member_entry(hosts@[k]),
        decreases n - i,
    {
        let mut e: String = owned(MEMBER_PREFIX);
        e.append(hosts[i].name.as_str());
        e.append(PEER_SCHEME);
        e.append(hosts[i].ip.as_str());
        e.append(PEER_PORT);
        entries.push(e);
        i = i + 1;
    }
    proof {
        assert(views(entries@) =~= member_entries(hosts@));
    }
    join_strings(&entries, COMMA)
}

/// No character of `s` is a comma.
pub open spec fn comma_free(s: Seq<char>) -> bool {
    forall|i: int| 0 <= i < s.len() ==> s[i] != ','
}

/// The number of commas in `s`.
pub open spec fn count_commas(s: Seq<char>) -> nat
    decreases s.len(),
{
    if s.len() == 0 {
        0
    } else {
        count_commas(s.drop_last()) + if s.last() == ',' {
            1nat
        } else {
            0nat
        }
    }
}

/// `s` is not empty, neither begins nor ends with a comma, and holds no two
/// commas in a row.
pub open spec fn well_separated(s: Seq<char>) -> bool {
    &&& s.len() > 0
    &&& s[0] != ','
    &&& s.last() != ','
    &&& forall|i: int| 0 <= i < s.len() - 1 ==> !(#[trigger] s[i] == ',' && s[i + 1] == ',')
}

proof fn count_commas_concat(a: Seq<char>, b: Seq<char>)
    ensures
        count_commas(a + b) == count_commas(a) + count_commas(b),
    decreases b.len(),
{
    if b.len() == 0 {
        assert(a + b =~= a);
    } else {
        assert((a + b).drop_last() =~= a + b.drop_last());
        assert((a + b).last() == b.last());
        count_commas_concat(a, b.drop_last());
    }
}

proof fn count_commas_free(s: Seq<char>)
    requires
        comma_free(s),
    ensures
        count_commas(s) == 0,
    decreases s.len(),
{
    if s.len() > 0 {
        count_commas_free(s.drop_last());
    }
}

proof fn joined_parts_separated(parts: Seq<Seq<char>>)
    requires
        parts.len() > 0,
        forall|i: int| 0 <= i < parts.len() ==> parts[i].len() > 0 && comma_free(#[trigger] parts[i]),
    ensures
        well_separated(join(parts, seq![','])),
        count_commas(join(parts, seq![','])) == parts.len() - 1,
    decreases parts.len(),
{
    let sep = seq![','];
    if parts.len() == 1 {
        assert(comma_free(parts[0]));
        count_commas_free(parts[0]);
    } else {
        let front = parts.drop_last();
        let last = parts.last();
        assert forall|i: int| 0 <= i < front.len() implies front[i].len() > 0 && comma_free(
            #[trigger] front[i],
        ) by {
            assert(front[i] == parts[i]);
        }
        joined_parts_separated(front);
        let head = join(front, sep);
        let whole = head + sep + last;
        assert(join(parts, sep) == whole);
        assert(comma_free(last));
        count_commas_free(last);
        count_commas_concat(head + sep, last);
        count_commas_concat(head, sep);
        assert(count_commas(sep) == 1) by {
            assert(sep.drop_last() =~= Seq::<char>::empty());
            assert(count_commas(sep.drop_last()) == 0);
        }
        assert(whole[0] == head[0]);
        assert(whole.last() == last.last());
        assert forall|i: int| 0 <= i < whole.len() - 1 implies !(#[trigger] whole[i] == ','
            && whole[i + 1] == ',') by {
            if i + 1 < head.len() {
                assert(whole[i] == head[i] && whole[i + 1] == head[i + 1]);
            } else if i + 1 == head.len() {
                assert(whole[i] == head.last());
            } else if i == head.len() {
                assert(whole[i + 1] == last[0]);
            } else {
                assert(whole[i] == last[i - head.len() - 1]);
            }
        }
    }
}

/// The initial membership holds exactly one entry per host: for no host it
/// is empty, and for `n > 0` hosts it holds `n - 1` commas, none of them
/// first, last or next to another. This is stated of hosts whose names and
/// addresses hold no comma themselves.
pub proof fn initial_cluster_has_one_entry_per_host(hosts: Seq<Host>)
    requires
        forall|i: int|
            0 <= i < hosts.len() ==> comma_free(#[trigger] hosts[i].name@) && comma_free(
                hosts[i].ip@,
            ),
    ensures
        member_entries(hosts).len() == hosts.len(),
        hosts.len() == 0 ==> initial_cluster_spec(hosts).len() == 0,
        hosts.len() > 0 ==> well_separated(initial_cluster_spec(hosts)),
        hosts.len() > 0 ==> count_commas(initial_cluster_spec(hosts)) == hosts.len() - 1,
{
    reveal_strlit("etcd_");
    reveal_strlit("=https://");
    reveal_strlit(":2380");
    reveal_strlit(",");
    assert(COMMA@ =~= seq![',']);
    if hosts.len() > 0 {
        let parts = member_entries(hosts);
        assert forall|i: int| 0 <= i < parts.len() implies parts[i].len() > 0 && comma_free(
            #[trigger] parts[i],
        ) by {
            assert(comma_free(hosts[i].name@));
            assert(comma_free(hosts[i].ip@));
            assert(comma_free(MEMBER_PREFIX@));
            assert(comma_free(PEER_SCHEME@));
            assert(comma_free(PEER_PORT@));
        }
        joined_parts_separated(parts);
    }
}

/// The address at which the storage tier serves clients on `host`.
pub open spec fn client_url(host: Host) -> Seq<char> {
    CLIENT_SCHEME@ + host.ip@ + CLIENT_PORT@
}

/// The client addresses of `hosts`, one per host, in order.
pub open spec fn client_urls(hosts: Seq<Host>) -> Seq<Seq<char>> {
    Seq::new(hosts.len(), |i: int| client_url(hosts[i]))
}

/// The storage tier's client addresses, separated by commas.
pub open spec fn etcd_servers_spec(hosts: Seq<Host>) -> Seq<char> {
    join(client_urls(hosts), COMMA@)
}

/// The storage tier's client addresses, as the control plane is given them.
pub fn etcd_servers(hosts: &Vec<Host>) -> (r: String)
    ensures
        r@ == etcd_servers_spec(hosts@),
{
    let mut urls: Vec<String> = Vec::new();
    let n: usize = hosts.len();
    let mut i: usize = 0;
    while i < n
        invariant
            n == hosts@.len(),
            i <= n,
            urls@.len() == i,
            forall|k: int| 0 <= k < i ==> urls@[k]@ == client_url(hosts@[k]),
        decreases n - i,
    {
        let mut e: String = owned(CLIENT_SCHEME);
        e.append(hosts[i].ip.as_str());
        e.append(CLIENT_PORT);
        urls.push(e);
        i = i + 1;
    }
    proof {
        assert(views(urls@) =~= client_urls(hosts@));
    }
    join_strings(&urls, COMMA)
}

/// The line of one host in the table of host names: address, a blank, name,
/// and a line end.
pub open spec fn hosts_line(host: Host) -> Seq<char> {
    host.ip@ + " "@ + host.name@ + "\n"@
}

/// The lines of `hosts`, one per host, in order.
pub open spec fn hosts_lines(hosts: Seq<Host>) -> Seq<Seq<char>> {
    Seq::new(hosts.len(), |i: int| hosts_line(hosts[i]))
}

/// The table of host names that every member appends to its own.
pub fn hosts_table(hosts: &Vec<Host>) -> (r: String)
    ensures
        r@ == concat_all(hosts_lines(hosts@)),
{
    let mut out: String = String::new();
    let n: usize = hosts.len();
    let mut i: usize = 0;
    while i < n
        invariant
            n == hosts@.len(),
            i <= n,
            out@ == concat_all(hosts_lines(hosts@).subrange(0, i as int)),
        decreases n - i,
    {
        let ghost prev = hosts_lines(hosts@).subrange(0, i as int);
        let ghost next = hosts_lines(hosts@).subrange(0, i + 1);
        proof {
            assert(next.drop_last() =~= prev);
            assert(next.last() == hosts_line(hosts@[i as int]));
        }
        let ghost before = out@;
        out.append(hosts[i].ip.as_str());
        out.append(" ");
        out.append(hosts[i].name.as_str());
        out.append("\n");
        proof {
            assert(out@ =~= before + hosts_line(hosts@[i as int]));
        }
        i = i + 1;
    }
    proof {
        assert(hosts_lines(hosts@).subrange(0, n as int) =~= hosts_lines(hosts@));
    }
    out
}

// The fixed pieces of the storage tier's environment file, in the order in
// which they stand between the host's name, its address and the membership.
pub const ETCD_CONF_NAME: &'static str = r#"#[Member]
ETCD_NAME="etcd_"#;

pub const ETCD_CONF_LISTEN_PEER: &'static str = r#""
ETCD_DATA_DIR="/var/lib/etcd/default.etcd"
ETCD_LISTEN_PEER_URLS="https://"#;

pub const ETCD_CONF_LISTEN_CLIENT: &'static str = r#":2380"
ETCD_LISTEN_CLIENT_URLS="https://"#;

pub const ETCD_CONF_ADVERTISE_PEER: &'static str = r#":2379"

#[Clustering]
ETCD_INITIAL_ADVERTISE_PEER_URLS="https://"#;

pub const ETCD_CONF_ADVERTISE_CLIENT: &'static str = r#":2380"
ETCD_ADVERTISE_CLIENT_URLS="https://"#;

pub const ETCD_CONF_CLUSTER: &'static str = r#":2379"
ETCD_INITIAL_CLUSTER=""#;

pub const ETCD_CONF_TAIL: &'static str = r#""
ETCD_INITIAL_CLUSTER_TOKEN="etcd-cluster"
ETCD_INITIAL_CLUSTER_STATE="new"
"#;

// The fixed pieces of the API server's environment file, in order.
pub const APISERVER_CONF_SERVERS: &'static str = r#"KUBE_APISERVER_OPTS="--logtostderr=false \
--v=2 \
--log-dir=/opt/kubernetes/logs \
--etcd-servers="#;

pub const APISERVER_CONF_BIND: &'static str = r#"
--bind-address="#;

pub const APISERVER_CONF_ADVERTISE: &'static str = r#"
--secure-port=6443
--advertise-address="#;

pub const APISERVER_CONF_TAIL: &'static str = r#"
--allow-privileged=true \
--service-cluster-ip-range=10.0.0.0/24 \
--enable-admission-plugins=NamespaceLifecycle,LimitRanger,ServiceAccount,ResourceQuota,NodeRestriction \
--authorization-mode=RBAC,Node \
--enable-bootstrap-token-auth=true \
--token-auth-file=/opt/kubernetes/cfg/token.csv \
--service-node-port-range=30000-32767 \
--kubelet-client-certificate=/opt/kubernetes/ssl/server.pem \
--kubelet-client-key=/opt/kubernetes/ssl/server-key.pem \
--tls-cert-file=/opt/kubernetes/ssl/server.pem  \
--tls-private-key-file=/opt/kubernetes/ssl/server-key.pem \
--client-ca-file=/opt/kubernetes/ssl/ca.pem \
--service-account-key-file=/opt/kubernetes/ssl/ca-key.pem \
--service-account-issuer=api \
--service-account-signing-key-file=/opt/kubernetes/ssl/server-key.pem \
--etcd-cafile=/opt/etcd/ssl/ca.pem \
--etcd-certfile=/opt/etcd/ssl/server.pem \
--etcd-keyfile=/opt/etcd/ssl/server-key.pem \
--requestheader-client-ca-file=/opt/kubernetes/ssl/ca.pem \
--proxy-client-cert-file=/opt/kubernetes/ssl/server.pem \
--proxy-client-key-file=/opt/kubernetes/ssl/server-key.pem \
--requestheader-allowed-names=kubernetes \
--requestheader-extra-headers-prefix=X-Remote-Extra- \
--requestheader-group-headers=X-Remote-Group \
--requestheader-username-headers=X-Remote-User \
--enable-aggregator-routing=true \
--audit-log-maxage=30 \
--audit-log-maxbackup=3 \
--audit-log-maxsize=100 \
--audit-log-path=/opt/kubernetes/logs/k8s-audit.log"
"#;

// The fixed pieces of the node agent's environment file, in order.
pub const KUBELET_CONF_HOSTNAME: &'static str = r#"KUBELET_OPTS="--logtostderr=false \
--v=2 \
--log-dir=/opt/kubernetes/logs \
--hostname-override="#;

pub const KUBELET_CONF_TAIL: &'static str = r#" \
--network-plugin=cni \
--kubeconfig=/opt/kubernetes/cfg/kubelet.kubeconfig \
--bootstrap-kubeconfig=/opt/kubernetes/cfg/bootstrap.kubeconfig \
--config=/opt/kubernetes/cfg/kubelet-config.yml \
--cert-dir=/opt/kubernetes/ssl \
--pod-infra-container-image=registry.cn-hangzhou.aliyuncs.com/google-containers/pause-amd64:3.0"

"#;

// The fixed pieces of the service proxy's settings file, in order.
pub const PROXY_CONFIG_HOSTNAME: &'static str = r#"kind: KubeProxyConfiguration
apiVersion: kubeproxy.config.k8s.io/v1alpha1
bindAddress: 0.0.0.0
metricsBindAddress: 0.0.0.0:10249
clientConnection:
  kubeconfig: /opt/kubernetes/cfg/kube-proxy.kubeconfig
hostnameOverride: "#;

pub const PROXY_CONFIG_TAIL: &'static str = r#" \
clusterCIDR: 10.244.0.0/16

"#;

/// The storage tier's environment file on the member `current_name` at
/// `current_ip`, in a cluster whose initial membership is `cluster`.
pub open spec fn etcd_conf(current_ip: Seq<char>, current_name: Seq<char>, cluster: Seq<char>) -> Seq<
    char,
> {
    ETCD_CONF_NAME@ + current_name + ETCD_CONF_LISTEN_PEER@ + current_ip + ETCD_CONF_LISTEN_CLIENT@
        + current_ip + ETCD_CONF_ADVERTISE_PEER@ + current_ip + ETCD_CONF_ADVERTISE_CLIENT@
        + current_ip + ETCD_CONF_CLUSTER@ + cluster + ETCD_CONF_TAIL@
}

/// The environment file of the storage tier.
pub struct ETCDCfg;

impl ETCDCfg {
    /// The text of the file for the member `current_name` at `current_ip`:
    /// its own name and addresses, then the initial membership of the whole
    /// cluster.
    pub fn generate(current_ip: &str, current_name: &str, config: &Config) -> (r: String)
        ensures
            r@ == etcd_conf(current_ip@, current_name@, initial_cluster_spec(config.instance_hosts@)),
    {
        let cluster = initial_cluster(&config.instance_hosts);
        let mut out: String = owned(ETCD_CONF_NAME);
        out.append(current_name);
        out.append(ETCD_CONF_LISTEN_PEER);
        out.append(current_ip);
        out.append(ETCD_CONF_LISTEN_CLIENT);
        out.append(current_ip);
        out.append(ETCD_CONF_ADVERTISE_PEER);
        out.append(current_ip);
        out.append(ETCD_CONF_ADVERTISE_CLIENT);
        out.append(current_ip);
        out.append(ETCD_CONF_CLUSTER);
        out.append(cluster.as_str());
        out.append(ETCD_CONF_TAIL);
        out
    }
}

/// The control plane's environment file on the host at `current_ip`, with
/// the storage tier's client addresses `servers`.
pub open spec fn apiserver_conf(current_ip: Seq<char>, servers: Seq<char>) -> Seq<char> {
    APISERVER_CONF_SERVERS@ + servers + APISERVER_CONF_BIND@ + current_ip
        + APISERVER_CONF_ADVERTISE@ + current_ip + APISERVER_CONF_TAIL@
}

/// The environment file of the control plane's API server.
pub struct KubeApiserverCfg;

impl KubeApiserverCfg {
    /// The text of the file for the control host at `current_ip`: it names
    /// every member's storage endpoint and binds to the host's own address.
    pub fn generate(current_ip: &str, config: &Config) -> (r: String)
        ensures
            r@ == apiserver_conf(current_ip@, etcd_servers_spec(config.instance_hosts@)),
    {
        let servers = etcd_servers(&config.instance_hosts);
        let mut out: String = owned(APISERVER_CONF_SERVERS);
        out.append(servers.as_str());
        out.append(APISERVER_CONF_BIND);
        out.append(current_ip);
        out.append(APISERVER_CONF_ADVERTISE);
        out.append(current_ip);
        out.append(APISERVER_CONF_TAIL);
        out
    }
}

/// The node agent's environment file on the host named `current_name`.
pub open spec fn kubelet_conf(current_name: Seq<char>) -> Seq<char> {
    KUBELET_CONF_HOSTNAME@ + current_name + KUBELET_CONF_TAIL@
}

/// The environment file of the node agent.
pub struct KubeletCfg;

impl KubeletCfg {
    /// The text of the file for the host named `current_name`.
    pub fn generate(current_name: &str) -> (r: String)
        ensures
            r@ == kubelet_conf(current_name@),
    {
        let mut out: String = owned(KUBELET_CONF_HOSTNAME);
        out.append(current_name);
        out.append(KUBELET_CONF_TAIL);
        out
    }
}

/// The service proxy's settings on the host named `current_name`.
pub open spec fn proxy_config(current_name: Seq<char>) -> Seq<char> {
    PROXY_CONFIG_HOSTNAME@ + current_name + PROXY_CONFIG_TAIL@
}

/// The settings file of the service proxy.
pub struct KubeProxyConfig;

impl KubeProxyConfig {
    /// The text of the file for the host named `current_name`.
    pub fn generate(current_name: &str) -> (r: String)
        ensures
            r@ == proxy_config(current_name@),
    {
        let mut out: String = owned(PROXY_CONFIG_HOSTNAME);
        out.append(current_name);
        out.append(PROXY_CONFIG_TAIL);
        out
    }
}

} // verus!
