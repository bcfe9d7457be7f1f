use vstd::prelude::*;

use crate::constants;
use crate::error::RespCode;
use crate::util;

verus! {

/// The mathematical value of an optional string.
pub open spec fn opt_str_view(o: Option<String>) -> Option<Seq<char>> {
    match o {
        Some(s) => Some(s@),
        None => None,
    }
}

/// The mathematical value of a list of string pairs (metadata).
pub open spec fn pairs_view(s: Seq<(String, String)>) -> Seq<(Seq<char>, Seq<char>)> {
    s.map_values(|p: (String, String)| (p.0@, p.1@))
}

/// Clones a metadata list; the copy holds the same pairs.
pub fn clone_pairs(v: &Vec<(String, String)>) -> (r: Vec<(String, String)>)
    ensures
        r@.len() == v@.len(),
        forall|i: int| 0 <= i < v@.len() ==> r@[i] == v@[i],
{
    let mut r: Vec<(String, String)> = Vec::new();
    let mut i: usize = 0;
    while i < v.len()
        invariant
            i <= v@.len(),
            r@.len() == i,
            forall|j: int| 0 <= j < i ==> r@[j] == v@[j],
        decreases v@.len() - i,
    {
        let pair = (v[i].0.clone(), v[i].1.clone());
        r.push(pair);
        i = i + 1;
    }
    r
}

/// The mathematical value of an [`Instance`].
pub struct InstanceView {
    pub id: Option<Seq<char>>,
    pub ip: Seq<char>,
    pub port: u16,
    pub weight: u64,
    pub healthy: bool,
    pub enabled: bool,
    pub ephemeral: bool,
    pub service_name: Seq<char>,
    pub group_name: Seq<char>,
    pub cluster_name: Seq<char>,
    pub metadata: Seq<(Seq<char>, Seq<char>)>,
}

impl InstanceView {
    /// The identity under which hosts are diffed: grouped service name, ip,
    /// port and cluster.
    pub open spec fn identity(self) -> (Seq<char>, Seq<char>, u16, Seq<char>) {
        (self.service_name, self.ip, self.port, self.cluster_name)
    }

    /// The same instance marked as logically removed.
    pub open spec fn disabled(self) -> InstanceView {
        InstanceView { enabled: false, ..self }
    }
}

/// One service instance, as registered with and discovered from the naming
/// registry.
///
/// `service_name` is always kept in grouped form `"{group}@@{name}"`.
/// `weight` holds thousandths of the wire value, so weight one is `1000`.
pub struct Instance {
    pub id: Option<String>,
    pub ip: String,
    pub port: u16,
    pub weight: u64,
    /// instance health status
    pub healthy: bool,
    /// If instance is enabled to accept request.
    pub enabled: bool,
    /// If instance is ephemeral.
    pub ephemeral: bool,
    /// Service information of instance.
    pub service_name: String,
    pub group_name: String,
    /// cluster information of instance.
    pub cluster_name: String,
    /// user extended attributes.
    pub metadata: Vec<(String, String)>,
}

impl View for Instance {
    type V = InstanceView;

    open spec fn view(&self) -> InstanceView {
        InstanceView {
            id: opt_str_view(self.id),
            ip: self.ip@,
            port: self.port,
            weight: self.weight,
            healthy: self.healthy,
            enabled: self.enabled,
            ephemeral: self.ephemeral,
            service_name: self.service_name@,
            group_name: self.group_name@,
            cluster_name: self.cluster_name@,
            metadata: pairs_view(self.metadata@),
        }
    }
}

/// The mathematical value of a host list.
pub open spec fn hosts_view(hosts: Seq<Instance>) -> Seq<InstanceView> {
    hosts.map_values(|i: Instance| i@)
}

impl Clone for Instance {
    fn clone(&self) -> (r: Self)
        ensures
            r@ == self@,
    {
        let r = Instance {
            id: match &self.id {
                Some(s) => Some(s.clone()),
                None => None,
            },
            ip: self.ip.clone(),
            port: self.port,
            weight: self.weight,
            healthy: self.healthy,
            enabled: self.enabled,
            ephemeral: self.ephemeral,
            service_name: self.service_name.clone(),
            group_name: self.group_name.clone(),
            cluster_name: self.cluster_name.clone(),
            metadata: clone_pairs(&self.metadata),
        };
        proof {
            assert(pairs_view(r.metadata@) =~= pairs_view(self.metadata@));
            assert(r@ =~= self@);
        }
        r
    }
}

impl Instance {
    /// A new ephemeral instance in the default group and cluster, with
    /// weight one, healthy and enabled.
    pub fn new_with_defaults(service_name: &str, ip: &str, port: u16) -> (r: Instance)
        ensures
            r@ == (InstanceView {
                id: None,
                ip: ip@,
                port: port,
                weight: 1000,
                healthy: true,
                enabled: true,
                ephemeral: true,
                service_name: util::spec_grouped(constants::DEFAULT_GROUP@, service_name@),
                group_name: constants::DEFAULT_GROUP@,
                cluster_name: constants::DEFAULT_CLUSTER@,
                metadata: Seq::empty(),
            }),
    {
        Self::new_with_required(
            service_name,
            constants::DEFAULT_GROUP,
            constants::DEFAULT_CLUSTER,
            ip,
            port,
        )
    }

    /// A new ephemeral instance with weight one, healthy and enabled; the
    /// stored service name is the grouped form of the given name.
    pub fn new_with_required(
        service_name: &str,
        group_name: &str,
        cluster_name: &str,
        ip: &str,
        port: u16,
    ) -> (r: Instance)
        ensures
            r@ == (InstanceView {
                id: None,
                ip: ip@,
                port: port,
                weight: 1000,
                healthy: true,
                enabled: true,
                ephemeral: true,
                service_name: util::spec_grouped(group_name@, service_name@),
                group_name: group_name@,
                cluster_name: cluster_name@,
                metadata: Seq::empty(),
            }),
    {
        let r = Instance {
            id: None,
            service_name: util::grouped_service_name(service_name, group_name),
            group_name: group_name.to_owned(),
            cluster_name: cluster_name.to_owned(),
            ip: ip.to_owned(),
            port,
            weight: 1000,
            healthy: true,
            enabled: true,
            ephemeral: true,
            metadata: Vec::new(),
        };
        proof {
            assert(pairs_view(r.metadata@) =~= Seq::<(Seq<char>, Seq<char>)>::empty());
        }
        r
    }

    /// The instance id; the caller must know that one was assigned.
    pub fn get_id_uncheck(&self) -> (r: &str)
        requires
            self.id is Some,
        ensures
            self.id matches Some(s) ==> r@ == s@,
    {
        match &self.id {
            Some(s) => s.as_str(),
            None => "",
        }
    }

    /// Whether two instances share the identity under which hosts are
    /// diffed.
    pub fn same_identity(&self, other: &Instance) -> (b: bool)
        ensures
            b == (self@.identity() == other@.identity()),
    {
        self.service_name.eq(&other.service_name) && self.ip.eq(&other.ip) && self.port
            == other.port && self.cluster_name.eq(&other.cluster_name)
    }
}

/// The mathematical value of a [`ServiceInfo`].
pub struct ServiceInfoView {
    pub service_name: Seq<char>,
    pub clusters: Seq<char>,
    pub cache_millis: u64,
    pub hosts: Seq<InstanceView>,
    pub last_ref_time: u64,
    pub checksum: Seq<char>,
    pub all_ips: bool,
    pub reach_protection_threshold: bool,
}

impl ServiceInfoView {
    /// The key under which this snapshot is cached.
    pub open spec fn key(self) -> Seq<char> {
        ServiceInfo::spec_key(self.service_name, self.clusters)
    }
}

/// A snapshot of a service's membership, as the registry answers queries
/// and pushes updates.
pub struct ServiceInfo {
    pub service_name: String,
    pub clusters: String,
    pub cache_millis: u64,
    pub hosts: Vec<Instance>,
    pub last_ref_time: u64,
    pub checksum: String,
    pub all_ips: bool,
    pub reach_protection_threshold: bool,
}

impl View for ServiceInfo {
    type V = ServiceInfoView;

    open spec fn view(&self) -> ServiceInfoView {
        ServiceInfoView {
            service_name: self.service_name@,
            clusters: self.clusters@,
            cache_millis: self.cache_millis,
            hosts: hosts_view(self.hosts@),
            last_ref_time: self.last_ref_time,
            checksum: self.checksum@,
            all_ips: self.all_ips,
            reach_protection_threshold: self.reach_protection_threshold,
        }
    }
}

/// Clones a host list; the copy has the same mathematical value.
pub fn clone_hosts(v: &Vec<Instance>) -> (r: Vec<Instance>)
    ensures
        hosts_view(r@) == hosts_view(v@),
{
    let mut r: Vec<Instance> = Vec::new();
    let mut i: usize = 0;
    while i < v.len()
        invariant
            i <= v@.len(),
            r@.len() == i,
            forall|j: int| 0 <= j < i ==> r@[j]@ == v@[j]@,
        decreases v@.len() - i,
    {
        let ins = v[i].clone();
        r.push(ins);
        i = i + 1;
    }
    proof {
        assert(hosts_view(r@) =~= hosts_view(v@));
    }
    r
}

impl Clone for ServiceInfo {
    fn clone(&self) -> (r: Self)
        ensures
            r@ == self@,
    {
        let r = ServiceInfo {
            service_name: self.service_name.clone(),
            clusters: self.clusters.clone(),
            cache_millis: self.cache_millis,
            hosts: clone_hosts(&self.hosts),
            last_ref_time: self.last_ref_time,
            checksum: self.checksum.clone(),
            all_ips: self.all_ips,
            reach_protection_threshold: self.reach_protection_threshold,
        };
        proof {
            assert(r@ =~= self@);
        }
        r
    }
}

impl ServiceInfo {
    /// The cache key of a `(service_name, clusters)` pair: the name alone
    /// when `clusters` is empty, else `"{name}@@{clusters}"`.
    pub open spec fn spec_key(name: Seq<char>, clusters: Seq<char>) -> Seq<char> {
        if clusters.len() == 0 {
            name
        } else {
            name + constants::SERVICE_INFO_SPLITER@ + clusters
        }
    }

    /// The key under which this snapshot is cached.
    pub fn get_key(&self) -> (r: String)
        ensures
            r@ == self@.key(),
    {
        Self::generate_key(self.service_name.as_str(), self.clusters.as_str())
    }

    /// Composes a cache key from a grouped service name and a comma-joined
    /// cluster list.
    pub fn generate_key(name: &str, clusters: &str) -> (r: String)
        ensures
            r@ == Self::spec_key(name@, clusters@),
    {
        if !clusters.is_empty() {
            let mut r = name.to_owned();
            r.append(constants::SERVICE_INFO_SPLITER);
            r.append(clusters);
            proof {
                assert(r@ =~= Self::spec_key(name@, clusters@));
            }
            r
        } else {
            name.to_owned()
        }
    }

    /// Whether the snapshot is older than its advertised lifetime at the
    /// given clock reading (milliseconds since the epoch).
    pub fn expired(&self, now_ms: u64) -> (b: bool)
        ensures
            b == (now_ms - self.last_ref_time > self.cache_millis),
    {
        if now_ms <= self.last_ref_time {
            false
        } else {
            now_ms - self.last_ref_time > self.cache_millis
        }
    }
}

/// An access token as the login endpoint answers it.
pub struct Token {
    pub access_token: String,
    pub token_ttl: u64,
}

impl Token {
    /// A token is usable only when its lifetime is above the sentinel that
    /// marks the default, empty token as invalid.
    pub open spec fn spec_valid(self) -> bool {
        self.token_ttl > 10000
    }

    pub fn valid(&self) -> (b: bool)
        ensures
            b == self.spec_valid(),
    {
        self.token_ttl > 10000
    }
}

impl Default for Token {
    /// The empty token; it is never valid.
    fn default() -> (t: Self)
        ensures
            t.access_token@ == Seq::<char>::empty(),
            t.token_ttl == 0,
            !t.spec_valid(),
    {
        Token { access_token: String::new(), token_ttl: 0 }
    }
}

impl Clone for Token {
    fn clone(&self) -> (r: Self)
        ensures
            r == *self,
    {
        Token { access_token: self.access_token.clone(), token_ttl: self.token_ttl }
    }
}

/// The identity snapshot a heartbeat carries; it is taken when the beat
/// task is created and does not track later instance mutations.
///
/// `weight` holds thousandths of the wire value, as in [`Instance`].
pub struct BeatInfo {
    pub ip: String,
    pub port: u16,
    pub weight: u64,
    pub service_name: String,
    pub cluster: String,
    pub metadata: Vec<(String, String)>,
}

impl BeatInfo {
    /// The beat snapshot of an instance: its address, weight, grouped
    /// service name, cluster and metadata.
    pub fn from_instance(instance: &Instance) -> (r: BeatInfo)
        ensures
            r.ip@ == instance.ip@,
            r.port == instance.port,
            r.weight == instance.weight,
            r.service_name@ == instance.service_name@,
            r.cluster@ == instance.cluster_name@,
            pairs_view(r.metadata@) == instance@.metadata,
    {
        BeatInfo {
            ip: instance.ip.clone(),
            port: instance.port,
            weight: instance.weight,
            service_name: instance.service_name.clone(),
            cluster: instance.cluster_name.clone(),
            metadata: clone_pairs(&instance.metadata),
        }
    }
}

/// One heartbeat request: the namespace, the token read for this very
/// iteration, the beat snapshot and the current period.
pub struct BeatRequest {
    pub namespace_id: String,
    pub access_token: Option<String>,
    pub service_name: String,
    pub beat_info: BeatInfo,
    pub period_ms: u64,
}

/// The registry's answer to a heartbeat.
pub struct BeatAck {
    pub client_beat_interval: u64,
    pub code: Option<RespCode>,
    pub light_beat_enabled: Option<bool>,
}

/// A service as the service-query endpoints describe it.
///
/// `protection_threshold` holds thousandths of the wire value.
pub struct Service {
    pub name: String,
    pub group_name: String,
    pub app_name: String,
    pub protection_threshold: u32,
    pub metadata: Vec<(String, String)>,
}

/// A page of service names, as the service-list endpoint answers.
pub struct ServiceList {
    pub count: u64,
    pub doms: Vec<String>,
}

/// A selector expression forwarded verbatim to the registry.
pub struct ExpressionSelector {
    pub selector_type: String,
    pub expression: String,
}

} // verus!
