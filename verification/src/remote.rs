use vstd::prelude::*;

use crate::error::Error;
use crate::model::{pairs_view, ExpressionSelector, Instance};
use crate::util;

verus! {

/// The login endpoint.
pub fn login_path() -> (r: &'static str)
    ensures
        r@ == "/v1/auth/users/login"@,
{
    "/v1/auth/users/login"
}

/// The instance endpoint: POST registers, PUT updates, DELETE
/// deregisters.
pub fn instance_path() -> (r: &'static str)
    ensures
        r@ == "/v1/ns/instance"@,
{
    "/v1/ns/instance"
}

/// The instance query endpoint (GET).
pub fn instance_list_path() -> (r: &'static str)
    ensures
        r@ == "/v1/ns/instance/list"@,
{
    "/v1/ns/instance/list"
}

/// The heartbeat endpoint (PUT).
pub fn beat_path() -> (r: &'static str)
    ensures
        r@ == "/v1/ns/instance/beat"@,
{
    "/v1/ns/instance/beat"
}

/// The service endpoint (GET).
pub fn service_path() -> (r: &'static str)
    ensures
        r@ == "/v1/ns/service"@,
{
    "/v1/ns/service"
}

/// The service list endpoint (GET).
pub fn service_list_path() -> (r: &'static str)
    ensures
        r@ == "/v1/ns/service/list"@,
{
    "/v1/ns/service/list"
}

/// How long the subscription polling loop sleeps between queries, in
/// seconds.
pub const SUBSCRIBE_POLL_INTERVAL_SECS: u64 = 9;

/// The default headers every request carries, identifying the client.
pub fn default_headers() -> (r: Vec<(&'static str, &'static str)>)
    ensures
        r@.len() == 5,
        r@[0].0@ == "Client-Version"@ && r@[0].1@ == "nacos-sdk-rust:0"@,
        r@[1].0@ == "User-Agent"@ && r@[1].1@ == "nacos-sdk-rust"@,
        r@[2].0@ == "Accept-Encoding"@ && r@[2].1@ == "gzip,deflate,sdch"@,
        r@[3].0@ == "Requester"@ && r@[3].1@ == "Keep-Alive"@,
        r@[4].0@ == "Request-Module"@ && r@[4].1@ == "naming"@,
{
    let mut r: Vec<(&'static str, &'static str)> = Vec::new();
    r.push(("Client-Version", "nacos-sdk-rust:0"));
    r.push(("User-Agent", "nacos-sdk-rust"));
    r.push(("Accept-Encoding", "gzip,deflate,sdch"));
    r.push(("Requester", "Keep-Alive"));
    r.push(("Request-Module", "naming"));
    r
}

/// The URL of one attempt: the base with the path appended.
pub fn render_url(base: &String, path: &str) -> (r: String)
    ensures
        r@ == base@ + path@,
{
    let mut r = base.clone();
    r.append(path);
    r
}

/// Keeps a 200 answer's body; any other status is the registry's own
/// error, carrying status and body.
pub fn response_body(status: u16, body: String) -> (r: Result<String, Error>)
    ensures
        status == 200 ==> (r matches Ok(b) && b@ == body@),
        status != 200 ==> r == Err::<String, Error>(Error::NacosRemote(status, body)),
{
    if status == 200 {
        Ok(body)
    } else {
        Err(Error::NacosRemote(status, body))
    }
}

/// Relies on rand 0.8's `rand::random` for random draws; nothing is
/// assumed of the value drawn.
pub assume_specification<T>[ rand::random::<T> ]() -> (r: T)
    where
        rand::distributions::Standard: rand::distributions::Distribution<T>,
;

/// Picks the random index a rotation starts at, among `n` servers.
pub fn pick_start_index(n: usize) -> (i: usize)
    requires
        n > 0,
    ensures
        i < n,
{
    let r: usize = rand::random();
    r % n
}

/// The index tried at attempt `k` of a rotation that starts at `start`:
/// the servers are walked in order, wrapping around.
pub fn rotation_index(start: usize, k: usize, n: usize) -> (r: usize)
    requires
        0 < n <= usize::MAX / 2,
        start < n,
        k < n,
    ensures
        r == (start + k) % (n as int),
        r < n,
{
    (start + k) % n
}

/// A full rotation touches every server exactly once: whichever index
/// holds the one answering server, some attempt among the first `n`
/// reaches it, so a call succeeds after at most `n` URLs.
pub proof fn lemma_rotation_covers(start: int, n: int, g: int)
    requires
        0 <= start < n,
        0 <= g < n,
    ensures
        exists|k: int| 0 <= k < n && #[trigger] ((start + k) % n) == g,
{
    if g >= start {
        let k = g - start;
        vstd::arithmetic::div_mod::lemma_small_mod((start + k) as nat, n as nat);
        assert((start + k) % n == g);
    } else {
        let k = g + n - start;
        assert(start + k == n + g);
        vstd::arithmetic::div_mod::lemma_mod_add_multiples_vanish(g, n);
        vstd::arithmetic::div_mod::lemma_small_mod(g as nat, n as nat);
        assert((start + k) % n == g);
    }
}

/// The login form: plain credentials.
pub struct LoginRequest {
    pub username: String,
    pub password: String,
}

/// The form a registration or an instance update sends; the embedding
/// encodes `metadata` as a JSON string on the wire.
///
/// `weight` holds thousandths of the wire value, as in [`Instance`].
pub struct RegisterRequest {
    pub namespace_id: String,
    pub access_token: Option<String>,
    pub service_name: String,
    pub group_name: String,
    pub cluster_name: String,
    pub ip: String,
    pub port: u16,
    pub weight: u64,
    pub healthy: bool,
    pub enabled: bool,
    pub ephemeral: bool,
    pub metadata: Vec<(String, String)>,
}

impl RegisterRequest {
    /// The wire form of an instance, under the namespace and the token
    /// read for this request.
    pub fn from_instance(
        namespace_id: String,
        access_token: Option<String>,
        instance: Instance,
    ) -> (r: RegisterRequest)
        ensures
            r.namespace_id == namespace_id,
            r.access_token == access_token,
            r.service_name@ == instance.service_name@,
            r.group_name@ == instance.group_name@,
            r.cluster_name@ == instance.cluster_name@,
            r.ip@ == instance.ip@,
            r.port == instance.port,
            r.weight == instance.weight,
            r.healthy == instance.healthy,
            r.enabled == instance.enabled,
            r.ephemeral == instance.ephemeral,
            pairs_view(r.metadata@) == instance@.metadata,
    {
        RegisterRequest {
            namespace_id,
            access_token,
            service_name: instance.service_name,
            group_name: instance.group_name,
            cluster_name: instance.cluster_name,
            ip: instance.ip,
            port: instance.port,
            weight: instance.weight,
            healthy: instance.healthy,
            enabled: instance.enabled,
            ephemeral: instance.ephemeral,
            metadata: instance.metadata,
        }
    }
}

/// The form a deregistration sends.
pub struct DeregisterRequest {
    pub namespace_id: String,
    pub access_token: Option<String>,
    pub service_name: String,
    pub cluster_name: String,
    pub ip: String,
    pub port: u16,
    pub ephemeral: bool,
}

impl DeregisterRequest {
    /// The wire form of a deregistration, under the namespace and the
    /// token read for this request.
    pub fn from_instance(
        namespace_id: String,
        access_token: Option<String>,
        instance: Instance,
    ) -> (r: DeregisterRequest)
        ensures
            r.namespace_id == namespace_id,
            r.access_token == access_token,
            r.service_name@ == instance.service_name@,
            r.cluster_name@ == instance.cluster_name@,
            r.ip@ == instance.ip@,
            r.port == instance.port,
            r.ephemeral == instance.ephemeral,
    {
        DeregisterRequest {
            namespace_id,
            access_token,
            service_name: instance.service_name,
            cluster_name: instance.cluster_name,
            ip: instance.ip,
            port: instance.port,
            ephemeral: instance.ephemeral,
        }
    }
}

/// The query form an instance lookup sends; it carries the client's own
/// address and UDP port so the registry can push updates back.
pub struct QueryInstanceRequest {
    pub namespace_id: String,
    pub access_token: Option<String>,
    pub service_name: String,
    pub group_name: String,
    pub clusters: String,
    pub udp_port: u16,
    pub client_ip: String,
    pub healthy_only: bool,
}

impl QueryInstanceRequest {
    /// The wire form of an instance query: the grouped service name, the
    /// clusters joined by commas in the caller's order, and the
    /// receiver's address for pushes.
    pub fn new(
        namespace_id: &str,
        access_token: Option<String>,
        service_name: String,
        group_name: &str,
        clusters: &Vec<String>,
        udp_port: u16,
        client_ip: String,
        healthy_only: bool,
    ) -> (r: QueryInstanceRequest)
        ensures
            r.namespace_id@ == namespace_id@,
            r.access_token == access_token,
            r.service_name@ == service_name@,
            r.group_name@ == group_name@,
            r.clusters@ == util::csv_rep(clusters@.map_values(|c: String| c@)),
            r.udp_port == udp_port,
            r.client_ip == client_ip,
            r.healthy_only == healthy_only,
    {
        QueryInstanceRequest {
            namespace_id: namespace_id.to_owned(),
            access_token,
            service_name,
            group_name: group_name.to_owned(),
            clusters: util::join_csv(clusters),
            udp_port,
            client_ip,
            healthy_only,
        }
    }
}

/// The query form a service lookup sends.
pub struct QueryServiceRequest {
    pub namespace_id: String,
    pub access_token: Option<String>,
    pub service_name: String,
}

/// The query form a service-list page sends; the embedding encodes the
/// selector as a JSON string on the wire.
pub struct ServiceListRequest {
    pub namespace_id: String,
    pub access_token: Option<String>,
    pub group_name: String,
    pub page_size: u32,
    pub page_no: u32,
    pub selector: Option<ExpressionSelector>,
}

impl ServiceListRequest {
    /// The wire form of one service-list page.
    pub fn new(
        namespace_id: &str,
        access_token: Option<String>,
        group_name: &str,
        selector: Option<ExpressionSelector>,
        page_num: u32,
        page_size: u32,
    ) -> (r: ServiceListRequest)
        ensures
            r.namespace_id@ == namespace_id@,
            r.access_token == access_token,
            r.group_name@ == group_name@,
            r.selector == selector,
            r.page_no == page_num,
            r.page_size == page_size,
    {
        ServiceListRequest {
            namespace_id: namespace_id.to_owned(),
            access_token,
            group_name: group_name.to_owned(),
            page_size,
            page_no: page_num,
            selector,
        }
    }
}

} // verus!
