use std::cell::RefCell;
use std::rc::Rc;

use nacos_naming_client::client::NamingClient;
use nacos_naming_client::config::{NamingConfig, ServerConfig};
use nacos_naming_client::error::Error;
use nacos_naming_client::model::{Instance, ServiceInfo};
use nacos_naming_client::service_holder::ServiceChangeListener;

type Log = Rc<RefCell<Vec<(String, Vec<Instance>)>>>;

struct RecListener {
    log: Log,
}

impl ServiceChangeListener for RecListener {
    fn changed(&mut self, service_name: &str, hosts: Vec<Instance>) {
        self.log.borrow_mut().push((service_name.to_string(), hosts));
    }
}

fn test_config() -> NamingConfig {
    NamingConfig::new_with_defaults(
        vec![ServerConfig::new(
            "http".to_string(),
            "127.0.0.1:8848".to_string(),
            "nacos".to_string(),
        )],
        "failover".to_string(),
    )
}

fn client() -> NamingClient<RecListener> {
    NamingClient::new(test_config())
}

fn snapshot(name: &str, hosts: Vec<Instance>) -> ServiceInfo {
    ServiceInfo {
        service_name: name.to_string(),
        clusters: String::new(),
        cache_millis: 10000,
        hosts,
        last_ref_time: 1,
        checksum: String::new(),
        all_ips: false,
        reach_protection_threshold: false,
    }
}

#[test]
fn defaults_flow_into_the_client() {
    let c = client();
    assert_eq!(c.get_group(), "DEFAULT_GROUP");
    assert_eq!(c.get_cluster(), "DEFAULT");
    assert_eq!(c.config.namespace_id, "public");
}

#[test]
fn successful_post_starts_the_beat() {
    let mut c = client();
    let ins = Instance::new_with_defaults("test", "1.2.3.4", 8888);
    let r = c.register_instance(ins, Ok(()));
    let task = r.expect("a successful POST registers").expect("a fresh key starts a loop");
    assert_eq!(task.key, "DEFAULT_GROUP@@test#1.2.3.4#8888");
    assert_eq!(task.request.period_ms, 5000);
}

#[test]
fn failed_post_adds_no_beat_task() {
    let mut c = client();
    let ins = Instance::new_with_defaults("test", "1.2.3.4", 8888);
    let r = c.register_instance(ins.clone(), Err(Error::Unknown));
    assert!(r.is_err(), "the remote failure is surfaced");
    let again = c.register_instance(ins, Ok(()));
    assert!(
        again.unwrap().is_some(),
        "the key was still free: the failed POST had created no task"
    );
}

#[test]
fn register_twice_keeps_one_task() {
    let mut c = client();
    let ins = Instance::new_with_defaults("test", "1.2.3.4", 8888);
    assert!(c.register_instance(ins.clone(), Ok(())).unwrap().is_some());
    assert!(c.register_instance(ins, Ok(())).unwrap().is_none());
}

#[test]
fn deregister_stops_the_beat_then_hands_the_delete() {
    let mut c = client();
    let ins = Instance::new_with_defaults("test", "1.2.3.4", 8888);
    c.register_instance(ins.clone(), Ok(())).unwrap();
    let delete = c.deregister_instance(ins.clone());
    assert_eq!(delete.namespace_id, "public");
    assert_eq!(delete.service_name, "DEFAULT_GROUP@@test");
    assert_eq!(delete.ip, "1.2.3.4");
    assert_eq!(delete.port, 8888);
    let again = c.register_instance(ins, Ok(()));
    assert!(again.unwrap().is_some(), "the beat task was already gone when the DELETE went out");
}

#[test]
fn register_then_deregister_round_trip() {
    let mut c = client();
    let ins = Instance::new_with_defaults("test", "1.2.3.4", 8888);
    c.register_instance(ins.clone(), Ok(())).unwrap();
    let queried = snapshot("DEFAULT_GROUP@@test", vec![ins.clone()]);
    let (_, hosts) = c.select_instances_after_query(queried, false);
    assert_eq!(hosts.len(), 1, "after register the query answers one host");
    c.deregister_instance(ins);
    let empty = ServiceInfo { cache_millis: 10000, ..snapshot("DEFAULT_GROUP@@test", vec![]) };
    let (_, hosts) = c.select_instances_after_query(empty, false);
    assert_eq!(hosts.len(), 0, "after deregister the query answers no host");
}

#[test]
fn selection_filters_disabled_weightless_and_unhealthy() {
    let mut c = client();
    let good = Instance::new_with_defaults("svc", "1.1.1.1", 80);
    let mut disabled = Instance::new_with_defaults("svc", "2.2.2.2", 80);
    disabled.enabled = false;
    let mut weightless = Instance::new_with_defaults("svc", "3.3.3.3", 80);
    weightless.weight = 0;
    let mut sick = Instance::new_with_defaults("svc", "4.4.4.4", 80);
    sick.healthy = false;
    let queried = snapshot(
        "DEFAULT_GROUP@@svc",
        vec![good.clone(), disabled, weightless, sick.clone()],
    );
    let (applied, hosts) = c.select_instances_after_query(queried, false);
    assert_eq!(applied, Some("DEFAULT_GROUP@@svc".to_string()));
    assert_eq!(hosts.len(), 2, "disabled and weightless hosts never answer");
    assert_eq!(hosts[0].ip, "1.1.1.1");
    assert_eq!(hosts[1].ip, "4.4.4.4");

    let cached = c
        .select_instances_cached("svc", "DEFAULT_GROUP", &vec![], true)
        .expect("the query fed the cache");
    assert_eq!(cached.len(), 1, "healthy-only selection also drops the sick host");
    assert_eq!(cached[0].ip, "1.1.1.1");
}

#[test]
fn selection_misses_an_unknown_service() {
    let c = client();
    assert!(c.select_instances_cached("nobody", "DEFAULT_GROUP", &vec![], false).is_none());
}

#[test]
fn subscribe_polls_and_fires_the_listener() {
    let log: Log = Rc::new(RefCell::new(Vec::new()));
    let mut c = client();
    let request = c.subscribe(
        "svc",
        "g",
        &vec!["c".to_string()],
        RecListener { log: log.clone() },
        55123,
        "192.168.1.2".to_string(),
    );
    assert_eq!(request.service_name, "g@@svc", "the poll queries the grouped name");
    assert_eq!(request.clusters, "c");
    assert_eq!(request.group_name, "g");
    assert_eq!(request.udp_port, 55123);
    assert!(!request.healthy_only);

    let answer = ServiceInfo {
        clusters: "c".to_string(),
        ..snapshot("g@@svc", vec![Instance::new_with_defaults("svc", "1.1.1.1", 80)])
    };
    c.service_holder.update_service_info(answer);
    let seen = log.borrow();
    assert_eq!(seen.len(), 1, "each poll answer fires the listener once");
    assert_eq!(seen[0].0, "g@@svc@@c");
    assert_eq!(seen[0].1.len(), 1);
}

#[test]
fn unsubscribe_is_a_wire_no_op() {
    let c = client();
    assert!(c.unsubscribe("svc", "g", &vec![]).is_ok());
}

#[test]
fn shutdown_stops_all_beats() {
    let mut c = client();
    c.register_instance(Instance::new_with_defaults("a", "1.1.1.1", 1), Ok(())).unwrap();
    c.register_instance(Instance::new_with_defaults("b", "1.1.1.1", 2), Ok(())).unwrap();
    c.shutdown();
    let again = c.register_instance(Instance::new_with_defaults("a", "1.1.1.1", 1), Ok(()));
    assert!(again.unwrap().is_some(), "after shutdown no beat task is left");
}
