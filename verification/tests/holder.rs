use std::cell::RefCell;
use std::rc::Rc;

use nacos_naming_client::model::{Instance, ServiceInfo};
use nacos_naming_client::service_holder::{
    diff_instance, ServiceChangeListener, ServiceHolder,
};

type Log = Rc<RefCell<Vec<(usize, String, Vec<Instance>)>>>;

struct RecListener {
    id: usize,
    log: Log,
}

impl ServiceChangeListener for RecListener {
    fn changed(&mut self, service_name: &str, hosts: Vec<Instance>) {
        self.log.borrow_mut().push((self.id, service_name.to_string(), hosts));
    }
}

fn host(ip: &str) -> Instance {
    Instance::new_with_defaults("svc", ip, 80)
}

fn snapshot(name: &str, clusters: &str, hosts: Vec<Instance>) -> ServiceInfo {
    ServiceInfo {
        service_name: name.to_string(),
        clusters: clusters.to_string(),
        cache_millis: 10000,
        hosts,
        last_ref_time: 1,
        checksum: String::new(),
        all_ips: false,
        reach_protection_threshold: false,
    }
}

#[test]
fn update_then_get_returns_same_key_and_hosts() {
    let mut holder: ServiceHolder<RecListener> = ServiceHolder::new("cache", false);
    let info = snapshot("g@@svc", "c1", vec![host("1.1.1.1"), host("2.2.2.2")]);
    let applied = holder.update_service_info(info);
    assert_eq!(applied, Some("g@@svc@@c1".to_string()));
    let got = holder
        .get_service_info("g@@svc", &vec!["c1".to_string()])
        .expect("entry must be cached");
    assert_eq!(got.get_key(), "g@@svc@@c1");
    assert_eq!(got.hosts.len(), 2);
    assert_eq!(got.hosts[0].ip, "1.1.1.1");
    assert_eq!(got.hosts[1].ip, "2.2.2.2");
}

#[test]
fn listeners_fire_once_in_registration_order() {
    let log: Log = Rc::new(RefCell::new(Vec::new()));
    let mut holder: ServiceHolder<RecListener> = ServiceHolder::new("cache", false);
    holder.register_subscribe(
        "g@@svc".to_string(),
        String::new(),
        RecListener { id: 1, log: log.clone() },
    );
    holder.register_subscribe(
        "g@@svc".to_string(),
        String::new(),
        RecListener { id: 2, log: log.clone() },
    );
    holder.register_subscribe(
        "g@@other".to_string(),
        String::new(),
        RecListener { id: 3, log: log.clone() },
    );
    let info = snapshot("g@@svc", "", vec![host("1.1.1.1")]);
    holder.update_service_info(info);
    let seen = log.borrow();
    assert_eq!(seen.len(), 2, "each listener of the key fires exactly once, no other");
    assert_eq!(seen[0].0, 1, "listeners fire in registration order");
    assert_eq!(seen[1].0, 2);
    assert_eq!(seen[0].1, "g@@svc");
    assert_eq!(seen[0].2.len(), 1);
}

#[test]
fn empty_update_is_suppressed() {
    let mut holder: ServiceHolder<RecListener> = ServiceHolder::new("cache", false);
    let full = snapshot("g@@svc", "", vec![host("1.1.1.1")]);
    assert!(holder.update_service_info(full).is_some());
    let empty = snapshot("g@@svc", "", vec![]);
    let applied = holder.update_service_info(empty);
    assert_eq!(applied, None, "an empty update must not blank a good snapshot");
    let got = holder.get_service_info("g@@svc", &vec![]).unwrap();
    assert_eq!(got.hosts.len(), 1);
    assert_eq!(got.hosts[0].ip, "1.1.1.1");
}

#[test]
fn empty_update_applies_when_allowed() {
    let mut holder: ServiceHolder<RecListener> = ServiceHolder::new("cache", true);
    let full = snapshot("g@@svc", "", vec![host("1.1.1.1")]);
    assert!(holder.update_service_info(full).is_some());
    let empty = snapshot("g@@svc", "", vec![]);
    assert!(holder.update_service_info(empty).is_some());
    let got = holder.get_service_info("g@@svc", &vec![]).unwrap();
    assert_eq!(got.hosts.len(), 0);
}

#[test]
fn empty_update_applies_over_empty_entry() {
    let mut holder: ServiceHolder<RecListener> = ServiceHolder::new("cache", false);
    let empty = snapshot("g@@svc", "", vec![]);
    assert!(holder.update_service_info(empty).is_some(), "nothing to protect: applied");
}

#[test]
fn diff_with_removal_marks_dropped_host_disabled() {
    let old = vec![host("A"), host("B")];
    let new = vec![host("A")];
    let delivered = diff_instance(Some(&old), &new);
    assert_eq!(delivered.len(), 2);
    assert_eq!(delivered[0].ip, "A");
    assert!(delivered[0].enabled);
    assert_eq!(delivered[1].ip, "B");
    assert!(!delivered[1].enabled, "the dropped host is delivered disabled");
}

#[test]
fn diff_equal_identity_multisets_delivers_new_unchanged() {
    let mut old_b = host("B");
    old_b.healthy = false;
    let old = vec![host("A"), old_b];
    let new = vec![host("B"), host("A")];
    let delivered = diff_instance(Some(&old), &new);
    assert_eq!(delivered.len(), 2);
    assert_eq!(delivered[0].ip, "B");
    assert_eq!(delivered[1].ip, "A");
    assert!(delivered.iter().all(|h| h.enabled));
}

#[test]
fn diff_without_old_delivers_new() {
    let new = vec![host("A")];
    let delivered = diff_instance(None, &new);
    assert_eq!(delivered.len(), 1);
    assert_eq!(delivered[0].ip, "A");
    let delivered2 = diff_instance(Some(&vec![]), &new);
    assert_eq!(delivered2.len(), 1);
}

#[test]
fn load_entries_hydrates_map() {
    let mut holder: ServiceHolder<RecListener> = ServiceHolder::new("cache", false);
    let a = snapshot("g@@a", "", vec![host("1.1.1.1")]);
    let b = snapshot("g@@b", "", vec![]);
    holder.load_entries(vec![("g@@a".to_string(), a), ("g@@b".to_string(), b)]);
    assert!(holder.get_service_info("g@@a", &vec![]).is_some());
    assert!(holder.get_service_info("g@@b", &vec![]).is_some());
    assert!(holder.get_service_info("g@@c", &vec![]).is_none());
}

#[test]
fn service_map_copy_lists_entries() {
    let mut holder: ServiceHolder<RecListener> = ServiceHolder::new("cache", false);
    holder.update_service_info(snapshot("g@@a", "", vec![host("1.1.1.1")]));
    holder.update_service_info(snapshot("g@@b", "c", vec![]));
    let map = holder.get_service_info_map();
    assert_eq!(map.len(), 2);
    assert_eq!(map[0].0, "g@@a");
    assert_eq!(map[1].0, "g@@b@@c");
}
