use nacos_naming_client::beat_reactor::HeartBeatReactor;
use nacos_naming_client::config::ServerConfig;
use nacos_naming_client::error::Error;
use nacos_naming_client::model::{Instance, ServiceInfo};
use nacos_naming_client::util::{grouped_service_name, join_csv, u64_to_dec};

#[test]
fn grouped_name_round_trip() {
    assert_eq!(grouped_service_name("x", "g"), "g@@x");
    assert_eq!(grouped_service_name("service-im", "DEFAULT_GROUP"), "DEFAULT_GROUP@@service-im");
}

#[test]
fn cache_key_round_trip() {
    assert_eq!(ServiceInfo::generate_key("name", ""), "name");
    assert_eq!(ServiceInfo::generate_key("name", "c1,c2"), "name@@c1,c2");
}

#[test]
fn get_key_composes_name_and_clusters() {
    let info = ServiceInfo {
        service_name: "g@@svc".to_string(),
        clusters: "c1".to_string(),
        cache_millis: 10000,
        hosts: vec![],
        last_ref_time: 0,
        checksum: String::new(),
        all_ips: false,
        reach_protection_threshold: false,
    };
    assert_eq!(info.get_key(), "g@@svc@@c1");
    let bare = ServiceInfo { clusters: String::new(), ..info };
    assert_eq!(bare.get_key(), "g@@svc");
}

#[test]
fn beat_key_has_name_ip_port() {
    let ins = Instance::new_with_defaults("test", "1.2.3.4", 8888);
    assert_eq!(HeartBeatReactor::build_key(&ins), "DEFAULT_GROUP@@test#1.2.3.4#8888");
}

#[test]
fn decimal_rendering() {
    assert_eq!(u64_to_dec(0), "0");
    assert_eq!(u64_to_dec(7), "7");
    assert_eq!(u64_to_dec(54951), "54951");
    assert_eq!(u64_to_dec(18446744073709551615), "18446744073709551615");
}

#[test]
fn csv_join_orders_and_separates() {
    assert_eq!(join_csv(&vec![]), "");
    assert_eq!(join_csv(&vec!["a".to_string()]), "a");
    assert_eq!(join_csv(&vec!["b".to_string(), "a".to_string()]), "b,a");
}

#[test]
fn server_config_renders_url() {
    let s = ServerConfig::new("http".to_string(), "127.0.0.1:8848".to_string(), "nacos".to_string());
    assert_eq!(s.to_string(), "http://127.0.0.1:8848/nacos");
}

#[test]
fn instance_defaults() {
    let ins = Instance::new_with_defaults("test", "1.2.3.4", 8888);
    assert_eq!(ins.service_name, "DEFAULT_GROUP@@test");
    assert_eq!(ins.group_name, "DEFAULT_GROUP");
    assert_eq!(ins.cluster_name, "DEFAULT");
    assert_eq!(ins.weight, 1000);
    assert!(ins.healthy && ins.enabled && ins.ephemeral);
    assert!(ins.id.is_none());
    assert!(ins.metadata.is_empty());
}

#[test]
fn expired_compares_age_to_lifetime() {
    let info = ServiceInfo {
        service_name: "g@@svc".to_string(),
        clusters: String::new(),
        cache_millis: 1000,
        hosts: vec![],
        last_ref_time: 5000,
        checksum: String::new(),
        all_ips: false,
        reach_protection_threshold: false,
    };
    assert!(!info.expired(5000));
    assert!(!info.expired(6000));
    assert!(info.expired(6001));
    assert!(!info.expired(4000));
}

#[test]
fn error_messages_render() {
    let e = Error::NacosRemote(403, "forbidden".to_string());
    assert_eq!(e.message(), "nacos server error; status: 403, message: forbidden");
    assert_eq!(Error::Unknown.message(), "unknown error occurred");
    assert_eq!(Error::Custom("boom".to_string()).message(), "boom");
    assert_eq!(Error::Fs("ctx".to_string(), "io".to_string()).message(), "ctx: io");
}
