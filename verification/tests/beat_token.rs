use nacos_naming_client::beat_reactor::{next_beat_period, HeartBeatReactor};
use nacos_naming_client::error::Error;
use nacos_naming_client::model::{BeatAck, Instance, Token};
use nacos_naming_client::security::AccessTokenHolder;

fn ack(interval: u64) -> BeatAck {
    BeatAck { client_beat_interval: interval, code: None, light_beat_enabled: None }
}

#[test]
fn beat_period_self_tunes() {
    let tuned = next_beat_period(5000, Ok(ack(7000)));
    assert_eq!(tuned, 5000);
    let retuned = next_beat_period(tuned, Ok(ack(9000)));
    assert_eq!(retuned, 7000);
}

#[test]
fn beat_period_kept_on_error() {
    let p = next_beat_period(5000, Err(Error::Unknown));
    assert_eq!(p, 5000);
}

#[test]
fn beat_period_never_underflows() {
    assert_eq!(next_beat_period(5000, Ok(ack(1500))), 0);
    assert_eq!(next_beat_period(5000, Ok(ack(2000))), 0);
}

#[test]
fn one_beat_task_per_instance() {
    let mut reactor = HeartBeatReactor::new();
    let ins = Instance::new_with_defaults("test", "1.2.3.4", 8888);
    let first = reactor.add_task("public", None, ins.clone());
    assert!(first.is_some(), "a new key starts a loop");
    let task = first.unwrap();
    assert_eq!(task.key, "DEFAULT_GROUP@@test#1.2.3.4#8888");
    assert_eq!(task.request.period_ms, 5000);
    assert_eq!(task.request.namespace_id, "public");
    assert_eq!(task.request.service_name, "DEFAULT_GROUP@@test");
    assert_eq!(task.request.beat_info.ip, "1.2.3.4");
    assert_eq!(task.request.beat_info.port, 8888);
    let second = reactor.add_task("public", None, ins.clone());
    assert!(second.is_none(), "the key already beats: no second loop");
    assert!(reactor.remove_task("public", &ins));
    assert!(!reactor.remove_task("public", &ins), "removal is idempotent");
    let third = reactor.add_task("public", None, ins);
    assert!(third.is_some(), "after removal the key is free again");
}

#[test]
fn reactor_shutdown_clears_tasks() {
    let mut reactor = HeartBeatReactor::new();
    reactor.add_task("public", None, Instance::new_with_defaults("a", "1.1.1.1", 1));
    reactor.add_task("public", None, Instance::new_with_defaults("b", "1.1.1.1", 2));
    reactor.shutdown();
    assert!(
        reactor.add_task("public", None, Instance::new_with_defaults("a", "1.1.1.1", 1)).is_some()
    );
}

#[test]
fn token_validity_boundary() {
    let short = Token { access_token: "t".to_string(), token_ttl: 10000 };
    assert!(!short.valid());
    let good = Token { access_token: "t".to_string(), token_ttl: 10001 };
    assert!(good.valid());
}

#[test]
fn refresh_publishes_token_and_schedules_half_ttl() {
    let mut holder = AccessTokenHolder::new(Some("nacos".to_string()), Some("nacos".to_string()));
    assert!(holder.has_credentials());
    assert_eq!(holder.get_token(), None, "before the first login there is no token");
    let delay = holder.apply_refresh(Ok(Token {
        access_token: "fresh".to_string(),
        token_ttl: 18000,
    }));
    assert_eq!(delay, 9000, "the next refresh is due at half the lifetime");
    assert_eq!(holder.get_token(), Some("fresh".to_string()));
}

#[test]
fn refresh_error_keeps_token_and_retries_soon() {
    let mut holder = AccessTokenHolder::new(Some("u".to_string()), Some("p".to_string()));
    holder.apply_refresh(Ok(Token { access_token: "old".to_string(), token_ttl: 20000 }));
    let delay = holder.apply_refresh(Err(Error::Unknown));
    assert_eq!(delay, 6);
    assert_eq!(holder.get_token(), Some("old".to_string()));
}

#[test]
fn invalid_token_is_not_served() {
    let mut holder = AccessTokenHolder::new(None, None);
    assert!(!holder.has_credentials());
    holder.apply_refresh(Ok(Token { access_token: "weak".to_string(), token_ttl: 5 }));
    assert_eq!(holder.get_token(), None, "a token with a sentinel lifetime is invalid");
}
