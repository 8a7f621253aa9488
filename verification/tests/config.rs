use trader_exec::config::{decimal_text, Config};

#[test]
fn defaults_are_as_documented() {
    let cfg = Config::default(4242);
    assert_eq!(cfg.redis_url, "redis://127.0.0.1:6379");
    assert_eq!(cfg.stream, "trade-intents");
    assert_eq!(cfg.group, "exec");
    assert_eq!(cfg.consumer, "exec-4242");
    assert_eq!(cfg.http_addr, "0.0.0.0:8081");
    assert_eq!(cfg.metrics_addr, "0.0.0.0:9101");
    assert!(cfg.dry_run);
    assert_eq!(cfg.ta_service_url, "http://ta-service:9100");
}

#[test]
fn load_falls_back_to_the_defaults() {
    assert_eq!(Config::load(None, 7), Config::default(7));
    assert_eq!(Config::load(None, 7).consumer, "exec-7");
}

#[test]
fn load_keeps_what_the_environment_gave() {
    let given = Config {
        redis_url: "redis://broker:6379".to_string(),
        stream: "s".to_string(),
        group: "g".to_string(),
        consumer: "c".to_string(),
        http_addr: "127.0.0.1:1".to_string(),
        metrics_addr: "127.0.0.1:2".to_string(),
        dry_run: false,
        ta_service_url: "http://ta".to_string(),
    };
    assert_eq!(Config::load(Some(given.clone()), 7), given);
}

#[test]
fn decimal_numerals() {
    for n in [0u32, 1, 9, 10, 11, 99, 100, 101, 1234567890, u32::MAX] {
        assert_eq!(decimal_text(n), n.to_string());
    }
    assert_eq!(decimal_text(4294967295), "4294967295");
    assert_eq!(decimal_text(0), "0");
}
