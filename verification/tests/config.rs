use std::time::Duration;

use backend::game::{GameConfig, GameSessionFactory, GameId, PlayerId, TargetTime};

#[test]
fn default_config_values() {
    let c = GameConfig::default();
    assert_eq!(c.min_target_time, Duration::from_secs(1));
    assert_eq!(c.max_target_time, Duration::from_secs(10));
    assert_eq!(c.timing_tolerance, Duration::from_millis(100));
    assert_eq!(c.max_network_latency, Duration::from_millis(500));
    assert!(c.is_valid());
}

#[test]
fn builder_without_settings_gives_default() {
    let c = GameConfig::builder().build();
    let d = GameConfig::default();
    assert_eq!(c.min_target_time, d.min_target_time);
    assert_eq!(c.max_target_time, d.max_target_time);
    assert_eq!(c.timing_tolerance, d.timing_tolerance);
    assert_eq!(c.max_network_latency, d.max_network_latency);
}

#[test]
fn builder_sets_only_what_is_given() {
    let c = GameConfig::builder()
        .min_target_time(Duration::from_millis(2000))
        .max_network_latency(Duration::from_millis(42))
        .build();
    assert_eq!(c.min_target_time, Duration::from_millis(2000));
    assert_eq!(c.max_target_time, Duration::from_secs(10));
    assert_eq!(c.timing_tolerance, Duration::from_millis(100));
    assert_eq!(c.max_network_latency, Duration::from_millis(42));

    let c = GameConfig::builder()
        .max_target_time(Duration::from_millis(3000))
        .timing_tolerance(Duration::from_millis(7))
        .build();
    assert_eq!(c.min_target_time, Duration::from_secs(1));
    assert_eq!(c.max_target_time, Duration::from_millis(3000));
    assert_eq!(c.timing_tolerance, Duration::from_millis(7));
    assert_eq!(c.max_network_latency, Duration::from_millis(500));
}

#[test]
fn later_setting_wins() {
    let c = GameConfig::builder()
        .min_target_time(Duration::from_millis(10))
        .min_target_time(Duration::from_millis(20))
        .build();
    assert_eq!(c.min_target_time, Duration::from_millis(20));
}

#[test]
fn validity_of_configurations() {
    let empty_range = GameConfig::builder()
        .min_target_time(Duration::from_millis(5000))
        .max_target_time(Duration::from_millis(4000))
        .build();
    assert!(!empty_range.is_valid());
    let single = GameConfig::builder()
        .min_target_time(Duration::from_millis(4000))
        .max_target_time(Duration::from_millis(4000))
        .build();
    assert!(single.is_valid());
    let overflowing = GameConfig::builder()
        .timing_tolerance(Duration::from_millis(u64::MAX))
        .max_network_latency(Duration::from_millis(1))
        .build();
    assert!(!overflowing.is_valid());
}

#[test]
fn factory_creates_idle_sessions() {
    let f = GameSessionFactory::with_default_config();
    let p = PlayerId(0x1234);
    let s = f.create(p);
    assert_eq!(s.player_id, p);
    assert_eq!(s.state().name(), "Idle");
    let s2 = f.create_with_id(GameId(99), p);
    assert_eq!(s2.id, GameId(99));
    assert_eq!(s2.player_id, p);
    assert_ne!(s.id, s2.id);
    let d = GameSessionFactory::default().create(p);
    assert_eq!(d.state().name(), "Idle");
}

#[test]
fn target_time_conversions() {
    let t = TargetTime(4321);
    assert_eq!(t.as_millis(), 4321);
    assert_eq!(t.as_duration(), Duration::from_millis(4321));
}
