use std::time::Duration;
use zed_orm_core::ConnectPolicy;

#[test]
fn default_policy_values() {
    let p = ConnectPolicy::default();
    assert_eq!(p.max_connections(), 10);
    assert_eq!(p.min_connections(), 1);
    assert_eq!(p.acquire_timeout(), Duration::from_secs(10));
    assert_eq!(p.idle_timeout(), Duration::from_secs(300));
}

#[test]
fn max_connections_is_at_least_one_and_caps_the_minimum() {
    let p = ConnectPolicy::default().with_max_connections(0);
    assert_eq!(p.max_connections(), 1);
    assert_eq!(p.min_connections(), 1);

    let p = ConnectPolicy::default().with_min_connections(8).with_max_connections(4);
    assert_eq!(p.max_connections(), 4);
    assert_eq!(p.min_connections(), 4);

    let p = ConnectPolicy::default().with_max_connections(50);
    assert_eq!(p.max_connections(), 50);
    assert_eq!(p.min_connections(), 1);
}

#[test]
fn min_connections_never_exceeds_the_maximum() {
    let p = ConnectPolicy::default().with_min_connections(99);
    assert_eq!(p.min_connections(), 10);
    let p = ConnectPolicy::default().with_min_connections(0);
    assert_eq!(p.min_connections(), 0);
    assert_eq!(p.max_connections(), 10);
}

#[test]
fn timeouts_change_nothing_else() {
    let p = ConnectPolicy::default()
        .with_acquire_timeout(Duration::from_millis(250))
        .with_idle_timeout(Duration::from_secs(1));
    assert_eq!(p.acquire_timeout(), Duration::from_millis(250));
    assert_eq!(p.idle_timeout(), Duration::from_secs(1));
    assert_eq!(p.max_connections(), 10);
    assert_eq!(p.min_connections(), 1);
}

#[test]
fn bounds_hold_after_any_builder_sequence() {
    for max in [0u32, 1, 2, 7, 10, 100] {
        for min in [0u32, 1, 5, 11, 1000] {
            for p in [
                ConnectPolicy::default().with_max_connections(max).with_min_connections(min),
                ConnectPolicy::default().with_min_connections(min).with_max_connections(max),
            ] {
                assert!(p.max_connections() >= 1);
                assert!(p.min_connections() <= p.max_connections());
            }
        }
    }
}
