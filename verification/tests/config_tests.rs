use fastmssql::config::PoolConfig;
use fastmssql::errors::Error;

#[test]
fn floor_above_cap_is_refused() {
    let r = PoolConfig::new(4, Some(5), None, None, None);
    assert!(r.is_err());
    match r {
        Err(Error::Configuration(msg)) => {
            assert!(msg.contains("min_idle"));
        },
        _ => panic!("the refusal must be a configuration error"),
    }
}

#[test]
fn zero_cap_is_refused() {
    assert!(PoolConfig::new(0, None, None, None, None).is_err());
}

#[test]
fn a_valid_configuration_keeps_its_fields() {
    let c = PoolConfig::new(10, Some(2), Some(1800), Some(300), Some(30)).unwrap();
    assert_eq!(c.max_size, 10);
    assert_eq!(c.min_idle, Some(2));
    assert_eq!(c.max_lifetime_secs, Some(1800));
    assert_eq!(c.idle_timeout_secs, Some(300));
    assert_eq!(c.connection_timeout_secs, Some(30));
}

#[test]
fn floor_equal_to_cap_is_accepted() {
    assert!(PoolConfig::new(5, Some(5), None, None, None).is_ok());
}

#[test]
fn lowering_the_cap_under_the_floor_is_refused_and_changes_nothing() {
    let mut c = PoolConfig::new(10, Some(4), None, None, None).unwrap();
    assert!(c.set_max_size(3).is_err());
    assert_eq!(c.max_size, 10);
    assert!(c.set_max_size(4).is_ok());
    assert_eq!(c.max_size, 4);
}

#[test]
fn raising_the_floor_over_the_cap_is_refused() {
    let mut c = PoolConfig::new(10, Some(2), None, None, None).unwrap();
    assert!(c.set_min_idle(Some(11)).is_err());
    assert_eq!(c.min_idle, Some(2));
    assert!(c.set_min_idle(Some(10)).is_ok());
    assert_eq!(c.min_idle, Some(10));
}

#[test]
fn presets_hold_their_documented_values() {
    let h = PoolConfig::high_throughput();
    assert_eq!((h.max_size, h.min_idle), (50, Some(15)));
    let l = PoolConfig::low_resource();
    assert_eq!((l.max_size, l.min_idle), (3, Some(1)));
    let d = PoolConfig::development();
    assert_eq!((d.max_size, d.min_idle), (5, Some(1)));
    let m = PoolConfig::maximum_performance();
    assert_eq!((m.max_size, m.min_idle), (100, Some(30)));
    let w = PoolConfig::load_test_worker();
    assert_eq!((w.max_size, w.min_idle), (12, Some(4)));
    let u = PoolConfig::ultra_high_concurrency();
    assert_eq!((u.max_size, u.min_idle), (200, Some(50)));
}

#[test]
fn the_default_configuration_is_modest() {
    let c = PoolConfig::default();
    assert_eq!(c.max_size, 10);
    assert_eq!(c.min_idle, Some(2));
    assert_eq!(c.connection_timeout_secs, Some(30));
}
