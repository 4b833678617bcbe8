use fastmssql::config::PoolConfig;
use fastmssql::pool::{make_pool_stats, PoolLifecycle, PoolPhase};

#[test]
fn a_fresh_handle_is_not_connected() {
    let cell = PoolLifecycle::new();
    assert!(!cell.is_connected());
    assert!(cell.needs_dial());
}

#[test]
fn the_first_install_wins_and_later_installs_observe_it() {
    // two racing connects both dialed; whoever installs first decides
    let mut cell = PoolLifecycle::new();
    let first = cell.install(7);
    assert_eq!(first, 7);
    assert!(cell.is_connected());
    // the racer's redundant pool is discarded, not installed
    let second = cell.install(9);
    assert_eq!(second, 7);
    assert!(matches!(cell.phase, PoolPhase::Ready(7)));
}

#[test]
fn connect_is_idempotent_for_every_later_caller() {
    let mut cell = PoolLifecycle::new();
    cell.install(3);
    for _ in 0..16 {
        assert_eq!(cell.install(100), 3);
        assert!(cell.is_connected());
        assert!(!cell.needs_dial());
    }
}

#[test]
fn stats_before_and_after_connect() {
    let config = PoolConfig::new(10, Some(2), None, None, Some(30)).unwrap();
    let mut cell = PoolLifecycle::new();

    let cold = make_pool_stats(&cell, 0, 0, &config);
    assert!(!cold.connected);
    assert_eq!(cold.active_connections, 0);
    assert_eq!(cold.idle_connections, 0);
    assert_eq!(cold.max_size, 0);
    assert_eq!(cold.min_idle, None);

    cell.install(1);
    let warm = make_pool_stats(&cell, 4, 2, &config);
    assert!(warm.connected);
    assert_eq!(warm.active_connections, 4);
    assert_eq!(warm.idle_connections, 2);
    assert_eq!(warm.max_size, 10);
    assert_eq!(warm.min_idle, Some(2));
}
