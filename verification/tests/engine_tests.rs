use fastmssql::columns::ExecutionResult;
use fastmssql::engine::{
    classify_acquire_error, collect_affected, plan_dispatch, total_affected, Dispatch,
};
use fastmssql::errors::Error;

#[test]
fn selects_go_to_the_query_stream() {
    assert_eq!(plan_dispatch("SELECT 1"), Dispatch::Query);
    assert_eq!(plan_dispatch("with c as (select 1) select * from c"), Dispatch::Query);
}

#[test]
fn updates_go_to_the_execute_path() {
    assert_eq!(plan_dispatch("update t set x=1; update t set x=2"), Dispatch::Execute);
    assert_eq!(plan_dispatch("delete from t"), Dispatch::Execute);
}

#[test]
fn the_affected_count_is_the_sum_over_the_batch() {
    // a two-statement batch reports each statement's count; the
    // total is their sum, not the last count
    let counts = vec![3u64, 4u64];
    assert_eq!(total_affected(&counts), Some(7));
    match collect_affected(&counts) {
        Ok(ExecutionResult::Affected(n)) => assert_eq!(n, 7),
        _ => panic!("a summable batch must report its total"),
    }
}

#[test]
fn an_empty_batch_affects_nothing() {
    assert_eq!(total_affected(&Vec::new()), Some(0));
}

#[test]
fn an_overflowing_total_is_reported_not_wrapped() {
    let counts = vec![u64::MAX, 1u64];
    assert_eq!(total_affected(&counts), None);
    match collect_affected(&counts) {
        Err(Error::ExecutionFailed(msg)) => assert!(msg.contains("overflow")),
        _ => panic!("an overflowing total must surface as an execution error"),
    }
}

#[test]
fn a_timed_out_checkout_is_pool_exhaustion() {
    let e = classify_acquire_error("the request timed out while waiting");
    match e {
        Error::PoolExhausted(msg) => {
            assert!(msg.contains("pool"));
        },
        _ => panic!("a timeout must classify as pool exhaustion"),
    }
}

#[test]
fn any_other_checkout_failure_is_a_connect_error() {
    let e = classify_acquire_error("broken pipe");
    match e {
        Error::Connect(msg) => assert!(msg.contains("broken pipe")),
        _ => panic!("a non-timeout failure must classify as a connect error"),
    }
}
