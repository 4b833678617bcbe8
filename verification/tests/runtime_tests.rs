use fastmssql::columns::ExecutionResult;
use fastmssql::errors::Error;
use fastmssql::host_value::HostValue;
use fastmssql::materialize::{materialize, CellData};
use fastmssql::wire_tag::WireTag;

#[test]
fn test_module_compilation() {
    // This test just ensures the library compiles correctly
    assert!(true);
}

#[test]
fn an_execution_result_is_exactly_one_of_the_two_arms() {
    let affected = ExecutionResult::Affected(5);
    assert!(affected.has_affected_count());
    assert!(!affected.has_rows());
    assert_eq!(affected.affected_rows(), Some(5));
    assert!(affected.rows().is_none());
    assert_eq!(affected.row_count(), 0);
}

#[test]
fn an_empty_result_set_reads_as_no_rows() {
    // the graceful-degrade path: a batch misrouted to the query
    // stream comes back with zero rows and a falsy answer
    let empty = materialize(Vec::new(), Vec::new(), Vec::new()).unwrap();
    let r = ExecutionResult::Rows(empty);
    assert!(!r.has_rows());
    assert_eq!(r.row_count(), 0);
    assert!(r.rows().is_some());

    let names = vec!["a".to_string()];
    let tags = vec![WireTag::Int4];
    let raw = vec![vec![CellData::I32(1)]];
    let one = ExecutionResult::Rows(materialize(names, tags, raw).unwrap());
    assert!(one.has_rows());
    assert_eq!(one.row_count(), 1);
}

#[test]
fn error_messages_carry_their_text() {
    let e = Error::ExecutionFailed("server said no".to_string());
    assert_eq!(e.message(), "server said no");
    assert!(!e.is_configuration());
    let c = Error::Configuration("bad bounds".to_string());
    assert!(c.is_configuration());
}

#[test]
fn host_values_compare_by_content() {
    assert_eq!(HostValue::Str("a".to_string()), HostValue::Str("a".to_string()));
    assert_ne!(HostValue::Str("a".to_string()), HostValue::Str("b".to_string()));
    assert_ne!(HostValue::Null, HostValue::Bool(false));
    assert_eq!(HostValue::Bytes(vec![1]), HostValue::Bytes(vec![1]));
    assert_ne!(HostValue::Bytes(vec![1]), HostValue::Bytes(vec![1, 2]));
    assert!(HostValue::Null.is_null());
    assert!(!HostValue::Bool(false).is_null());
}
