use fastmssql::host_value::HostValue;
use fastmssql::query::Query;

#[test]
fn test_query_creation() {
    let query = Query::new("SELECT * FROM users".to_string());
    assert_eq!(query.get_sql(), "SELECT * FROM users");
    assert_eq!(query.get_parameters().len(), 0);
}

#[test]
fn test_query_sql_property() {
    let query = Query::new("SELECT * FROM products WHERE price > 100".to_string());
    assert_eq!(query.get_sql(), "SELECT * FROM products WHERE price > 100");
}

#[test]
fn test_query_string_representation() {
    let query = Query::new("SELECT * FROM users".to_string());
    let str_repr = query.describe();
    assert!(str_repr.contains("SELECT * FROM users"));
    assert!(str_repr.contains("0 parameters"));
}

#[test]
fn describe_counts_the_parameters() {
    let mut query = Query::new("SELECT * FROM t WHERE a = @P1 AND b = @P2".to_string());
    query.add_parameter(HostValue::Int(1));
    query.add_parameter(HostValue::Str(String::from("x")));
    assert!(query.describe().contains("2 parameters"));
}

#[test]
fn parameters_keep_their_order() {
    let mut query = Query::new("SELECT 1".to_string());
    query.add_parameter(HostValue::Int(7));
    query.add_parameter(HostValue::Bool(false));
    let ps = query.get_parameters();
    assert_eq!(ps.len(), 2);
    assert!(matches!(ps[0], HostValue::Int(7)));
    assert!(matches!(ps[1], HostValue::Bool(false)));
}

#[test]
fn set_parameters_replaces_the_list() {
    let mut query = Query::new("SELECT 1".to_string());
    query.add_parameter(HostValue::Int(7));
    query.set_parameters(vec![HostValue::Null]);
    let ps = query.get_parameters();
    assert_eq!(ps.len(), 1);
    assert!(matches!(ps[0], HostValue::Null));
}
