use fastmssql::classifier::{classify, strip_comments, StatementKind};

#[test]
fn select_returns_rows() {
    assert_eq!(classify("SELECT * FROM users"), StatementKind::ReturnsRows);
}

#[test]
fn with_cte_returns_rows() {
    assert_eq!(
        classify("WITH x AS (SELECT 1 AS n) SELECT n FROM x"),
        StatementKind::ReturnsRows
    );
}

#[test]
fn exec_returns_rows() {
    assert_eq!(classify("exec sp_who"), StatementKind::ReturnsRows);
}

#[test]
fn execute_returns_rows() {
    assert_eq!(classify("EXECUTE sp_who"), StatementKind::ReturnsRows);
}

#[test]
fn leading_whitespace_and_case_are_tolerated() {
    assert_eq!(classify("   \t\n  sElEcT 1"), StatementKind::ReturnsRows);
}

#[test]
fn insert_values_returns_no_rows() {
    assert_eq!(classify("insert into t values (1)"), StatementKind::NoRows);
}

#[test]
fn insert_select_returns_rows_by_the_token_rule() {
    assert_eq!(
        classify("insert into t select * from u"),
        StatementKind::ReturnsRows
    );
}

#[test]
fn update_returns_no_rows() {
    assert_eq!(classify("update t set x=1; update t set x=2"), StatementKind::NoRows);
}

#[test]
fn any_semicolon_separated_statement_counts() {
    assert_eq!(
        classify("update t set x=1; select * from t"),
        StatementKind::ReturnsRows
    );
}

#[test]
fn line_comment_is_stripped_before_analysis() {
    // the select lives only inside the comment
    assert_eq!(classify("-- select 1\ninsert into t values (1)"), StatementKind::NoRows);
    // the comment hides the line, the real statement follows
    assert_eq!(classify("-- note\nselect 1"), StatementKind::ReturnsRows);
}

#[test]
fn block_comment_is_replaced_by_a_space() {
    assert_eq!(classify("/* hello */select 1"), StatementKind::ReturnsRows);
    // the space keeps token boundaries: `select` stays delimited
    assert_eq!(
        classify("insert into t/* c */select * from u"),
        StatementKind::ReturnsRows
    );
    assert_eq!(classify("/* select 1 */ delete from t"), StatementKind::NoRows);
}

#[test]
fn unterminated_block_comment_swallows_the_rest() {
    assert_eq!(classify("/* select 1"), StatementKind::NoRows);
}

#[test]
fn selection_prefix_still_counts_as_select() {
    // prefix matching, as the heuristic intends: no delimiter is required
    assert_eq!(classify("selection"), StatementKind::ReturnsRows);
}

#[test]
fn empty_text_returns_no_rows() {
    assert_eq!(classify(""), StatementKind::NoRows);
    assert_eq!(classify("   "), StatementKind::NoRows);
}

#[test]
fn strip_comments_exact_output() {
    let out = strip_comments(b"a -- x\nb /* y */ c");
    assert_eq!(out, b"a \nb   c".to_vec());
}

#[test]
fn strip_comments_keeps_plain_text() {
    let out = strip_comments(b"select 1");
    assert_eq!(out, b"select 1".to_vec());
}
