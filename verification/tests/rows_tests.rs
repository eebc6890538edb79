use libsql::errors::Error;
use libsql::params::{Value, ValueRef, ValueType};
use libsql::rows::{
    MappedRows, Row, Rows, Statement, SQLITE_BLOB, SQLITE_DONE, SQLITE_FLOAT, SQLITE_INTEGER,
    SQLITE_NULL, SQLITE_OK, SQLITE_ROW, SQLITE_TEXT,
};

fn one_row_statement() -> Statement {
    Statement::new(
        "SELECT x FROM t".to_string(),
        vec!["x".to_string()],
        vec![vec![Value::Integer(1)]],
    )
}

fn typed_statement() -> Statement {
    Statement::new(
        "SELECT a, b, c, d, e FROM t".to_string(),
        vec![
            "a".to_string(),
            "b".to_string(),
            "c".to_string(),
            "d".to_string(),
            "e".to_string(),
        ],
        vec![vec![
            Value::Integer(7),
            Value::Real(1.5f64.to_bits()),
            Value::Text("hi".to_string()),
            Value::Blob(vec![1, 2, 3]),
            Value::Null,
        ]],
    )
}

#[test]
fn rows_walk_the_grid_in_order() {
    let stmt = Statement::new(
        "SELECT x FROM t".to_string(),
        vec!["x".to_string()],
        vec![vec![Value::Integer(1)], vec![Value::Integer(2)]],
    );
    let mut rows = Rows::new(stmt);
    assert_eq!(rows.column_count(), 1);
    assert_eq!(rows.column_name(0), "x");

    let first = rows.next().unwrap().unwrap();
    assert!(matches!(first.get_value(0).unwrap(), Value::Integer(1)));
    let second = rows.next().unwrap().unwrap();
    assert!(matches!(second.get_value(0).unwrap(), Value::Integer(2)));
    assert!(rows.next().unwrap().is_none());
}

#[test]
fn query_returns_one_row_with_value_one() {
    let mut rows = Rows::new(one_row_statement());
    let row = rows.next().unwrap().unwrap();
    assert!(matches!(row.get_value(0).unwrap(), Value::Integer(1)));
    assert_eq!(row.column_name(0), "x");
    assert!(rows.next().unwrap().is_none());
}

#[test]
fn column_types_reflect_the_current_row() {
    let rows = Rows::new(typed_statement());
    assert_eq!(rows.column_type(0), SQLITE_INTEGER);
    assert_eq!(rows.column_type(1), SQLITE_FLOAT);
    assert_eq!(rows.column_type(2), SQLITE_TEXT);
    assert_eq!(rows.column_type(3), SQLITE_BLOB);
    assert_eq!(rows.column_type(4), SQLITE_NULL);
}

#[test]
fn column_type_is_null_once_exhausted() {
    let mut rows = Rows::new(one_row_statement());
    rows.next().unwrap();
    assert!(rows.next().unwrap().is_none());
    assert_eq!(rows.column_type(0), SQLITE_NULL);
}

#[test]
fn row_reports_value_types() {
    let mut rows = Rows::new(typed_statement());
    let row = rows.next().unwrap().unwrap();
    assert_eq!(row.column_type(0).unwrap(), ValueType::Integer);
    assert_eq!(row.column_type(1).unwrap(), ValueType::Real);
    assert_eq!(row.column_type(2).unwrap(), ValueType::Text);
    assert_eq!(row.column_type(3).unwrap(), ValueType::Blob);
    assert_eq!(row.column_type(4).unwrap(), ValueType::Null);
}

#[test]
fn row_hands_out_borrowed_values() {
    let mut rows = Rows::new(typed_statement());
    let row = rows.next().unwrap().unwrap();
    assert!(matches!(row.get_ref(0).unwrap(), ValueRef::Integer(7)));
    assert!(matches!(row.get_ref(2).unwrap(), ValueRef::Text("hi")));
    assert!(matches!(row.get_ref(3).unwrap(), ValueRef::Blob(&[1, 2, 3])));
    assert!(matches!(row.get_ref(4).unwrap(), ValueRef::Null));
    let bits = match row.get_ref(1).unwrap() {
        ValueRef::Real(b) => b,
        _ => panic!("expected a real"),
    };
    assert_eq!(f64::from_bits(bits), 1.5);
}

#[test]
fn stored_error_code_surfaces_once() {
    let mut rows = Rows::with_step_result(one_row_statement(), 7);
    let e = rows.next().unwrap_err();
    assert!(matches!(e, Error::FetchRowFailed(7)));
    // The code was consumed; stepping proceeds normally.
    assert!(rows.next().unwrap().is_some());
}

#[test]
fn stored_ok_and_done_codes_mean_no_row() {
    let mut rows = Rows::with_step_result(one_row_statement(), SQLITE_OK) ;
    assert!(rows.next().unwrap().is_none());
    assert!(rows.next().unwrap().is_some());

    let mut rows = Rows::with_step_result(one_row_statement(), SQLITE_DONE);
    assert!(rows.next().unwrap().is_none());
}

#[test]
fn stored_row_code_hands_out_the_row() {
    let mut rows = Rows::with_step_result(one_row_statement(), SQLITE_ROW);
    let row = rows.next().unwrap().unwrap();
    assert!(matches!(row.get_value(0).unwrap(), Value::Integer(1)));
    assert!(rows.next().unwrap().is_none());
}

#[test]
fn as_ref_exposes_the_statement() {
    let rows = Rows::new(one_row_statement());
    assert_eq!(rows.as_ref().sql, "SELECT x FROM t");
    assert_eq!(rows.as_ref().cols.len(), 1);
}

#[test]
fn value_reports_its_type() {
    assert_eq!(Value::Null.value_type(), ValueType::Null);
    assert_eq!(Value::Integer(3).value_type(), ValueType::Integer);
    assert_eq!(Value::Real(0).value_type(), ValueType::Real);
    assert_eq!(Value::Text("t".to_string()).value_type(), ValueType::Text);
    assert_eq!(Value::Blob(vec![]).value_type(), ValueType::Blob);
}

#[test]
fn value_clone_preserves_the_value() {
    let v = Value::Text("abc".to_string());
    assert!(matches!(v.clone(), Value::Text(s) if s == "abc"));
    let b = Value::Blob(vec![9, 9]);
    assert!(matches!(b.clone(), Value::Blob(p) if p == vec![9, 9]));
}

#[test]
fn mapped_rows_pairs_cursor_and_mapping() {
    let rows = Rows::new(one_row_statement());
    let mapped = MappedRows::new(rows, |row: Row| row.get_value(0));
    let mut inner = mapped.rows;
    let map = mapped.map;
    let row = inner.next().unwrap().unwrap();
    assert!(matches!((map)(row).unwrap(), Value::Integer(1)));
}
