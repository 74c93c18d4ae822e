use sql_aggregate::Aggregate;
use sql_aggregate::Value;
use sql_aggregate::aggregate;

fn labels(names: &[&str]) -> Vec<Option<String>> {
    names.iter().map(|n| Some(n.to_string())).collect()
}

#[test]
fn groups_by_trailing_key() {
    let columns = labels(&["amount", "bucket"]);
    let rows = vec![
        vec![Value::Integer(1), Value::Text("a".to_string())],
        vec![Value::Integer(2), Value::Text("a".to_string())],
        vec![Value::Integer(10), Value::Text("b".to_string())],
    ];
    let out = aggregate(columns, rows, vec![Aggregate::Sum]).unwrap();
    assert_eq!(out.rows.len(), 2);
    let expect_a = vec![Value::Integer(3), Value::Text("a".to_string())];
    let expect_b = vec![Value::Integer(10), Value::Text("b".to_string())];
    assert!(out.rows.contains(&expect_a));
    assert!(out.rows.contains(&expect_b));
}

#[test]
fn output_columns_drop_aggregate_labels() {
    let columns = labels(&["amount", "bucket"]);
    let rows = vec![vec![Value::Integer(1), Value::Text("a".to_string())]];
    let out = aggregate(columns, rows, vec![Aggregate::Sum]).unwrap();
    assert_eq!(out.columns, vec![None, Some("bucket".to_string())]);
}

#[test]
fn empty_input_without_grouping_yields_one_row() {
    let columns = labels(&["c", "s"]);
    let out = aggregate(columns, Vec::new(), vec![Aggregate::Count, Aggregate::Sum]).unwrap();
    assert_eq!(out.rows, vec![vec![Value::Integer(0), Value::Null]]);
    assert_eq!(out.columns, vec![None, None]);
}

#[test]
fn empty_input_with_grouping_yields_no_rows() {
    let columns = labels(&["c", "k"]);
    let out = aggregate(columns, Vec::new(), vec![Aggregate::Count]).unwrap();
    assert_eq!(out.rows.len(), 0);
}

#[test]
fn one_output_row_per_distinct_key() {
    let columns = labels(&["v", "k"]);
    let rows = vec![
        vec![Value::Integer(1), Value::Integer(7)],
        vec![Value::Integer(2), Value::Integer(8)],
        vec![Value::Integer(3), Value::Integer(7)],
        vec![Value::Integer(4), Value::Integer(9)],
        vec![Value::Integer(5), Value::Integer(8)],
    ];
    let out = aggregate(columns, rows, vec![Aggregate::Count]).unwrap();
    assert_eq!(out.rows.len(), 3);
}

#[test]
fn null_keys_group_together() {
    let columns = labels(&["v", "k"]);
    let rows = vec![
        vec![Value::Integer(1), Value::Null],
        vec![Value::Integer(2), Value::Null],
    ];
    let out = aggregate(columns, rows, vec![Aggregate::Sum]).unwrap();
    assert_eq!(out.rows, vec![vec![Value::Integer(3), Value::Null]]);
}

#[test]
fn several_aggregates_per_group() {
    let columns = labels(&["a", "b", "k"]);
    let rows = vec![
        vec![Value::Integer(1), Value::Integer(10), Value::Boolean(true)],
        vec![Value::Integer(3), Value::Integer(20), Value::Boolean(true)],
    ];
    let out = aggregate(
        columns,
        rows,
        vec![Aggregate::Min, Aggregate::Max],
    )
    .unwrap();
    assert_eq!(
        out.rows,
        vec![vec![Value::Integer(1), Value::Integer(20), Value::Boolean(true)]]
    );
}

#[test]
fn grouping_with_no_aggregates_deduplicates() {
    let columns = labels(&["k"]);
    let rows = vec![
        vec![Value::Integer(1)],
        vec![Value::Integer(2)],
        vec![Value::Integer(1)],
    ];
    let out = aggregate(columns, rows, Vec::new()).unwrap();
    assert_eq!(out.rows.len(), 2);
    assert!(out.rows.contains(&vec![Value::Integer(1)]));
    assert!(out.rows.contains(&vec![Value::Integer(2)]));
}

#[test]
fn average_by_group() {
    let columns = labels(&["v", "k"]);
    let rows = vec![
        vec![Value::Integer(5), Value::Text("x".to_string())],
        vec![Value::Integer(3), Value::Text("x".to_string())],
        vec![Value::Float(5.0f64.to_bits()), Value::Text("y".to_string())],
        vec![Value::Float(3.0f64.to_bits()), Value::Text("y".to_string())],
    ];
    let out = aggregate(columns, rows, vec![Aggregate::Average]).unwrap();
    assert_eq!(out.rows.len(), 2);
    assert!(out.rows.contains(&vec![Value::Integer(4), Value::Text("x".to_string())]));
    assert!(
        out.rows.contains(&vec![Value::Float(4.0f64.to_bits()), Value::Text("y".to_string())])
    );
}

#[test]
fn same_input_twice_gives_same_rows() {
    let columns = labels(&["v", "k"]);
    let rows = vec![
        vec![Value::Integer(1), Value::Text("a".to_string())],
        vec![Value::Integer(2), Value::Text("b".to_string())],
        vec![Value::Integer(3), Value::Text("a".to_string())],
    ];
    let out1 = aggregate(columns.clone(), rows.clone(), vec![Aggregate::Sum]).unwrap();
    let out2 = aggregate(columns, rows, vec![Aggregate::Sum]).unwrap();
    let mut sorted1 = out1.rows.clone();
    let mut sorted2 = out2.rows.clone();
    sorted1.sort_by(|a, b| format!("{a:?}").cmp(&format!("{b:?}")));
    sorted2.sort_by(|a, b| format!("{a:?}").cmp(&format!("{b:?}")));
    assert_eq!(sorted1, sorted2);
}

#[test]
fn multibyte_text_keys_group_correctly() {
    let columns = labels(&["v", "k"]);
    let rows = vec![
        vec![Value::Integer(1), Value::Text("\u{e9}t\u{e9}".to_string())],
        vec![Value::Integer(2), Value::Text("\u{e9}t\u{e9}".to_string())],
        vec![Value::Integer(4), Value::Text("ete".to_string())],
    ];
    let out = aggregate(columns, rows, vec![Aggregate::Count]).unwrap();
    assert_eq!(out.rows.len(), 2);
    assert!(
        out.rows.contains(&vec![Value::Integer(2), Value::Text("\u{e9}t\u{e9}".to_string())])
    );
    assert!(out.rows.contains(&vec![Value::Integer(1), Value::Text("ete".to_string())]));
}
