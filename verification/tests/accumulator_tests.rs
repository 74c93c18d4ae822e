use sql_aggregate::Average;
use sql_aggregate::Count;
use sql_aggregate::Max;
use sql_aggregate::Min;
use sql_aggregate::Sum;
use sql_aggregate::Value;

#[test]
fn count_ignores_null() {
    let mut c = Count::new();
    c.accumulate(&Value::Integer(1)).unwrap();
    c.accumulate(&Value::Null).unwrap();
    c.accumulate(&Value::Integer(2)).unwrap();
    assert_eq!(c.aggregate(), Value::Integer(2));
}

#[test]
fn count_empty_is_zero() {
    let c = Count::new();
    assert_eq!(c.aggregate(), Value::Integer(0));
}

#[test]
fn count_counts_any_non_null() {
    let mut c = Count::new();
    c.accumulate(&Value::Boolean(false)).unwrap();
    c.accumulate(&Value::Text("x".to_string())).unwrap();
    c.accumulate(&Value::Float(1.5f64.to_bits())).unwrap();
    assert_eq!(c.aggregate(), Value::Integer(3));
}

#[test]
fn sum_poisons_on_null() {
    let mut s = Sum::new();
    s.accumulate(&Value::Integer(5)).unwrap();
    s.accumulate(&Value::Null).unwrap();
    s.accumulate(&Value::Integer(3)).unwrap();
    assert_eq!(s.aggregate(), Value::Null);
}

#[test]
fn sum_of_integers() {
    let mut s = Sum::new();
    s.accumulate(&Value::Integer(1)).unwrap();
    s.accumulate(&Value::Integer(2)).unwrap();
    s.accumulate(&Value::Integer(3)).unwrap();
    assert_eq!(s.aggregate(), Value::Integer(6));
}

#[test]
fn sum_poisons_on_type_mismatch() {
    let mut s = Sum::new();
    s.accumulate(&Value::Integer(1)).unwrap();
    s.accumulate(&Value::Float(2.0f64.to_bits())).unwrap();
    assert_eq!(s.aggregate(), Value::Null);
}

#[test]
fn sum_of_floats() {
    let mut s = Sum::new();
    s.accumulate(&Value::Float(1.5f64.to_bits())).unwrap();
    s.accumulate(&Value::Float(2.25f64.to_bits())).unwrap();
    assert_eq!(s.aggregate(), Value::Float(3.75f64.to_bits()));
}

#[test]
fn sum_never_set_is_null() {
    let s = Sum::new();
    assert_eq!(s.aggregate(), Value::Null);
}

#[test]
fn sum_wraps_on_overflow() {
    let mut s = Sum::new();
    s.accumulate(&Value::Integer(i64::MAX)).unwrap();
    s.accumulate(&Value::Integer(1)).unwrap();
    assert_eq!(s.aggregate(), Value::Integer(i64::MIN));
}

#[test]
fn average_truncates_integers() {
    let mut a = Average::new();
    a.accumulate(&Value::Integer(5)).unwrap();
    a.accumulate(&Value::Integer(3)).unwrap();
    assert_eq!(a.aggregate(), Value::Integer(4));
}

#[test]
fn average_truncates_toward_zero() {
    let mut a = Average::new();
    a.accumulate(&Value::Integer(-7)).unwrap();
    a.accumulate(&Value::Integer(-2)).unwrap();
    // (-7 + -2) / 2 rounds toward zero: -4, not -5.
    assert_eq!(a.aggregate(), Value::Integer(-4));
}

#[test]
fn average_of_floats() {
    let mut a = Average::new();
    a.accumulate(&Value::Float(5.0f64.to_bits())).unwrap();
    a.accumulate(&Value::Float(3.0f64.to_bits())).unwrap();
    assert_eq!(a.aggregate(), Value::Float(4.0f64.to_bits()));
}

#[test]
fn average_empty_is_null() {
    let a = Average::new();
    assert_eq!(a.aggregate(), Value::Null);
}

#[test]
fn average_poisons_on_null() {
    let mut a = Average::new();
    a.accumulate(&Value::Integer(4)).unwrap();
    a.accumulate(&Value::Null).unwrap();
    assert_eq!(a.aggregate(), Value::Null);
}

#[test]
fn max_poisons_on_null() {
    let mut m = Max::new();
    m.accumulate(&Value::Integer(5)).unwrap();
    m.accumulate(&Value::Null).unwrap();
    m.accumulate(&Value::Integer(10)).unwrap();
    assert_eq!(m.aggregate(), Value::Null);
}

#[test]
fn min_poisons_on_null() {
    let mut m = Min::new();
    m.accumulate(&Value::Integer(5)).unwrap();
    m.accumulate(&Value::Null).unwrap();
    m.accumulate(&Value::Integer(1)).unwrap();
    assert_eq!(m.aggregate(), Value::Null);
}

#[test]
fn max_of_clean_integers() {
    let mut m = Max::new();
    m.accumulate(&Value::Integer(3)).unwrap();
    m.accumulate(&Value::Integer(7)).unwrap();
    m.accumulate(&Value::Integer(2)).unwrap();
    assert_eq!(m.aggregate(), Value::Integer(7));
}

#[test]
fn min_of_clean_integers() {
    let mut m = Min::new();
    m.accumulate(&Value::Integer(3)).unwrap();
    m.accumulate(&Value::Integer(7)).unwrap();
    m.accumulate(&Value::Integer(2)).unwrap();
    assert_eq!(m.aggregate(), Value::Integer(2));
}

#[test]
fn max_of_floats() {
    let mut m = Max::new();
    m.accumulate(&Value::Float(1.0f64.to_bits())).unwrap();
    m.accumulate(&Value::Float(2.5f64.to_bits())).unwrap();
    m.accumulate(&Value::Float(0.5f64.to_bits())).unwrap();
    assert_eq!(m.aggregate(), Value::Float(2.5f64.to_bits()));
}

#[test]
fn max_poisons_on_nan() {
    let mut m = Max::new();
    m.accumulate(&Value::Float(1.0f64.to_bits())).unwrap();
    m.accumulate(&Value::Float(f64::NAN.to_bits())).unwrap();
    assert_eq!(m.aggregate(), Value::Null);
}

#[test]
fn max_of_text() {
    let mut m = Max::new();
    m.accumulate(&Value::Text("pear".to_string())).unwrap();
    m.accumulate(&Value::Text("apple".to_string())).unwrap();
    m.accumulate(&Value::Text("orange".to_string())).unwrap();
    assert_eq!(m.aggregate(), Value::Text("pear".to_string()));
}

#[test]
fn min_of_text() {
    let mut m = Min::new();
    m.accumulate(&Value::Text("pear".to_string())).unwrap();
    m.accumulate(&Value::Text("apple".to_string())).unwrap();
    m.accumulate(&Value::Text("orange".to_string())).unwrap();
    assert_eq!(m.aggregate(), Value::Text("apple".to_string()));
}

#[test]
fn max_poisons_on_type_mismatch() {
    let mut m = Max::new();
    m.accumulate(&Value::Integer(5)).unwrap();
    m.accumulate(&Value::Text("five".to_string())).unwrap();
    m.accumulate(&Value::Integer(10)).unwrap();
    assert_eq!(m.aggregate(), Value::Null);
}

#[test]
fn max_first_value_adopted_even_null() {
    let mut m = Max::new();
    m.accumulate(&Value::Null).unwrap();
    m.accumulate(&Value::Integer(10)).unwrap();
    assert_eq!(m.aggregate(), Value::Null);
}

#[test]
fn finalize_is_idempotent() {
    let mut s = Sum::new();
    s.accumulate(&Value::Integer(2)).unwrap();
    s.accumulate(&Value::Integer(3)).unwrap();
    let first = s.aggregate();
    let second = s.aggregate();
    assert_eq!(first, second);
    assert_eq!(first, Value::Integer(5));
    let mut m = Max::new();
    m.accumulate(&Value::Text("a".to_string())).unwrap();
    assert_eq!(m.aggregate(), m.aggregate());
}
