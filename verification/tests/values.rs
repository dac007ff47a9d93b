use blog_core::value::Value;

#[test]
fn integer_reads_as_integer_only() {
    let value = Value::Integer(42);
    assert_eq!(value.as_integer(), Some(42));
    assert_eq!(value.as_string(), None);
    assert_eq!(value.as_binary(), None);
}

#[test]
fn integer_keeps_its_extremes() {
    assert_eq!(Value::Integer(i64::MIN).as_integer(), Some(i64::MIN));
    assert_eq!(Value::Integer(i64::MAX).as_integer(), Some(i64::MAX));
    assert_eq!(Value::Integer(-1).as_integer(), Some(-1));
}

#[test]
fn text_reads_as_string_only() {
    let value = Value::Text("hello".to_string());
    assert_eq!(value.as_string(), Some("hello"));
    assert_eq!(value.as_integer(), None);
    assert_eq!(value.as_binary(), None);
}

#[test]
fn empty_text_is_still_a_string() {
    assert_eq!(Value::Text(String::new()).as_string(), Some(""));
}

#[test]
fn binary_reads_as_bytes_only() {
    let value = Value::Binary(vec![1, 2, 3]);
    assert_eq!(value.as_binary(), Some(&vec![1u8, 2, 3]));
    assert_eq!(value.as_integer(), None);
    assert_eq!(value.as_string(), None);
}

#[test]
fn null_and_real_read_as_nothing() {
    assert_eq!(Value::Null.as_integer(), None);
    assert_eq!(Value::Null.as_string(), None);
    assert_eq!(Value::Null.as_binary(), None);
    let real = Value::Real(1.5f64.to_bits());
    assert_eq!(real.as_integer(), None);
    assert_eq!(real.as_string(), None);
    assert_eq!(real.as_binary(), None);
}

#[test]
fn real_carries_the_bits_of_the_number() {
    match Value::Real(2.25f64.to_bits()) {
        Value::Real(bits) => assert_eq!(f64::from_bits(bits), 2.25),
        other => panic!("not a real: {:?}", other),
    }
}

#[test]
fn clone_keeps_kind_and_content() {
    let values = vec![
        Value::Binary(vec![0, 255, 7]),
        Value::Real(7),
        Value::Integer(-9),
        Value::Text("2023-01-05 10:00:00".to_string()),
        Value::Null,
    ];
    for value in &values {
        assert_eq!(&value.clone(), value);
    }
}

#[test]
fn clone_is_independent_of_the_source() {
    let source = Value::Text("a".to_string());
    let copy = source.clone();
    drop(source);
    assert_eq!(copy.as_string(), Some("a"));
}
