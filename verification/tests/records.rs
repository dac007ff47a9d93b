use blog_core::record::Record;
use blog_core::value::Value;

fn names(list: &[&str]) -> Vec<String> {
    list.iter().map(|name| name.to_string()).collect()
}

#[test]
fn new_record_holds_nothing() {
    let record = Record::new();
    assert!(record.get("id").is_none());
    assert!(!record.contains("id"));
    assert!(!record.contains(""));
}

#[test]
fn inserted_value_is_found_under_its_name() {
    let mut record = Record::new();
    record.insert("id".to_string(), Value::Integer(3));
    record.insert("title".to_string(), Value::Text("Hello".to_string()));
    assert_eq!(record.get("id"), Some(&Value::Integer(3)));
    assert_eq!(record.get("title"), Some(&Value::Text("Hello".to_string())));
    assert!(record.contains("id"));
    assert!(record.get("footer").is_none());
}

#[test]
fn names_are_told_apart_exactly() {
    let mut record = Record::new();
    record.insert("title".to_string(), Value::Integer(1));
    assert!(record.get("Title").is_none());
    assert!(record.get("titl").is_none());
    assert!(record.get("title ").is_none());
    assert!(record.get("").is_none());
}

#[test]
fn insert_under_a_present_name_replaces_the_value() {
    let mut record = Record::new();
    record.insert("id".to_string(), Value::Integer(1));
    record.insert("title".to_string(), Value::Text("a".to_string()));
    record.insert("id".to_string(), Value::Integer(2));
    assert_eq!(record.get("id"), Some(&Value::Integer(2)));
    assert_eq!(record.get("title"), Some(&Value::Text("a".to_string())));
}

#[test]
fn insert_may_change_the_kind_of_a_value() {
    let mut record = Record::new();
    record.insert("id".to_string(), Value::Integer(1));
    record.insert("id".to_string(), Value::Null);
    assert_eq!(record.get("id"), Some(&Value::Null));
}

#[test]
fn row_is_paired_with_columns_by_position() {
    let columns = names(&["id", "title", "timeadd"]);
    let row = vec![
        Value::Integer(4),
        Value::Text("Fourth".to_string()),
        Value::Text("2023-01-04 00:00:00".to_string()),
    ];
    let record = Record::from_row(&columns, &row);
    assert_eq!(record.get("id"), Some(&Value::Integer(4)));
    assert_eq!(record.get("title"), Some(&Value::Text("Fourth".to_string())));
    assert_eq!(
        record.get("timeadd"),
        Some(&Value::Text("2023-01-04 00:00:00".to_string()))
    );
}

#[test]
fn row_shorter_than_columns_leaves_the_rest_absent() {
    let columns = names(&["id", "title", "timeadd"]);
    let row = vec![Value::Integer(4)];
    let record = Record::from_row(&columns, &row);
    assert_eq!(record.get("id"), Some(&Value::Integer(4)));
    assert!(record.get("title").is_none());
    assert!(record.get("timeadd").is_none());
}

#[test]
fn row_longer_than_columns_drops_the_rest() {
    let columns = names(&["id"]);
    let row = vec![Value::Integer(4), Value::Integer(5), Value::Integer(6)];
    let record = Record::from_row(&columns, &row);
    assert_eq!(record.get("id"), Some(&Value::Integer(4)));
}

#[test]
fn empty_row_or_no_columns_make_an_empty_record() {
    let none: Vec<String> = Vec::new();
    let record = Record::from_row(&none, &vec![Value::Integer(1)]);
    assert!(record.get("id").is_none());
    let record = Record::from_row(&names(&["id"]), &Vec::new());
    assert!(record.get("id").is_none());
}

#[test]
fn column_named_twice_takes_the_later_value() {
    let columns = names(&["id", "title", "id"]);
    let row = vec![Value::Integer(1), Value::Text("t".to_string()), Value::Integer(9)];
    let record = Record::from_row(&columns, &row);
    assert_eq!(record.get("id"), Some(&Value::Integer(9)));
    assert_eq!(record.get("title"), Some(&Value::Text("t".to_string())));
}

#[test]
fn column_named_twice_beyond_the_row_keeps_the_earlier_value() {
    let columns = names(&["id", "title", "id"]);
    let row = vec![Value::Integer(1), Value::Text("t".to_string())];
    let record = Record::from_row(&columns, &row);
    assert_eq!(record.get("id"), Some(&Value::Integer(1)));
}

#[test]
fn from_row_leaves_its_arguments_as_they_were() {
    let columns = names(&["id"]);
    let row = vec![Value::Text("x".to_string())];
    let _ = Record::from_row(&columns, &row);
    assert_eq!(columns, names(&["id"]));
    assert_eq!(row, vec![Value::Text("x".to_string())]);
}
