use blog_core::entity::{
    has_date, integer_or, map_to_post, map_to_summary, text_or, Post, Summary, DATE_LENGTH,
    MISSING_CONTENT, MISSING_DATE, MISSING_FOOTER, MISSING_INTEGER, MISSING_TITLE,
};
use blog_core::record::Record;
use blog_core::value::Value;

fn text(value: &str) -> Value {
    Value::Text(value.to_string())
}

fn record_of(entries: Vec<(&str, Value)>) -> Record {
    let mut record = Record::new();
    for (name, value) in entries {
        record.insert(name.to_string(), value);
    }
    record
}

fn full_record() -> Record {
    record_of(vec![
        ("id", Value::Integer(7)),
        ("content", text("Body")),
        ("title", text("Seventh")),
        ("footer", text("Foot")),
        ("timeadd", text("2023-01-07 12:34:56")),
    ])
}

#[test]
fn fallbacks_are_the_fixed_markers() {
    assert_eq!(MISSING_INTEGER, -1);
    assert_eq!(MISSING_TITLE, "Error: Title not found.");
    assert_eq!(MISSING_CONTENT, "Error: Content not found.");
    assert_eq!(MISSING_FOOTER, "Error: Footer not found.");
    assert_eq!(MISSING_DATE, "Error: Date not found.");
    assert_eq!(DATE_LENGTH, 10);
}

#[test]
fn full_record_maps_to_its_post() {
    let record = full_record();
    assert!(has_date(&record));
    assert_eq!(
        map_to_post(&record),
        Post {
            id: 7,
            title: "Seventh".to_string(),
            content: "Body".to_string(),
            footer: "Foot".to_string(),
            date: "2023-01-07".to_string(),
        }
    );
}

#[test]
fn full_record_maps_to_its_summary() {
    let record = full_record();
    assert_eq!(
        map_to_summary(&record),
        Summary { id: 7, title: "Seventh".to_string(), date: "2023-01-07".to_string() }
    );
}

#[test]
fn date_is_the_first_ten_characters_of_the_timestamp() {
    for timestamp in [
        "2023-01-07 12:34:56",
        "2023-01-07",
        "2023-01-07T00:00:00.000Z and more",
        "0123456789abcdef",
    ] {
        let record = record_of(vec![("timeadd", text(timestamp))]);
        assert!(has_date(&record));
        let expected: String = timestamp.chars().take(10).collect();
        assert_eq!(map_to_post(&record).date, expected);
        assert_eq!(map_to_summary(&record).date, expected);
    }
}

#[test]
fn date_counts_characters_not_bytes() {
    let record = record_of(vec![("timeadd", text("二〇二三年一月七日零時零分"))]);
    assert!(has_date(&record));
    assert_eq!(map_to_post(&record).date, "二〇二三年一月七日零");
    let record = record_of(vec![("timeadd", text("日月火水木金土"))]);
    assert!(!has_date(&record));
}

#[test]
fn timestamp_of_exactly_ten_characters_is_its_own_date() {
    let record = record_of(vec![("timeadd", text("2023-01-07"))]);
    assert!(has_date(&record));
    assert_eq!(map_to_summary(&record).date, "2023-01-07");
}

#[test]
fn timestamp_under_ten_characters_has_no_date() {
    for timestamp in ["", "2", "2023", "2023-01-0"] {
        let record = record_of(vec![("id", Value::Integer(1)), ("timeadd", text(timestamp))]);
        assert!(!has_date(&record));
    }
}

#[test]
fn missing_title_falls_back_to_its_marker() {
    let record = record_of(vec![
        ("id", Value::Integer(7)),
        ("content", text("Body")),
        ("footer", text("Foot")),
        ("timeadd", text("2023-01-07 12:34:56")),
    ]);
    let post = map_to_post(&record);
    assert_eq!(post.title, "Error: Title not found.");
    assert_eq!(post.content, "Body");
    assert_eq!(post.footer, "Foot");
    assert_eq!(post.id, 7);
    assert_eq!(post.date, "2023-01-07");
    assert_eq!(map_to_summary(&record).title, "Error: Title not found.");
}

#[test]
fn missing_content_falls_back_to_its_marker() {
    let record = record_of(vec![
        ("id", Value::Integer(7)),
        ("title", text("Seventh")),
        ("footer", text("Foot")),
        ("timeadd", text("2023-01-07 12:34:56")),
    ]);
    let post = map_to_post(&record);
    assert_eq!(post.content, "Error: Content not found.");
    assert_eq!(post.title, "Seventh");
    assert_eq!(post.footer, "Foot");
}

#[test]
fn missing_footer_falls_back_to_its_marker() {
    let record = record_of(vec![
        ("id", Value::Integer(7)),
        ("title", text("Seventh")),
        ("content", text("Body")),
        ("timeadd", text("2023-01-07 12:34:56")),
    ]);
    let post = map_to_post(&record);
    assert_eq!(post.footer, "Error: Footer not found.");
    assert_eq!(post.title, "Seventh");
    assert_eq!(post.content, "Body");
}

#[test]
fn missing_id_falls_back_to_minus_one() {
    let record = record_of(vec![("timeadd", text("2023-01-07 12:34:56"))]);
    assert_eq!(map_to_post(&record).id, -1);
    assert_eq!(map_to_summary(&record).id, -1);
}

#[test]
fn field_of_the_wrong_kind_falls_back_like_a_missing_one() {
    let record = record_of(vec![
        ("id", text("7")),
        ("title", Value::Integer(1)),
        ("content", Value::Null),
        ("footer", Value::Binary(vec![1, 2])),
        ("timeadd", text("2023-01-07 12:34:56")),
    ]);
    assert_eq!(
        map_to_post(&record),
        Post {
            id: -1,
            title: "Error: Title not found.".to_string(),
            content: "Error: Content not found.".to_string(),
            footer: "Error: Footer not found.".to_string(),
            date: "2023-01-07".to_string(),
        }
    );
    assert_eq!(
        map_to_summary(&record),
        Summary {
            id: -1,
            title: "Error: Title not found.".to_string(),
            date: "2023-01-07".to_string(),
        }
    );
}

#[test]
fn missing_timestamp_dates_the_entity_by_its_marker() {
    let record = record_of(vec![("id", Value::Integer(7))]);
    assert!(has_date(&record));
    assert_eq!(map_to_post(&record).date, "Error: Dat");
    assert_eq!(map_to_summary(&record).date, "Error: Dat");
}

#[test]
fn timestamp_of_the_wrong_kind_dates_the_entity_by_its_marker() {
    for value in [Value::Integer(20230107), Value::Null, Value::Real(0), Value::Binary(vec![])] {
        let record = record_of(vec![("timeadd", value)]);
        assert!(has_date(&record));
        assert_eq!(map_to_post(&record).date, "Error: Dat");
    }
}

#[test]
fn empty_record_maps_to_all_markers() {
    let record = Record::new();
    assert!(has_date(&record));
    assert_eq!(
        map_to_post(&record),
        Post {
            id: -1,
            title: "Error: Title not found.".to_string(),
            content: "Error: Content not found.".to_string(),
            footer: "Error: Footer not found.".to_string(),
            date: "Error: Dat".to_string(),
        }
    );
}

#[test]
fn integer_or_takes_the_callers_fallback() {
    let record = record_of(vec![("id", Value::Integer(5)), ("title", text("t"))]);
    assert_eq!(integer_or(&record, "id", 0), 5);
    assert_eq!(integer_or(&record, "other", 99), 99);
    assert_eq!(integer_or(&record, "title", -3), -3);
}

#[test]
fn text_or_takes_the_callers_fallback() {
    let record = record_of(vec![("id", Value::Integer(5)), ("title", text("t"))]);
    assert_eq!(text_or(&record, "title", "none"), "t");
    assert_eq!(text_or(&record, "other", "none"), "none");
    assert_eq!(text_or(&record, "id", ""), "");
}

#[test]
fn mapping_reads_only_its_own_columns() {
    let mut record = full_record();
    record.insert("extra".to_string(), text("ignored"));
    record.insert("date".to_string(), text("1999-12-31"));
    assert_eq!(map_to_post(&record).date, "2023-01-07");
    assert_eq!(map_to_summary(&record).title, "Seventh");
}

#[test]
fn clones_of_entities_equal_their_sources() {
    let post = map_to_post(&full_record());
    assert_eq!(post.clone(), post);
    let summary = map_to_summary(&full_record());
    assert_eq!(summary.clone(), summary);
}
