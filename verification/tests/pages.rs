use blog_core::entity::{Post, Summary};
use blog_core::page::{
    browse_posts, create_template, get_post, index, page_of, BLOG_PARENT, BROWSE_LIMIT,
    BROWSE_PARENT, FRONT_PAGE_LIMIT, INDEX_TEMPLATE,
};
use blog_core::repository::ShortTimestamp;
use blog_core::value::Value;
use std::cell::RefCell;

type Rows = Vec<Vec<Value>>;

const POSTS_LATEST: &str =
    "select id, content, title, footer, timeadd from posts order by id desc limit ?";
const POST_BY_ID: &str = "select id, content, title, footer, timeadd from posts where id=?";
const SUMMARIES_LATEST: &str = "select id, title, timeadd from posts order by id desc limit ?";

fn text(value: &str) -> Value {
    Value::Text(value.to_string())
}

fn post_row(id: i64, stamp: &str) -> Vec<Value> {
    vec![Value::Integer(id), text("c"), text("t"), text("f"), text(stamp)]
}

fn summary_row(id: i64, stamp: &str) -> Vec<Value> {
    vec![Value::Integer(id), text("t"), text(stamp)]
}

fn summary(id: i64, date: &str) -> Summary {
    Summary { id, title: "t".to_string(), date: date.to_string() }
}

fn post(id: i64, date: &str) -> Post {
    Post {
        id,
        title: "t".to_string(),
        content: "c".to_string(),
        footer: "f".to_string(),
        date: date.to_string(),
    }
}

#[test]
fn names_and_limits_are_the_fixed_ones() {
    assert_eq!(BLOG_PARENT, "blog");
    assert_eq!(BROWSE_PARENT, "browse");
    assert_eq!(INDEX_TEMPLATE, "index");
    assert_eq!(FRONT_PAGE_LIMIT, 5);
    assert_eq!(BROWSE_LIMIT, 1000);
}

#[test]
fn page_of_joins_its_parts() {
    let page = page_of(7u8, "parent", "template", vec![summary(1, "2023-01-01")]);
    assert_eq!(page.template, "template");
    assert_eq!(page.context.parent, "parent");
    assert_eq!(page.context.content, 7);
    assert_eq!(page.context.summaries, vec![summary(1, "2023-01-01")]);
}

#[test]
fn create_template_fetches_the_sidebar() {
    let seen: RefCell<Vec<(String, Vec<Value>)>> = RefCell::new(Vec::new());
    let fetch = |statement: &String, inputs: &Vec<Value>| -> Result<Rows, String> {
        seen.borrow_mut().push((statement.clone(), inputs.clone()));
        Ok(vec![summary_row(2, "2023-01-02 00:00:00"), summary_row(1, "2023-01-01 00:00:00")])
    };
    let page = create_template("content", "blog", "index", &fetch).unwrap();
    assert_eq!(page.template, "index");
    assert_eq!(page.context.parent, "blog");
    assert_eq!(page.context.content, "content");
    assert_eq!(
        page.context.summaries,
        vec![summary(2, "2023-01-02"), summary(1, "2023-01-01")]
    );
    assert_eq!(
        seen.into_inner(),
        vec![(SUMMARIES_LATEST.to_string(), vec![Value::Integer(6)])]
    );
}

#[test]
fn create_template_shows_no_sidebar_where_the_store_fails() {
    let fetch = |_: &String, _: &Vec<Value>| -> Result<Rows, String> { Err("down".to_string()) };
    let page = create_template(1u8, "browse", "index", &fetch).unwrap();
    assert!(page.context.summaries.is_empty());
    assert_eq!(page.context.parent, "browse");
    assert_eq!(page.context.content, 1);
}

#[test]
fn create_template_fails_on_a_sidebar_row_without_a_date() {
    let fetch = |_: &String, _: &Vec<Value>| -> Result<Rows, String> {
        Ok(vec![summary_row(2, "bad")])
    };
    assert_eq!(
        create_template(1u8, "blog", "index", &fetch).unwrap_err(),
        ShortTimestamp { row: 0 }
    );
}

#[test]
fn index_asks_for_five_posts_then_the_sidebar() {
    let seen: RefCell<Vec<(String, Vec<Value>)>> = RefCell::new(Vec::new());
    let fetch = |statement: &String, inputs: &Vec<Value>| -> Result<Rows, String> {
        seen.borrow_mut().push((statement.clone(), inputs.clone()));
        if statement == POSTS_LATEST {
            Ok(vec![post_row(3, "2023-01-03 00:00:00"), post_row(2, "2023-01-02 00:00:00")])
        } else {
            Ok(vec![summary_row(3, "2023-01-03 00:00:00")])
        }
    };
    let page = index(&fetch).unwrap();
    assert_eq!(page.template, "index");
    assert_eq!(page.context.parent, "blog");
    assert_eq!(
        page.context.content.items,
        vec![post(3, "2023-01-03"), post(2, "2023-01-02")]
    );
    assert_eq!(page.context.summaries, vec![summary(3, "2023-01-03")]);
    assert_eq!(
        seen.into_inner(),
        vec![
            (POSTS_LATEST.to_string(), vec![Value::Integer(5)]),
            (SUMMARIES_LATEST.to_string(), vec![Value::Integer(6)]),
        ]
    );
}

#[test]
fn get_post_asks_for_the_id_then_the_sidebar() {
    let seen: RefCell<Vec<(String, Vec<Value>)>> = RefCell::new(Vec::new());
    let fetch = |statement: &String, inputs: &Vec<Value>| -> Result<Rows, String> {
        seen.borrow_mut().push((statement.clone(), inputs.clone()));
        if statement == POST_BY_ID {
            Ok(vec![post_row(12, "2023-03-12 09:00:00")])
        } else {
            Ok(Vec::new())
        }
    };
    let page = get_post(12, &fetch).unwrap();
    assert_eq!(page.template, "index");
    assert_eq!(page.context.parent, "blog");
    assert_eq!(page.context.content.items, vec![post(12, "2023-03-12")]);
    assert!(page.context.summaries.is_empty());
    assert_eq!(
        seen.into_inner(),
        vec![
            (POST_BY_ID.to_string(), vec![Value::Integer(12)]),
            (SUMMARIES_LATEST.to_string(), vec![Value::Integer(6)]),
        ]
    );
}

#[test]
fn browse_asks_for_a_thousand_summaries_then_the_sidebar() {
    let seen: RefCell<Vec<(String, Vec<Value>)>> = RefCell::new(Vec::new());
    let fetch = |statement: &String, inputs: &Vec<Value>| -> Result<Rows, String> {
        seen.borrow_mut().push((statement.clone(), inputs.clone()));
        Ok(vec![summary_row(1, "2023-01-01 00:00:00")])
    };
    let page = browse_posts(&fetch).unwrap();
    assert_eq!(page.template, "index");
    assert_eq!(page.context.parent, "browse");
    assert_eq!(page.context.content.items, vec![summary(1, "2023-01-01")]);
    assert_eq!(page.context.summaries, vec![summary(1, "2023-01-01")]);
    assert_eq!(
        seen.into_inner(),
        vec![
            (SUMMARIES_LATEST.to_string(), vec![Value::Integer(1000)]),
            (SUMMARIES_LATEST.to_string(), vec![Value::Integer(6)]),
        ]
    );
}

#[test]
fn pages_render_empty_where_the_store_fails() {
    let fetch = |_: &String, _: &Vec<Value>| -> Result<Rows, String> { Err("down".to_string()) };
    let page = index(&fetch).unwrap();
    assert!(page.context.content.items.is_empty());
    assert!(page.context.summaries.is_empty());
    let page = get_post(1, &fetch).unwrap();
    assert!(page.context.content.items.is_empty());
    assert!(page.context.summaries.is_empty());
    let page = browse_posts(&fetch).unwrap();
    assert!(page.context.content.items.is_empty());
    assert!(page.context.summaries.is_empty());
    assert_eq!(page.context.parent, "browse");
}

#[test]
fn page_fails_on_a_post_without_a_date_before_the_sidebar_is_fetched() {
    let calls = RefCell::new(0);
    let fetch = |_: &String, _: &Vec<Value>| -> Result<Rows, String> {
        *calls.borrow_mut() += 1;
        Ok(vec![post_row(3, "2023-01-03 00:00:00"), post_row(2, "2023-01")])
    };
    assert_eq!(index(&fetch).unwrap_err(), ShortTimestamp { row: 1 });
    assert_eq!(*calls.borrow(), 1);
    assert_eq!(get_post(2, &fetch).unwrap_err(), ShortTimestamp { row: 1 });
    assert_eq!(*calls.borrow(), 2);
}

#[test]
fn page_fails_on_a_sidebar_row_without_a_date() {
    let fetch = |statement: &String, _: &Vec<Value>| -> Result<Rows, String> {
        if statement == POSTS_LATEST {
            Ok(vec![post_row(3, "2023-01-03 00:00:00")])
        } else {
            Ok(vec![summary_row(3, "2023-01-03 00:00:00"), summary_row(2, "2023")])
        }
    };
    assert_eq!(index(&fetch).unwrap_err(), ShortTimestamp { row: 1 });
}
