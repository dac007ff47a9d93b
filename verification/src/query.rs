//! The three read queries, as text with bound inputs and expected columns.

use vstd::prelude::*;
use vstd::string::*;
use crate::value::{Value, ValueView};

verus! {

/// Selects every column of a post.
pub const POST_QUERY_BASE: &'static str = "select id, content, title, footer, timeadd from posts";

/// Selects the columns of a summary.
pub const SUMMARY_QUERY_BASE: &'static str = "select id, title, timeadd from posts";

/// Restricts a query to the newest rows, as many as the one input says.
pub const LATEST_CLAUSE: &'static str = " order by id desc limit ?";

/// Restricts a query to the row whose id is the one input.
pub const BY_ID_CLAUSE: &'static str = " where id=?";

/// How many summaries the sidebar shows.
pub const SIDEBAR_LIMIT: i32 = 6;

/// A parameterized statement, the names under which the columns of its
/// answer are read, and the values bound to its parameters, in order.
#[derive(Debug)]
pub struct Query {
    pub text: String,
    pub columns: Vec<String>,
    pub inputs: Vec<Value>,
}

/// The content of a [`Query`].
pub ghost struct QueryView {
    pub text: Seq<char>,
    pub columns: Seq<Seq<char>>,
    pub inputs: Seq<ValueView>,
}

impl View for Query {
    type V = QueryView;

    open spec fn view(&self) -> QueryView {
        QueryView {
            text: self.text@,
            columns: self.columns.deep_view(),
            inputs: self.inputs.deep_view(),
        }
    }
}

/// The column names of a post, in the order in which the query selects them.
pub open spec fn post_column_names() -> Seq<Seq<char>> {
    seq!["id"@, "content"@, "title"@, "footer"@, "timeadd"@]
}

/// The column names of a summary, in the order in which the query selects them.
pub open spec fn summary_column_names() -> Seq<Seq<char>> {
    seq!["id"@, "title"@, "timeadd"@]
}

/// The statement that selects the newest posts.
pub open spec fn posts_latest_text() -> Seq<char> {
    POST_QUERY_BASE@ + LATEST_CLAUSE@
}

/// The statement that selects the newest summaries.
pub open spec fn summary_latest_text() -> Seq<char> {
    SUMMARY_QUERY_BASE@ + LATEST_CLAUSE@
}

/// The statement that selects one post by its id.
pub open spec fn post_by_id_text() -> Seq<char> {
    POST_QUERY_BASE@ + BY_ID_CLAUSE@
}

/// The inputs of a query with one integer parameter.
pub open spec fn one_integer(number: int) -> Seq<ValueView> {
    seq![ValueView::Integer(number)]
}

/// The query for the `limit` newest posts.
pub open spec fn posts_latest_spec(limit: int) -> QueryView {
    QueryView {
        text: posts_latest_text(),
        columns: post_column_names(),
        inputs: one_integer(limit),
    }
}

/// The query for the `limit` newest summaries.
pub open spec fn summary_latest_spec(limit: int) -> QueryView {
    QueryView {
        text: summary_latest_text(),
        columns: summary_column_names(),
        inputs: one_integer(limit),
    }
}

/// The query for the post with the given id.
pub open spec fn post_by_id_spec(id: int) -> QueryView {
    QueryView { text: post_by_id_text(), columns: post_column_names(), inputs: one_integer(id) }
}

/// The column names of a post.
pub fn post_columns() -> (columns: Vec<String>)
    ensures
        columns.deep_view() == post_column_names(),
{
    let mut columns: Vec<String> = Vec::new();
    columns.push("id".to_owned());
    columns.push("content".to_owned());
    columns.push("title".to_owned());
    columns.push("footer".to_owned());
    columns.push("timeadd".to_owned());
    assert(columns.deep_view() =~= post_column_names());
    columns
}

/// The column names of a summary.
pub fn summary_columns() -> (columns: Vec<String>)
    ensures
        columns.deep_view() == summary_column_names(),
{
    let mut columns: Vec<String> = Vec::new();
    columns.push("id".to_owned());
    columns.push("title".to_owned());
    columns.push("timeadd".to_owned());
    assert(columns.deep_view() =~= summary_column_names());
    columns
}

/// The inputs of a query whose one parameter is bound to `number`.
fn bind_integer(number: i32) -> (inputs: Vec<Value>)
    ensures
        inputs.deep_view() == one_integer(number as int),
{
    let mut inputs: Vec<Value> = Vec::new();
    inputs.push(Value::Integer(number as i64));
    assert(inputs.deep_view() =~= one_integer(number as int));
    inputs
}

/// Builds the query for the `limit` newest posts, newest first.
pub fn posts_latest_query(limit: i32) -> (query: Query)
    ensures
        query@ == posts_latest_spec(limit as int),
{
    Query {
        text: POST_QUERY_BASE.to_owned().concat(LATEST_CLAUSE),
        columns: post_columns(),
        inputs: bind_integer(limit),
    }
}

/// Builds the query for the `limit` newest summaries, newest first.
pub fn summary_latest_query(limit: i32) -> (query: Query)
    ensures
        query@ == summary_latest_spec(limit as int),
{
    Query {
        text: SUMMARY_QUERY_BASE.to_owned().concat(LATEST_CLAUSE),
        columns: summary_columns(),
        inputs: bind_integer(limit),
    }
}

/// Builds the query for the post with the given id.
pub fn post_by_id_query(id: i32) -> (query: Query)
    ensures
        query@ == post_by_id_spec(id as int),
{
    Query {
        text: POST_QUERY_BASE.to_owned().concat(BY_ID_CLAUSE),
        columns: post_columns(),
        inputs: bind_integer(id),
    }
}

/// Builds the query for the summaries of the sidebar.
pub fn sidebar_query() -> (query: Query)
    ensures
        query@ == summary_latest_spec(SIDEBAR_LIMIT as int),
{
    summary_latest_query(SIDEBAR_LIMIT)
}

/// The three statements, written out.
pub proof fn query_texts_written_out()
    ensures
        posts_latest_text()
            == "select id, content, title, footer, timeadd from posts order by id desc limit ?"@,
        summary_latest_text() == "select id, title, timeadd from posts order by id desc limit ?"@,
        post_by_id_text() == "select id, content, title, footer, timeadd from posts where id=?"@,
{
    reveal_strlit("select id, content, title, footer, timeadd from posts");
    reveal_strlit("select id, title, timeadd from posts");
    reveal_strlit(" order by id desc limit ?");
    reveal_strlit(" where id=?");
    reveal_strlit("select id, content, title, footer, timeadd from posts order by id desc limit ?");
    reveal_strlit("select id, title, timeadd from posts order by id desc limit ?");
    reveal_strlit("select id, content, title, footer, timeadd from posts where id=?");
    assert(posts_latest_text()
        =~= "select id, content, title, footer, timeadd from posts order by id desc limit ?"@);
    assert(summary_latest_text()
        =~= "select id, title, timeadd from posts order by id desc limit ?"@);
    assert(post_by_id_text()
        =~= "select id, content, title, footer, timeadd from posts where id=?"@);
}

/// No column name of a post occurs twice.
pub proof fn post_columns_distinct()
    ensures
        post_column_names().len() == 5,
        forall|i: int, j: int|
            0 <= i < j < 5 ==> #[trigger] post_column_names()[i]
                != #[trigger] post_column_names()[j],
{
    reveal_strlit("id");
    reveal_strlit("content");
    reveal_strlit("title");
    reveal_strlit("footer");
    reveal_strlit("timeadd");
    let names = post_column_names();
    assert(names[0].len() == 2 && names[1].len() == 7 && names[2].len() == 5);
    assert(names[3].len() == 6 && names[4].len() == 7);
    assert(names[1][0] == 'c' && names[4][0] == 't');
}

/// No column name of a summary occurs twice.
pub proof fn summary_columns_distinct()
    ensures
        summary_column_names().len() == 3,
        forall|i: int, j: int|
            0 <= i < j < 3 ==> #[trigger] summary_column_names()[i]
                != #[trigger] summary_column_names()[j],
{
    reveal_strlit("id");
    reveal_strlit("title");
    reveal_strlit("timeadd");
    let names = summary_column_names();
    assert(names[0].len() == 2 && names[1].len() == 5 && names[2].len() == 7);
}

} // verus!
