//! The content repository: the read operations on the store of posts.
//!
//! The store is reached through a function that the caller hands in. It
//! takes the text of a statement and the values bound to its parameters, and
//! answers with the rows found, each a list of values in the order of the
//! selected columns, or with the store's own error. Every operation here is
//! verified for whatever that function answers.
//!
//! The read operations take a failure of the store for an empty store: their
//! callers see a list without entries and never the store's error. Each has
//! a form that passes the error on, under a name that begins with `try_`.
//! A row whose timestamp is too short for a date is no failure of the store
//! and fails the request under either form.

use vstd::prelude::*;
use crate::entity::{
    date_derivable, has_date, map_to_post, map_to_summary, post_of, summary_of, Post, PostView,
    Summary, SummaryView,
};
use crate::query::{
    post_by_id_query, post_by_id_spec, post_column_names, post_columns_distinct,
    posts_latest_query, posts_latest_spec, summary_column_names, summary_columns_distinct,
    summary_latest_query, summary_latest_spec, Query, QueryView, SIDEBAR_LIMIT,
};
use crate::record::{
    lemma_zip_prefix_lookup, lemma_zip_prefix_names, zip_columns, Record, RecordView,
};
use crate::value::{Value, ValueView};

verus! {

/// A row whose timestamp is too short to cut a date from.
#[derive(Debug, Clone, Copy, PartialEq, Eq)]
pub struct ShortTimestamp {
    /// The position of the row in the answer, counted from zero.
    pub row: usize,
}

/// Why a read operation produced no entities.
#[derive(Debug)]
pub enum QueryError<E> {
    /// The store could not be opened, or refused the statement, its inputs
    /// or the walk through its rows.
    Storage(E),
    /// The store answered, but with a row that has no date.
    Malformed(ShortTimestamp),
}

/// Whether `fetch` may be called with the statement and inputs of `query`.
pub open spec fn accepts<E, F: Fn(&String, &Vec<Value>) -> Result<Vec<Vec<Value>>, E>>(
    fetch: F,
    query: QueryView,
) -> bool {
    forall|text: &String, inputs: &Vec<Value>|
        text@ == query.text && inputs.deep_view() == query.inputs ==> #[trigger] call_requires(
            fetch,
            (text, inputs),
        )
}

/// Whether `answer` is something that `fetch` may return for the statement
/// and inputs of `query`.
pub open spec fn may_answer<E, F: Fn(&String, &Vec<Value>) -> Result<Vec<Vec<Value>>, E>>(
    fetch: F,
    query: QueryView,
    answer: Result<Vec<Vec<Value>>, E>,
) -> bool {
    exists|text: &String, inputs: &Vec<Value>|
        text@ == query.text && inputs.deep_view() == query.inputs && #[trigger] call_ensures(
            fetch,
            (text, inputs),
            answer,
        )
}

/// The records that rows make under the given column names, row by row.
pub open spec fn records_of(columns: Seq<Seq<char>>, rows: Seq<Seq<ValueView>>) -> Seq<
    RecordView,
> {
    Seq::new(rows.len(), |i: int| zip_columns(columns, rows[i]))
}

/// The posts that records stand for, in the same order.
pub open spec fn posts_of(records: Seq<RecordView>) -> Seq<PostView> {
    Seq::new(records.len(), |i: int| post_of(records[i]))
}

/// The summaries that records stand for, in the same order.
pub open spec fn summaries_of(records: Seq<RecordView>) -> Seq<SummaryView> {
    Seq::new(records.len(), |i: int| summary_of(records[i]))
}

/// Whether a date can be cut from every record.
pub open spec fn all_dated(records: Seq<RecordView>) -> bool {
    forall|i: int| 0 <= i < records.len() ==> date_derivable(#[trigger] records[i])
}

/// The position of the first record at or after `start` that has no date.
pub open spec fn first_undated_from(records: Seq<RecordView>, start: int) -> Option<int>
    decreases records.len() - start,
{
    if start < 0 || start >= records.len() {
        None
    } else if !date_derivable(records[start]) {
        Some(start)
    } else {
        first_undated_from(records, start + 1)
    }
}

/// The position of the first record that has no date.
pub open spec fn first_undated(records: Seq<RecordView>) -> Option<int> {
    first_undated_from(records, 0)
}

/// What the search for an undated record finds: nothing exactly when every
/// record from `start` on has a date, and else the first one without.
pub proof fn lemma_first_undated_from(records: Seq<RecordView>, start: int)
    requires
        0 <= start <= records.len(),
    ensures
        match first_undated_from(records, start) {
            None => forall|i: int|
                start <= i < records.len() ==> date_derivable(#[trigger] records[i]),
            Some(row) => {
                &&& start <= row < records.len()
                &&& !date_derivable(records[row])
                &&& forall|i: int| start <= i < row ==> date_derivable(#[trigger] records[i])
            },
        },
    decreases records.len() - start,
{
    if start < records.len() && date_derivable(records[start]) {
        lemma_first_undated_from(records, start + 1);
    }
}

/// How the records of an executed query follow from the store's answer.
pub open spec fn records_outcome<E>(
    columns: Seq<Seq<char>>,
    answer: Result<Vec<Vec<Value>>, E>,
    result: Result<Vec<Record>, E>,
) -> bool {
    match answer {
        Err(error) => result == Err::<Vec<Record>, E>(error),
        Ok(rows) => result matches Ok(records) && records.deep_view() == records_of(
            columns,
            rows.deep_view(),
        ),
    }
}

/// How posts follow from fetched records: the store's error is passed on, a
/// record without a date fails the whole list, and else every record is mapped.
pub open spec fn posts_from<E>(
    fetched: Result<Seq<RecordView>, E>,
    result: Result<Vec<Post>, QueryError<E>>,
) -> bool {
    match fetched {
        Err(error) => result == Err::<Vec<Post>, QueryError<E>>(QueryError::Storage(error)),
        Ok(records) => match first_undated(records) {
            Some(row) => result matches Err(QueryError::Malformed(short)) && short.row == row,
            None => result matches Ok(posts) && posts.deep_view() == posts_of(records),
        },
    }
}

/// How summaries follow from fetched records; as for posts.
pub open spec fn summaries_from<E>(
    fetched: Result<Seq<RecordView>, E>,
    result: Result<Vec<Summary>, QueryError<E>>,
) -> bool {
    match fetched {
        Err(error) => result == Err::<Vec<Summary>, QueryError<E>>(QueryError::Storage(error)),
        Ok(records) => match first_undated(records) {
            Some(row) => result matches Err(QueryError::Malformed(short)) && short.row == row,
            None => result matches Ok(summaries) && summaries.deep_view() == summaries_of(
                records,
            ),
        },
    }
}

/// The records that the store's answer holds under the given columns.
pub open spec fn fetched_records<E>(columns: Seq<Seq<char>>, answer: Result<Vec<Vec<Value>>, E>)
    -> Result<Seq<RecordView>, E> {
    match answer {
        Err(error) => Err(error),
        Ok(rows) => Ok(records_of(columns, rows.deep_view())),
    }
}

/// Pairs every row with the column names.
pub fn records_from_rows(columns: &Vec<String>, rows: &Vec<Vec<Value>>) -> (records: Vec<Record>)
    ensures
        records.deep_view() == records_of(columns.deep_view(), rows.deep_view()),
{
    let mut records: Vec<Record> = Vec::new();
    let mut i: usize = 0;
    while i < rows.len()
        invariant
            0 <= i <= rows.len(),
            records.len() == i,
            forall|k: int|
                0 <= k < i ==> (#[trigger] records[k])@ == zip_columns(
                    columns.deep_view(),
                    rows[k].deep_view(),
                ),
        decreases rows.len() - i,
    {
        records.push(Record::from_row(columns, &rows[i]));
        i += 1;
    }
    assert(records.deep_view() =~= records_of(columns.deep_view(), rows.deep_view()));
    records
}

/// Turns the store's answer to a query into records, or passes its error on.
pub fn records_from_answer<E>(columns: &Vec<String>, answer: Result<Vec<Vec<Value>>, E>) -> (result:
    Result<Vec<Record>, E>)
    ensures
        records_outcome(columns.deep_view(), answer, result),
{
    match answer {
        Ok(rows) => Ok(records_from_rows(columns, &rows)),
        Err(error) => Err(error),
    }
}

/// Runs a query: hands its statement and inputs to `fetch` and reads the
/// rows that come back under the query's column names.
pub fn execute_query<E, F: Fn(&String, &Vec<Value>) -> Result<Vec<Vec<Value>>, E>>(
    query: &Query,
    fetch: &F,
) -> (result: Result<Vec<Record>, E>)
    requires
        accepts(*fetch, query@),
    ensures
        exists|answer: Result<Vec<Vec<Value>>, E>| #[trigger]
            may_answer(*fetch, query@, answer) && records_outcome(
                query@.columns,
                answer,
                result,
            ),
{
    let answer = fetch(&query.text, &query.inputs);
    assert(may_answer(*fetch, query@, answer));
    records_from_answer(&query.columns, answer)
}

/// The position of the first record whose timestamp is too short for a date.
pub fn first_short_timestamp(records: &Vec<Record>) -> (found: Option<usize>)
    ensures
        match found {
            Some(row) => first_undated(records.deep_view()) == Some(row as int),
            None => first_undated(records.deep_view()) is None,
        },
{
    let mut i: usize = 0;
    while i < records.len()
        invariant
            0 <= i <= records.len(),
            first_undated(records.deep_view()) == first_undated_from(
                records.deep_view(),
                i as int,
            ),
        decreases records.len() - i,
    {
        assert(records.deep_view()[i as int] == records[i as int]@);
        if !has_date(&records[i]) {
            return Some(i);
        }
        i += 1;
    }
    None
}

/// Maps every record to a post.
pub fn map_posts(records: &Vec<Record>) -> (posts: Vec<Post>)
    requires
        all_dated(records.deep_view()),
    ensures
        posts.deep_view() == posts_of(records.deep_view()),
{
    let mut posts: Vec<Post> = Vec::new();
    let mut i: usize = 0;
    while i < records.len()
        invariant
            0 <= i <= records.len(),
            all_dated(records.deep_view()),
            posts.len() == i,
            forall|k: int| 0 <= k < i ==> (#[trigger] posts[k])@ == post_of(records[k]@),
        decreases records.len() - i,
    {
        assert(records.deep_view()[i as int] == records[i as int]@);
        posts.push(map_to_post(&records[i]));
        i += 1;
    }
    assert(posts.deep_view() =~= posts_of(records.deep_view()));
    posts
}

/// Maps every record to a summary.
pub fn map_summaries(records: &Vec<Record>) -> (summaries: Vec<Summary>)
    requires
        all_dated(records.deep_view()),
    ensures
        summaries.deep_view() == summaries_of(records.deep_view()),
{
    let mut summaries: Vec<Summary> = Vec::new();
    let mut i: usize = 0;
    while i < records.len()
        invariant
            0 <= i <= records.len(),
            all_dated(records.deep_view()),
            summaries.len() == i,
            forall|k: int| 0 <= k < i ==> (#[trigger] summaries[k])@ == summary_of(records[k]@),
        decreases records.len() - i,
    {
        assert(records.deep_view()[i as int] == records[i as int]@);
        summaries.push(map_to_summary(&records[i]));
        i += 1;
    }
    assert(summaries.deep_view() =~= summaries_of(records.deep_view()));
    summaries
}

/// The view of fetched records, for contracts.
pub open spec fn records_view<E>(fetched: Result<Vec<Record>, E>) -> Result<Seq<RecordView>, E> {
    match fetched {
        Ok(records) => Ok(records.deep_view()),
        Err(error) => Err(error),
    }
}

/// Maps fetched records to posts. The store's error is passed on; a record
/// without a date fails the list, with the position of the first such record.
pub fn posts_from_records<E>(fetched: Result<Vec<Record>, E>) -> (result: Result<
    Vec<Post>,
    QueryError<E>,
>)
    ensures
        posts_from(records_view(fetched), result),
{
    match fetched {
        Err(error) => Err(QueryError::Storage(error)),
        Ok(records) => match first_short_timestamp(&records) {
            Some(row) => Err(QueryError::Malformed(ShortTimestamp { row })),
            None => {
                proof {
                    lemma_first_undated_from(records.deep_view(), 0);
                }
                Ok(map_posts(&records))
            },
        },
    }
}

/// Maps fetched records to summaries; as for posts.
pub fn summaries_from_records<E>(fetched: Result<Vec<Record>, E>) -> (result: Result<
    Vec<Summary>,
    QueryError<E>,
>)
    ensures
        summaries_from(records_view(fetched), result),
{
    match fetched {
        Err(error) => Err(QueryError::Storage(error)),
        Ok(records) => match first_short_timestamp(&records) {
            Some(row) => Err(QueryError::Malformed(ShortTimestamp { row })),
            None => {
                proof {
                    lemma_first_undated_from(records.deep_view(), 0);
                }
                Ok(map_summaries(&records))
            },
        },
    }
}

/// The `limit` newest summaries, newest first, with the store's error
/// passed on to the caller.
pub fn try_get_summary_latest<E, F: Fn(&String, &Vec<Value>) -> Result<Vec<Vec<Value>>, E>>(
    limit: i32,
    fetch: &F,
) -> (result: Result<Vec<Summary>, QueryError<E>>)
    requires
        accepts(*fetch, summary_latest_spec(limit as int)),
    ensures
        exists|answer: Result<Vec<Vec<Value>>, E>| #[trigger]
            may_answer(*fetch, summary_latest_spec(limit as int), answer) && summaries_from(
                fetched_records(summary_column_names(), answer),
                result,
            ),
{
    let query = summary_latest_query(limit);
    let fetched = execute_query(&query, fetch);
    summaries_from_records(fetched)
}

/// The `limit` newest posts, newest first, with the store's error passed on
/// to the caller.
pub fn try_get_posts_latest<E, F: Fn(&String, &Vec<Value>) -> Result<Vec<Vec<Value>>, E>>(
    limit: i32,
    fetch: &F,
) -> (result: Result<Vec<Post>, QueryError<E>>)
    requires
        accepts(*fetch, posts_latest_spec(limit as int)),
    ensures
        exists|answer: Result<Vec<Vec<Value>>, E>| #[trigger]
            may_answer(*fetch, posts_latest_spec(limit as int), answer) && posts_from(
                fetched_records(post_column_names(), answer),
                result,
            ),
{
    let query = posts_latest_query(limit);
    let fetched = execute_query(&query, fetch);
    posts_from_records(fetched)
}

/// The post with the given id, as a list of no entry or one, with the
/// store's error passed on to the caller.
pub fn try_get_post_by_id<E, F: Fn(&String, &Vec<Value>) -> Result<Vec<Vec<Value>>, E>>(
    id: i32,
    fetch: &F,
) -> (result: Result<Vec<Post>, QueryError<E>>)
    requires
        accepts(*fetch, post_by_id_spec(id as int)),
    ensures
        exists|answer: Result<Vec<Vec<Value>>, E>| #[trigger]
            may_answer(*fetch, post_by_id_spec(id as int), answer) && posts_from(
                fetched_records(post_column_names(), answer),
                result,
            ),
{
    let query = post_by_id_query(id);
    let fetched = execute_query(&query, fetch);
    posts_from_records(fetched)
}

/// The list of a successful operation, and the empty list in place of a failure.
pub fn vector_unwrap<T, E>(op: Result<Vec<T>, E>) -> (list: Vec<T>)
    ensures
        match op {
            Ok(items) => list == items,
            Err(_) => list@.len() == 0,
        },
{
    match op {
        Ok(items) => items,
        Err(_) => Vec::new(),
    }
}

/// What a listing of posts shows for fetched records when a failure of the
/// store is taken for an empty store: the posts, or the position of the
/// first record without a date.
pub open spec fn listed_posts<E>(fetched: Result<Seq<RecordView>, E>) -> Result<
    Seq<PostView>,
    int,
> {
    match fetched {
        Err(_) => Ok(Seq::empty()),
        Ok(records) => match first_undated(records) {
            Some(row) => Err(row),
            None => Ok(posts_of(records)),
        },
    }
}

/// What a listing of summaries shows for fetched records; as for posts.
pub open spec fn listed_summaries<E>(fetched: Result<Seq<RecordView>, E>) -> Result<
    Seq<SummaryView>,
    int,
> {
    match fetched {
        Err(_) => Ok(Seq::empty()),
        Ok(records) => match first_undated(records) {
            Some(row) => Err(row),
            None => Ok(summaries_of(records)),
        },
    }
}

/// The content of a listing of posts.
pub open spec fn posts_listing_view(listing: Result<Vec<Post>, ShortTimestamp>) -> Result<
    Seq<PostView>,
    int,
> {
    match listing {
        Ok(posts) => Ok(posts.deep_view()),
        Err(short) => Err(short.row as int),
    }
}

/// The content of a listing of summaries.
pub open spec fn summaries_listing_view(listing: Result<Vec<Summary>, ShortTimestamp>) -> Result<
    Seq<SummaryView>,
    int,
> {
    match listing {
        Ok(summaries) => Ok(summaries.deep_view()),
        Err(short) => Err(short.row as int),
    }
}

/// Whether the store, asked `query`, can only fail.
pub open spec fn unreachable_for<E, F: Fn(&String, &Vec<Value>) -> Result<Vec<Vec<Value>>, E>>(
    fetch: F,
    query: QueryView,
) -> bool {
    forall|answer: Result<Vec<Vec<Value>>, E>| #[trigger]
        may_answer(fetch, query, answer) ==> answer is Err
}

/// How a listing follows from a result when a failure of the store is taken
/// for an empty store: a list stays, a storage failure becomes the empty
/// list, and a row without a date stays a failure.
pub open spec fn recovered<T, E>(
    result: Result<Vec<T>, QueryError<E>>,
    listing: Result<Vec<T>, ShortTimestamp>,
) -> bool {
    match result {
        Ok(items) => listing == Ok::<Vec<T>, ShortTimestamp>(items),
        Err(QueryError::Storage(_)) => listing matches Ok(items) && items@.len() == 0,
        Err(QueryError::Malformed(short)) => listing == Err::<Vec<T>, ShortTimestamp>(short),
    }
}

/// Takes a failure of the store for an empty store. A row without a date is
/// no such failure: it still fails the request.
pub fn recover<T, E>(result: Result<Vec<T>, QueryError<E>>) -> (listing: Result<
    Vec<T>,
    ShortTimestamp,
>)
    ensures
        recovered(result, listing),
{
    match result {
        Err(QueryError::Malformed(short)) => Err(short),
        Err(QueryError::Storage(error)) => Ok(vector_unwrap::<T, E>(Err(error))),
        Ok(items) => Ok(vector_unwrap::<T, E>(Ok(items))),
    }
}

/// A recovered listing of posts shows what the fetched records list.
pub proof fn lemma_recovered_posts<E>(
    fetched: Result<Seq<RecordView>, E>,
    result: Result<Vec<Post>, QueryError<E>>,
    listing: Result<Vec<Post>, ShortTimestamp>,
)
    requires
        posts_from(fetched, result),
        recovered(result, listing),
    ensures
        posts_listing_view(listing) == listed_posts(fetched),
{
    if fetched is Err {
        assert(listing->Ok_0.deep_view() =~= Seq::<PostView>::empty());
    }
}

/// A recovered listing of summaries shows what the fetched records list.
pub proof fn lemma_recovered_summaries<E>(
    fetched: Result<Seq<RecordView>, E>,
    result: Result<Vec<Summary>, QueryError<E>>,
    listing: Result<Vec<Summary>, ShortTimestamp>,
)
    requires
        summaries_from(fetched, result),
        recovered(result, listing),
    ensures
        summaries_listing_view(listing) == listed_summaries(fetched),
{
    if fetched is Err {
        assert(listing->Ok_0.deep_view() =~= Seq::<SummaryView>::empty());
    }
}

/// Whether the ids of posts descend from each to the next.
pub open spec fn post_ids_descend(posts: Seq<PostView>) -> bool {
    forall|i: int, j: int|
        0 <= i < j < posts.len() ==> (#[trigger] posts[i]).id > (#[trigger] posts[j]).id
}

/// Whether the ids of summaries descend from each to the next.
pub open spec fn summary_ids_descend(summaries: Seq<SummaryView>) -> bool {
    forall|i: int, j: int|
        0 <= i < j < summaries.len() ==> (#[trigger] summaries[i]).id > (
        #[trigger] summaries[j]).id
}

/// Whether the store keeps to a query for the newest rows: whatever rows it
/// answers `query` with are at most `limit` and lead with descending integers.
pub open spec fn keeps_newest_first<
    E,
    F: Fn(&String, &Vec<Value>) -> Result<Vec<Vec<Value>>, E>,
>(fetch: F, query: QueryView, limit: int) -> bool {
    forall|answer: Result<Vec<Vec<Value>>, E>| #[trigger]
        may_answer(fetch, query, answer) ==> (answer matches Ok(rows) ==> newest_first(
            rows.deep_view(),
            limit,
        ))
}

/// Whether rows are what a store with unique ids owes to a query by id: no
/// row, or the one row that leads with that id.
pub open spec fn row_of_id(rows: Seq<Seq<ValueView>>, id: int) -> bool {
    rows.len() <= 1 && (rows.len() == 1 ==> leading_integer(rows[0]) == Some(id))
}

/// Whether the store keeps to a query by id: whatever rows it answers
/// `query` with are no row, or the one row of that id.
pub open spec fn keeps_to_id<E, F: Fn(&String, &Vec<Value>) -> Result<Vec<Vec<Value>>, E>>(
    fetch: F,
    query: QueryView,
    id: int,
) -> bool {
    forall|answer: Result<Vec<Vec<Value>>, E>| #[trigger]
        may_answer(fetch, query, answer) ==> (answer matches Ok(rows) ==> row_of_id(
            rows.deep_view(),
            id,
        ))
}

/// The `limit` newest summaries, newest first; no summaries where the store
/// fails. Where the store keeps to the query, they are at most `limit`, in
/// descending order of id.
pub fn get_summary_latest<E, F: Fn(&String, &Vec<Value>) -> Result<Vec<Vec<Value>>, E>>(
    limit: i32,
    fetch: &F,
) -> (listing: Result<Vec<Summary>, ShortTimestamp>)
    requires
        accepts(*fetch, summary_latest_spec(limit as int)),
    ensures
        exists|answer: Result<Vec<Vec<Value>>, E>| #[trigger]
            may_answer(*fetch, summary_latest_spec(limit as int), answer)
                && summaries_listing_view(listing) == listed_summaries(
                fetched_records(summary_column_names(), answer),
            ),
        unreachable_for(*fetch, summary_latest_spec(limit as int)) ==> (listing matches Ok(
            summaries,
        ) && summaries@.len() == 0),
        limit >= 0 && keeps_newest_first(*fetch, summary_latest_spec(limit as int), limit as int)
            ==> (listing matches Ok(summaries) ==> summaries@.len() <= limit
            && summary_ids_descend(summaries.deep_view())),
{
    let result = try_get_summary_latest(limit, fetch);
    let ghost answer = choose|answer: Result<Vec<Vec<Value>>, E>| #[trigger]
        may_answer(*fetch, summary_latest_spec(limit as int), answer) && summaries_from(
            fetched_records(summary_column_names(), answer),
            result,
        );
    let listing = recover(result);
    proof {
        lemma_recovered_summaries(
            fetched_records(summary_column_names(), answer),
            result,
            listing,
        );
        if let Ok(rows) = answer {
            if newest_first(rows.deep_view(), limit as int) {
                newest_rows_give_newest_summaries(rows.deep_view(), limit as int);
            }
        }
    }
    listing
}

/// The summaries that the sidebar of every page shows: the newest six, and
/// none where the store fails.
pub fn get_sidebar_summary<E, F: Fn(&String, &Vec<Value>) -> Result<Vec<Vec<Value>>, E>>(
    fetch: &F,
) -> (listing: Result<Vec<Summary>, ShortTimestamp>)
    requires
        accepts(*fetch, summary_latest_spec(SIDEBAR_LIMIT as int)),
    ensures
        exists|answer: Result<Vec<Vec<Value>>, E>| #[trigger]
            may_answer(*fetch, summary_latest_spec(SIDEBAR_LIMIT as int), answer)
                && summaries_listing_view(listing) == listed_summaries(
                fetched_records(summary_column_names(), answer),
            ),
        unreachable_for(*fetch, summary_latest_spec(SIDEBAR_LIMIT as int)) ==> (
        listing matches Ok(summaries) && summaries@.len() == 0),
        keeps_newest_first(
            *fetch,
            summary_latest_spec(SIDEBAR_LIMIT as int),
            SIDEBAR_LIMIT as int,
        ) ==> (listing matches Ok(summaries) ==> summaries@.len() <= SIDEBAR_LIMIT
            && summary_ids_descend(summaries.deep_view())),
{
    get_summary_latest(SIDEBAR_LIMIT, fetch)
}

/// The `limit` newest posts, newest first; no posts where the store fails.
/// Where the store keeps to the query, they are at most `limit`, in
/// descending order of id.
pub fn get_posts_latest<E, F: Fn(&String, &Vec<Value>) -> Result<Vec<Vec<Value>>, E>>(
    limit: i32,
    fetch: &F,
) -> (listing: Result<Vec<Post>, ShortTimestamp>)
    requires
        accepts(*fetch, posts_latest_spec(limit as int)),
    ensures
        exists|answer: Result<Vec<Vec<Value>>, E>| #[trigger]
            may_answer(*fetch, posts_latest_spec(limit as int), answer) && posts_listing_view(
                listing,
            ) == listed_posts(fetched_records(post_column_names(), answer)),
        unreachable_for(*fetch, posts_latest_spec(limit as int)) ==> (listing matches Ok(posts)
            && posts@.len() == 0),
        limit >= 0 && keeps_newest_first(*fetch, posts_latest_spec(limit as int), limit as int)
            ==> (listing matches Ok(posts) ==> posts@.len() <= limit && post_ids_descend(
            posts.deep_view(),
        )),
{
    let result = try_get_posts_latest(limit, fetch);
    let ghost answer = choose|answer: Result<Vec<Vec<Value>>, E>| #[trigger]
        may_answer(*fetch, posts_latest_spec(limit as int), answer) && posts_from(
            fetched_records(post_column_names(), answer),
            result,
        );
    let listing = recover(result);
    proof {
        lemma_recovered_posts(fetched_records(post_column_names(), answer), result, listing);
        if let Ok(rows) = answer {
            if newest_first(rows.deep_view(), limit as int) {
                newest_rows_give_newest_posts(rows.deep_view(), limit as int);
            }
        }
    }
    listing
}

/// The post with the given id, as a list of no entry or one; no entry where
/// the store fails. Where the store keeps to the query, the list holds at
/// most one post, and no post of another id.
pub fn get_post_by_id<E, F: Fn(&String, &Vec<Value>) -> Result<Vec<Vec<Value>>, E>>(
    id: i32,
    fetch: &F,
) -> (listing: Result<Vec<Post>, ShortTimestamp>)
    requires
        accepts(*fetch, post_by_id_spec(id as int)),
    ensures
        exists|answer: Result<Vec<Vec<Value>>, E>| #[trigger]
            may_answer(*fetch, post_by_id_spec(id as int), answer) && posts_listing_view(listing)
                == listed_posts(fetched_records(post_column_names(), answer)),
        unreachable_for(*fetch, post_by_id_spec(id as int)) ==> (listing matches Ok(posts)
            && posts@.len() == 0),
        keeps_to_id(*fetch, post_by_id_spec(id as int), id as int) ==> (listing matches Ok(posts)
            ==> posts@.len() <= 1 && forall|i: int|
            0 <= i < posts@.len() ==> (#[trigger] posts[i]).id == id),
{
    let result = try_get_post_by_id(id, fetch);
    let ghost answer = choose|answer: Result<Vec<Vec<Value>>, E>| #[trigger]
        may_answer(*fetch, post_by_id_spec(id as int), answer) && posts_from(
            fetched_records(post_column_names(), answer),
            result,
        );
    let listing = recover(result);
    proof {
        lemma_recovered_posts(fetched_records(post_column_names(), answer), result, listing);
        if let Ok(rows) = answer {
            if row_of_id(rows.deep_view(), id as int) {
                row_of_id_gives_post_of_id(rows.deep_view(), id as int);
            }
        }
    }
    listing
}

/// The integer that a row leads with, if it leads with one.
pub open spec fn leading_integer(row: Seq<ValueView>) -> Option<int> {
    if row.len() == 0 {
        None
    } else {
        match row[0] {
            ValueView::Integer(number) => Some(number),
            _ => None,
        }
    }
}

/// Under the columns of a post, the value at position `k` of a row is read
/// under the name of column `k`, and a column that the row is too short for
/// is absent.
pub proof fn post_row_lookup(row: Seq<ValueView>, k: int)
    requires
        0 <= k < 5,
    ensures
        zip_columns(post_column_names(), row).contains_key(post_column_names()[k]) <==> k
            < row.len(),
        k < row.len() ==> zip_columns(post_column_names(), row)[post_column_names()[k]] == row[k],
{
    post_columns_distinct();
    let names = post_column_names();
    let n: nat = if names.len() <= row.len() {
        names.len()
    } else {
        row.len()
    };
    lemma_zip_prefix_names(names, row, n, names[k]);
    if k < row.len() {
        lemma_zip_prefix_lookup(names, row, n, k);
    } else {
        assert forall|j: int| 0 <= j < n implies #[trigger] names[j] != names[k] by {}
    }
}

/// Under the columns of a summary; as for a post.
pub proof fn summary_row_lookup(row: Seq<ValueView>, k: int)
    requires
        0 <= k < 3,
    ensures
        zip_columns(summary_column_names(), row).contains_key(summary_column_names()[k]) <==> k
            < row.len(),
        k < row.len() ==> zip_columns(summary_column_names(), row)[summary_column_names()[k]]
            == row[k],
{
    summary_columns_distinct();
    let names = summary_column_names();
    let n: nat = if names.len() <= row.len() {
        names.len()
    } else {
        row.len()
    };
    lemma_zip_prefix_names(names, row, n, names[k]);
    if k < row.len() {
        lemma_zip_prefix_lookup(names, row, n, k);
    } else {
        assert forall|j: int| 0 <= j < n implies #[trigger] names[j] != names[k] by {}
    }
}

/// A row that holds an integer, three strings and a timestamp of ten
/// characters or more, in the order of the columns of a post, is mapped to
/// the post of exactly these values, dated by the timestamp's first ten
/// characters.
pub proof fn full_row_gives_its_post(
    id: int,
    content: Seq<char>,
    title: Seq<char>,
    footer: Seq<char>,
    timeadd: Seq<char>,
)
    requires
        timeadd.len() >= 10,
    ensures
        ({
            let row = seq![
                ValueView::Integer(id),
                ValueView::Text(content),
                ValueView::Text(title),
                ValueView::Text(footer),
                ValueView::Text(timeadd),
            ];
            let record = zip_columns(post_column_names(), row);
            &&& date_derivable(record)
            &&& post_of(record) == PostView {
                id,
                title,
                content,
                footer,
                date: timeadd.subrange(0, 10),
            }
        }),
{
    let row = seq![
        ValueView::Integer(id),
        ValueView::Text(content),
        ValueView::Text(title),
        ValueView::Text(footer),
        ValueView::Text(timeadd),
    ];
    post_row_lookup(row, 0);
    post_row_lookup(row, 1);
    post_row_lookup(row, 2);
    post_row_lookup(row, 3);
    post_row_lookup(row, 4);
}

/// A row that holds an integer, a string and a timestamp of ten characters
/// or more, in the order of the columns of a summary, is mapped to the
/// summary of exactly these values.
pub proof fn full_row_gives_its_summary(id: int, title: Seq<char>, timeadd: Seq<char>)
    requires
        timeadd.len() >= 10,
    ensures
        ({
            let row = seq![
                ValueView::Integer(id),
                ValueView::Text(title),
                ValueView::Text(timeadd),
            ];
            let record = zip_columns(summary_column_names(), row);
            &&& date_derivable(record)
            &&& summary_of(record) == SummaryView { id, title, date: timeadd.subrange(0, 10) }
        }),
{
    let row = seq![ValueView::Integer(id), ValueView::Text(title), ValueView::Text(timeadd)];
    summary_row_lookup(row, 0);
    summary_row_lookup(row, 1);
    summary_row_lookup(row, 2);
}

/// Mapping keeps what the store answered: there are as many posts as rows,
/// in the same order, and a post has the integer that its row leads with as
/// its id.
pub proof fn posts_keep_rows(rows: Seq<Seq<ValueView>>)
    ensures
        posts_of(records_of(post_column_names(), rows)).len() == rows.len(),
        forall|i: int|
            0 <= i < rows.len() && leading_integer(#[trigger] rows[i]) is Some ==> posts_of(
                records_of(post_column_names(), rows),
            )[i].id == leading_integer(rows[i]).unwrap(),
{
    assert forall|i: int|
        0 <= i < rows.len() && leading_integer(#[trigger] rows[i]) is Some implies posts_of(
        records_of(post_column_names(), rows),
    )[i].id == leading_integer(rows[i]).unwrap() by {
        post_row_lookup(rows[i], 0);
    }
}

/// Mapping keeps what the store answered; as for posts.
pub proof fn summaries_keep_rows(rows: Seq<Seq<ValueView>>)
    ensures
        summaries_of(records_of(summary_column_names(), rows)).len() == rows.len(),
        forall|i: int|
            0 <= i < rows.len() && leading_integer(#[trigger] rows[i]) is Some ==> summaries_of(
                records_of(summary_column_names(), rows),
            )[i].id == leading_integer(rows[i]).unwrap(),
{
    assert forall|i: int|
        0 <= i < rows.len() && leading_integer(#[trigger] rows[i]) is Some implies summaries_of(
        records_of(summary_column_names(), rows),
    )[i].id == leading_integer(rows[i]).unwrap() by {
        summary_row_lookup(rows[i], 0);
    }
}

/// Whether rows are at most `limit` and lead with integers that descend
/// from row to row: what the store owes to a query for the newest rows.
pub open spec fn newest_first(rows: Seq<Seq<ValueView>>, limit: int) -> bool {
    &&& rows.len() <= limit
    &&& forall|i: int| 0 <= i < rows.len() ==> leading_integer(#[trigger] rows[i]) is Some
    &&& forall|i: int, j: int|
        0 <= i < j < rows.len() ==> leading_integer(#[trigger] rows[i]).unwrap() > leading_integer(
            #[trigger] rows[j],
        ).unwrap()
}

/// Where the store answers the query for the newest posts with at most
/// `limit` rows in descending order of id, the posts are at most `limit`,
/// in descending order of id.
pub proof fn newest_rows_give_newest_posts(rows: Seq<Seq<ValueView>>, limit: int)
    requires
        newest_first(rows, limit),
    ensures
        posts_of(records_of(post_column_names(), rows)).len() <= limit,
        forall|i: int, j: int|
            0 <= i < j < rows.len() ==> (#[trigger] posts_of(
                records_of(post_column_names(), rows),
            )[i]).id > (#[trigger] posts_of(records_of(post_column_names(), rows))[j]).id,
{
    posts_keep_rows(rows);
}

/// Where the store answers the query for the newest summaries with at most
/// `limit` rows in descending order of id, the summaries are at most
/// `limit`, in descending order of id.
pub proof fn newest_rows_give_newest_summaries(rows: Seq<Seq<ValueView>>, limit: int)
    requires
        newest_first(rows, limit),
    ensures
        summaries_of(records_of(summary_column_names(), rows)).len() <= limit,
        forall|i: int, j: int|
            0 <= i < j < rows.len() ==> (#[trigger] summaries_of(
                records_of(summary_column_names(), rows),
            )[i]).id > (#[trigger] summaries_of(records_of(summary_column_names(), rows))[j]).id,
{
    summaries_keep_rows(rows);
}

/// Where the store answers the query by id with no row, there is no post;
/// where it answers with the one row that leads with that id, there is
/// exactly one post, and it has that id.
pub proof fn row_of_id_gives_post_of_id(rows: Seq<Seq<ValueView>>, id: int)
    requires
        row_of_id(rows, id),
    ensures
        posts_of(records_of(post_column_names(), rows)).len() == rows.len(),
        rows.len() == 1 ==> posts_of(records_of(post_column_names(), rows))[0].id == id,
{
    posts_keep_rows(rows);
}

/// Where the store fails, every listing is empty, whatever the error.
pub proof fn storage_failure_lists_nothing<E>(error: E)
    ensures
        listed_posts(fetched_records(post_column_names(), Err::<Vec<Vec<Value>>, E>(error)))
            == Ok::<Seq<PostView>, int>(Seq::empty()),
        listed_summaries(
            fetched_records(summary_column_names(), Err::<Vec<Vec<Value>>, E>(error)),
        ) == Ok::<Seq<SummaryView>, int>(Seq::empty()),
{
}

} // verus!
