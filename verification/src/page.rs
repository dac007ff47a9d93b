//! Page assembly and the three page handlers.
//!
//! A page is the name of a template and the context that it is rendered
//! from: the content of the page, the summaries of the sidebar, and the name
//! of the parent template that wraps both. Rendering is left to the caller.

use vstd::prelude::*;
use crate::entity::{Post, PostView, Summary, SummaryView};
use crate::query::{
    post_by_id_spec, post_column_names, posts_latest_spec, summary_column_names,
    summary_latest_spec, QueryView, SIDEBAR_LIMIT,
};
use crate::repository::{
    accepts, fetched_records, get_post_by_id, get_posts_latest, get_sidebar_summary,
    get_summary_latest, keeps_newest_first, keeps_to_id, listed_posts, listed_summaries,
    may_answer, newest_rows_give_newest_posts, newest_rows_give_newest_summaries, post_ids_descend,
    posts_of, records_of, row_of_id_gives_post_of_id, summaries_of, summary_ids_descend,
    ShortTimestamp,
};
use crate::value::Value;

verus! {

/// The parent template of the pages that show posts.
pub const BLOG_PARENT: &'static str = "blog";

/// The parent template of the page that lists all posts.
pub const BROWSE_PARENT: &'static str = "browse";

/// The template that every page is rendered through.
pub const INDEX_TEMPLATE: &'static str = "index";

/// How many posts the front page shows.
pub const FRONT_PAGE_LIMIT: i32 = 5;

/// How many summaries the listing of all posts shows at most.
pub const BROWSE_LIMIT: i32 = 1000;

/// A list of entities of one kind, as the content of a page.
#[derive(Debug)]
pub struct GroupContent<C> {
    pub items: Vec<C>,
}

/// What a template is rendered from.
#[derive(Debug)]
pub struct PageContent<C> {
    /// The summaries of the sidebar.
    pub summaries: Vec<Summary>,
    /// The content of the page itself.
    pub content: C,
    /// The name of the parent template.
    pub parent: String,
}

/// A page that is ready to be rendered.
#[derive(Debug)]
pub struct Page<C> {
    /// The name of the template.
    pub template: String,
    /// The context handed to the template.
    pub context: PageContent<C>,
}

/// Whether `page` is the page of the named template with the given content,
/// parent and sidebar.
pub open spec fn page_holds<C>(
    page: Page<C>,
    content: C,
    parent: Seq<char>,
    template: Seq<char>,
    summaries: Seq<SummaryView>,
) -> bool {
    &&& page.template@ == template
    &&& page.context.parent@ == parent
    &&& page.context.content == content
    &&& page.context.summaries.deep_view() == summaries
}

/// How an assembled page follows from the listing of the sidebar: a row
/// without a date fails the page, and else the page holds what it was given.
pub open spec fn assembled<C>(
    content: C,
    parent: Seq<char>,
    template: Seq<char>,
    sidebar: Result<Seq<SummaryView>, int>,
    result: Result<Page<C>, ShortTimestamp>,
) -> bool {
    match sidebar {
        Err(row) => result matches Err(short) && short.row == row,
        Ok(summaries) => result matches Ok(page) && page_holds(
            page,
            content,
            parent,
            template,
            summaries,
        ),
    }
}

/// Whether `fetch` may be asked for the sidebar.
pub open spec fn accepts_sidebar<E, F: Fn(&String, &Vec<Value>) -> Result<Vec<Vec<Value>>, E>>(
    fetch: F,
) -> bool {
    accepts(fetch, summary_latest_spec(SIDEBAR_LIMIT as int))
}

/// Whether some answer of the store to the query for the sidebar leads to
/// `result` as the page of the given content.
pub open spec fn assembles_to<C, E, F: Fn(&String, &Vec<Value>) -> Result<Vec<Vec<Value>>, E>>(
    fetch: F,
    content: C,
    parent: Seq<char>,
    template: Seq<char>,
    result: Result<Page<C>, ShortTimestamp>,
) -> bool {
    exists|answer: Result<Vec<Vec<Value>>, E>| #[trigger]
        may_answer(fetch, summary_latest_spec(SIDEBAR_LIMIT as int), answer) && assembled(
            content,
            parent,
            template,
            listed_summaries(fetched_records(summary_column_names(), answer)),
            result,
        )
}

/// Puts a page together from its parts.
pub fn page_of<C>(content: C, parent: &str, template: &str, summaries: Vec<Summary>) -> (page: Page<
    C,
>)
    ensures
        page_holds(page, content, parent@, template@, summaries.deep_view()),
        page.context.summaries == summaries,
{
    Page {
        template: template.to_owned(),
        context: PageContent { summaries, content, parent: parent.to_owned() },
    }
}

/// Assembles a page: fetches the summaries of the sidebar, none where the
/// store fails, and joins them with the content and the parent's name under
/// the named template.
pub fn create_template<C, E, F: Fn(&String, &Vec<Value>) -> Result<Vec<Vec<Value>>, E>>(
    parent_content: C,
    parent: &str,
    wrapper_template_name: &str,
    fetch: &F,
) -> (result: Result<Page<C>, ShortTimestamp>)
    requires
        accepts_sidebar(*fetch),
    ensures
        assembles_to(*fetch, parent_content, parent@, wrapper_template_name@, result),
{
    match get_sidebar_summary(fetch) {
        Ok(summaries) => Ok(page_of(parent_content, parent, wrapper_template_name, summaries)),
        Err(short) => Err(short),
    }
}

/// Whether `result` is a page of posts: some answer of the store to `query`
/// gives the posts, a row without a date fails the page, and the sidebar is
/// fetched only after the posts were read.
pub open spec fn posts_page<E, F: Fn(&String, &Vec<Value>) -> Result<Vec<Vec<Value>>, E>>(
    fetch: F,
    query: QueryView,
    parent: Seq<char>,
    template: Seq<char>,
    result: Result<Page<GroupContent<Post>>, ShortTimestamp>,
) -> bool {
    exists|answer: Result<Vec<Vec<Value>>, E>| #[trigger]
        may_answer(fetch, query, answer) && match listed_posts(
            fetched_records(post_column_names(), answer),
        ) {
            Err(row) => result matches Err(short) && short.row == row,
            Ok(posts) => exists|content: GroupContent<Post>| #[trigger]
                assembles_to(fetch, content, parent, template, result) && content.items.deep_view()
                    == posts,
        }
}

/// Whether `result` is a page of summaries; as for a page of posts.
pub open spec fn summaries_page<E, F: Fn(&String, &Vec<Value>) -> Result<Vec<Vec<Value>>, E>>(
    fetch: F,
    query: QueryView,
    parent: Seq<char>,
    template: Seq<char>,
    result: Result<Page<GroupContent<Summary>>, ShortTimestamp>,
) -> bool {
    exists|answer: Result<Vec<Vec<Value>>, E>| #[trigger]
        may_answer(fetch, query, answer) && match listed_summaries(
            fetched_records(summary_column_names(), answer),
        ) {
            Err(row) => result matches Err(short) && short.row == row,
            Ok(summaries) => exists|content: GroupContent<Summary>| #[trigger]
                assembles_to(fetch, content, parent, template, result) && content.items.deep_view()
                    == summaries,
        }
}

/// The front page: the newest posts under the blog's parent template.
pub fn index<E, F: Fn(&String, &Vec<Value>) -> Result<Vec<Vec<Value>>, E>>(fetch: &F) -> (result:
    Result<Page<GroupContent<Post>>, ShortTimestamp>)
    requires
        accepts(*fetch, posts_latest_spec(FRONT_PAGE_LIMIT as int)),
        accepts_sidebar(*fetch),
    ensures
        posts_page(
            *fetch,
            posts_latest_spec(FRONT_PAGE_LIMIT as int),
            BLOG_PARENT@,
            INDEX_TEMPLATE@,
            result,
        ),
{
    match get_posts_latest(FRONT_PAGE_LIMIT, fetch) {
        Err(short) => Err(short),
        Ok(posts) => {
            let content = GroupContent { items: posts };
            let result = create_template(content, BLOG_PARENT, INDEX_TEMPLATE, fetch);
            assert(assembles_to(*fetch, content, BLOG_PARENT@, INDEX_TEMPLATE@, result));
            result
        },
    }
}

/// The page of one post: the post with the given id, or no post, under the
/// blog's parent template.
pub fn get_post<E, F: Fn(&String, &Vec<Value>) -> Result<Vec<Vec<Value>>, E>>(
    id: i32,
    fetch: &F,
) -> (result: Result<Page<GroupContent<Post>>, ShortTimestamp>)
    requires
        accepts(*fetch, post_by_id_spec(id as int)),
        accepts_sidebar(*fetch),
    ensures
        posts_page(*fetch, post_by_id_spec(id as int), BLOG_PARENT@, INDEX_TEMPLATE@, result),
{
    match get_post_by_id(id, fetch) {
        Err(short) => Err(short),
        Ok(posts) => {
            let content = GroupContent { items: posts };
            let result = create_template(content, BLOG_PARENT, INDEX_TEMPLATE, fetch);
            assert(assembles_to(*fetch, content, BLOG_PARENT@, INDEX_TEMPLATE@, result));
            result
        },
    }
}

/// The listing of all posts: their summaries, newest first, under the
/// listing's parent template.
pub fn browse_posts<E, F: Fn(&String, &Vec<Value>) -> Result<Vec<Vec<Value>>, E>>(
    fetch: &F,
) -> (result: Result<Page<GroupContent<Summary>>, ShortTimestamp>)
    requires
        accepts(*fetch, summary_latest_spec(BROWSE_LIMIT as int)),
        accepts_sidebar(*fetch),
    ensures
        summaries_page(
            *fetch,
            summary_latest_spec(BROWSE_LIMIT as int),
            BROWSE_PARENT@,
            INDEX_TEMPLATE@,
            result,
        ),
{
    match get_summary_latest(BROWSE_LIMIT, fetch) {
        Err(short) => Err(short),
        Ok(summaries) => {
            let content = GroupContent { items: summaries };
            let result = create_template(content, BROWSE_PARENT, INDEX_TEMPLATE, fetch);
            assert(assembles_to(*fetch, content, BROWSE_PARENT@, INDEX_TEMPLATE@, result));
            result
        },
    }
}

/// Whether the store, asked `query`, has nothing to show: it fails, or it
/// answers without a row.
pub open spec fn shows_nothing<E, F: Fn(&String, &Vec<Value>) -> Result<Vec<Vec<Value>>, E>>(
    fetch: F,
    query: QueryView,
) -> bool {
    forall|answer: Result<Vec<Vec<Value>>, E>| #[trigger]
        may_answer(fetch, query, answer) ==> (answer matches Ok(rows) ==> rows@.len() == 0)
}

/// A page of posts is rendered also where the store fails or is empty: it
/// then has no post and an empty sidebar, under the same template and parent.
pub proof fn silent_store_gives_empty_posts_page<
    E,
    F: Fn(&String, &Vec<Value>) -> Result<Vec<Vec<Value>>, E>,
>(
    fetch: F,
    query: QueryView,
    parent: Seq<char>,
    template: Seq<char>,
    result: Result<Page<GroupContent<Post>>, ShortTimestamp>,
)
    requires
        posts_page(fetch, query, parent, template, result),
        shows_nothing(fetch, query),
        shows_nothing(fetch, summary_latest_spec(SIDEBAR_LIMIT as int)),
    ensures
        result matches Ok(page) && page.template@ == template && page.context.parent@ == parent
            && page.context.content.items@.len() == 0 && page.context.summaries@.len() == 0,
{
    let answer = choose|answer: Result<Vec<Vec<Value>>, E>| #[trigger]
        may_answer(fetch, query, answer) && match listed_posts(
            fetched_records(post_column_names(), answer),
        ) {
            Err(row) => result matches Err(short) && short.row == row,
            Ok(posts) => exists|content: GroupContent<Post>| #[trigger]
                assembles_to(fetch, content, parent, template, result) && content.items.deep_view()
                    == posts,
        };
    let listing = listed_posts(fetched_records(post_column_names(), answer));
    assert(listing == Ok::<Seq<PostView>, int>(Seq::empty())) by {
        if let Ok(rows) = answer {
            assert(records_of(post_column_names(), rows.deep_view()) =~= Seq::empty());
            assert(posts_of(Seq::empty()) =~= Seq::empty());
        }
    }
    let content = choose|content: GroupContent<Post>| #[trigger]
        assembles_to(fetch, content, parent, template, result) && content.items.deep_view()
            == Seq::<PostView>::empty();
    lemma_silent_sidebar(fetch, content, parent, template, result);
    assert(content.items.deep_view().len() == 0);
}

/// A page of summaries is rendered also where the store fails or is empty:
/// it then has no summary and an empty sidebar.
pub proof fn silent_store_gives_empty_summaries_page<
    E,
    F: Fn(&String, &Vec<Value>) -> Result<Vec<Vec<Value>>, E>,
>(
    fetch: F,
    query: QueryView,
    parent: Seq<char>,
    template: Seq<char>,
    result: Result<Page<GroupContent<Summary>>, ShortTimestamp>,
)
    requires
        summaries_page(fetch, query, parent, template, result),
        shows_nothing(fetch, query),
        shows_nothing(fetch, summary_latest_spec(SIDEBAR_LIMIT as int)),
    ensures
        result matches Ok(page) && page.template@ == template && page.context.parent@ == parent
            && page.context.content.items@.len() == 0 && page.context.summaries@.len() == 0,
{
    let answer = choose|answer: Result<Vec<Vec<Value>>, E>| #[trigger]
        may_answer(fetch, query, answer) && match listed_summaries(
            fetched_records(summary_column_names(), answer),
        ) {
            Err(row) => result matches Err(short) && short.row == row,
            Ok(summaries) => exists|content: GroupContent<Summary>| #[trigger]
                assembles_to(fetch, content, parent, template, result) && content.items.deep_view()
                    == summaries,
        };
    let listing = listed_summaries(fetched_records(summary_column_names(), answer));
    assert(listing == Ok::<Seq<SummaryView>, int>(Seq::empty())) by {
        if let Ok(rows) = answer {
            assert(records_of(summary_column_names(), rows.deep_view()) =~= Seq::empty());
            assert(summaries_of(Seq::empty()) =~= Seq::empty());
        }
    }
    let content = choose|content: GroupContent<Summary>| #[trigger]
        assembles_to(fetch, content, parent, template, result) && content.items.deep_view()
            == Seq::<SummaryView>::empty();
    lemma_silent_sidebar(fetch, content, parent, template, result);
    assert(content.items.deep_view().len() == 0);
}

/// Where the store has nothing to show for the sidebar, an assembled page
/// holds its content under an empty sidebar.
proof fn lemma_silent_sidebar<C, E, F: Fn(&String, &Vec<Value>) -> Result<Vec<Vec<Value>>, E>>(
    fetch: F,
    content: C,
    parent: Seq<char>,
    template: Seq<char>,
    result: Result<Page<C>, ShortTimestamp>,
)
    requires
        assembles_to(fetch, content, parent, template, result),
        shows_nothing(fetch, summary_latest_spec(SIDEBAR_LIMIT as int)),
    ensures
        result matches Ok(page) && page_holds(
            page,
            content,
            parent,
            template,
            Seq::<SummaryView>::empty(),
        ) && page.context.summaries@.len() == 0,
{
    let answer = choose|answer: Result<Vec<Vec<Value>>, E>| #[trigger]
        may_answer(fetch, summary_latest_spec(SIDEBAR_LIMIT as int), answer) && assembled(
            content,
            parent,
            template,
            listed_summaries(fetched_records(summary_column_names(), answer)),
            result,
        );
    if let Ok(rows) = answer {
        assert(records_of(summary_column_names(), rows.deep_view()) =~= Seq::empty());
        assert(summaries_of(Seq::empty()) =~= Seq::empty());
    }
    let page = result->Ok_0;
    assert(page.context.summaries.deep_view().len() == 0);
}

/// Where the store keeps to the query for the newest rows, a page of posts
/// that is rendered shows at most `limit` posts, in descending order of id.
pub proof fn ordered_store_gives_ordered_posts_page<
    E,
    F: Fn(&String, &Vec<Value>) -> Result<Vec<Vec<Value>>, E>,
>(
    fetch: F,
    query: QueryView,
    limit: int,
    parent: Seq<char>,
    template: Seq<char>,
    result: Result<Page<GroupContent<Post>>, ShortTimestamp>,
)
    requires
        posts_page(fetch, query, parent, template, result),
        limit >= 0,
        keeps_newest_first(fetch, query, limit),
    ensures
        result matches Ok(page) ==> page.context.content.items@.len() <= limit
            && post_ids_descend(page.context.content.items.deep_view()),
{
    let answer = choose|answer: Result<Vec<Vec<Value>>, E>| #[trigger]
        may_answer(fetch, query, answer) && match listed_posts(
            fetched_records(post_column_names(), answer),
        ) {
            Err(row) => result matches Err(short) && short.row == row,
            Ok(posts) => exists|content: GroupContent<Post>| #[trigger]
                assembles_to(fetch, content, parent, template, result) && content.items.deep_view()
                    == posts,
        };
    if let Ok(page) = result {
        let posts = listed_posts(fetched_records(post_column_names(), answer))->Ok_0;
        let content = choose|content: GroupContent<Post>| #[trigger]
            assembles_to(fetch, content, parent, template, result) && content.items.deep_view()
                == posts;
        lemma_assembled_content(fetch, content, parent, template, result);
        if let Ok(rows) = answer {
            newest_rows_give_newest_posts(rows.deep_view(), limit);
        }
        assert(page.context.content.items.deep_view().len() == page.context.content.items@.len());
    }
}

/// Where the store keeps to the query for the newest rows, a page of
/// summaries that is rendered shows at most `limit` summaries, in
/// descending order of id.
pub proof fn ordered_store_gives_ordered_summaries_page<
    E,
    F: Fn(&String, &Vec<Value>) -> Result<Vec<Vec<Value>>, E>,
>(
    fetch: F,
    query: QueryView,
    limit: int,
    parent: Seq<char>,
    template: Seq<char>,
    result: Result<Page<GroupContent<Summary>>, ShortTimestamp>,
)
    requires
        summaries_page(fetch, query, parent, template, result),
        limit >= 0,
        keeps_newest_first(fetch, query, limit),
    ensures
        result matches Ok(page) ==> page.context.content.items@.len() <= limit
            && summary_ids_descend(page.context.content.items.deep_view()),
{
    let answer = choose|answer: Result<Vec<Vec<Value>>, E>| #[trigger]
        may_answer(fetch, query, answer) && match listed_summaries(
            fetched_records(summary_column_names(), answer),
        ) {
            Err(row) => result matches Err(short) && short.row == row,
            Ok(summaries) => exists|content: GroupContent<Summary>| #[trigger]
                assembles_to(fetch, content, parent, template, result) && content.items.deep_view()
                    == summaries,
        };
    if let Ok(page) = result {
        let summaries = listed_summaries(fetched_records(summary_column_names(), answer))->Ok_0;
        let content = choose|content: GroupContent<Summary>| #[trigger]
            assembles_to(fetch, content, parent, template, result) && content.items.deep_view()
                == summaries;
        lemma_assembled_content(fetch, content, parent, template, result);
        if let Ok(rows) = answer {
            newest_rows_give_newest_summaries(rows.deep_view(), limit);
        }
        assert(page.context.content.items.deep_view().len() == page.context.content.items@.len());
    }
}

/// Where the store keeps to the query by id, the page of one post that is
/// rendered shows at most one post, and no post of another id.
pub proof fn store_of_ids_gives_page_of_id<
    E,
    F: Fn(&String, &Vec<Value>) -> Result<Vec<Vec<Value>>, E>,
>(
    fetch: F,
    query: QueryView,
    id: int,
    parent: Seq<char>,
    template: Seq<char>,
    result: Result<Page<GroupContent<Post>>, ShortTimestamp>,
)
    requires
        posts_page(fetch, query, parent, template, result),
        keeps_to_id(fetch, query, id),
    ensures
        result matches Ok(page) ==> page.context.content.items@.len() <= 1 && forall|i: int|
            0 <= i < page.context.content.items@.len() ==> (
            #[trigger] page.context.content.items.deep_view()[i]).id == id,
{
    let answer = choose|answer: Result<Vec<Vec<Value>>, E>| #[trigger]
        may_answer(fetch, query, answer) && match listed_posts(
            fetched_records(post_column_names(), answer),
        ) {
            Err(row) => result matches Err(short) && short.row == row,
            Ok(posts) => exists|content: GroupContent<Post>| #[trigger]
                assembles_to(fetch, content, parent, template, result) && content.items.deep_view()
                    == posts,
        };
    if let Ok(page) = result {
        let posts = listed_posts(fetched_records(post_column_names(), answer))->Ok_0;
        let content = choose|content: GroupContent<Post>| #[trigger]
            assembles_to(fetch, content, parent, template, result) && content.items.deep_view()
                == posts;
        lemma_assembled_content(fetch, content, parent, template, result);
        if let Ok(rows) = answer {
            row_of_id_gives_post_of_id(rows.deep_view(), id);
        }
        assert(page.context.content.items.deep_view().len() == page.context.content.items@.len());
    }
}

/// An assembled page that is rendered holds the content it was given.
proof fn lemma_assembled_content<C, E, F: Fn(&String, &Vec<Value>) -> Result<Vec<Vec<Value>>, E>>(
    fetch: F,
    content: C,
    parent: Seq<char>,
    template: Seq<char>,
    result: Result<Page<C>, ShortTimestamp>,
)
    requires
        assembles_to(fetch, content, parent, template, result),
    ensures
        result matches Ok(page) ==> page.context.content == content && page.template@ == template
            && page.context.parent@ == parent,
{
}

/// Whether the store answers `query` without failing, and with `count` rows.
pub open spec fn answers_rows<E, F: Fn(&String, &Vec<Value>) -> Result<Vec<Vec<Value>>, E>>(
    fetch: F,
    query: QueryView,
    count: nat,
) -> bool {
    forall|answer: Result<Vec<Vec<Value>>, E>| #[trigger]
        may_answer(fetch, query, answer) ==> (answer matches Ok(rows) && rows@.len() == count)
}

/// A page of summaries that is rendered shows one summary for each row
/// that the store answered.
pub proof fn summaries_page_shows_every_row<
    E,
    F: Fn(&String, &Vec<Value>) -> Result<Vec<Vec<Value>>, E>,
>(
    fetch: F,
    query: QueryView,
    count: nat,
    parent: Seq<char>,
    template: Seq<char>,
    result: Result<Page<GroupContent<Summary>>, ShortTimestamp>,
)
    requires
        summaries_page(fetch, query, parent, template, result),
        answers_rows(fetch, query, count),
    ensures
        result matches Ok(page) ==> page.context.content.items@.len() == count,
{
    let answer = choose|answer: Result<Vec<Vec<Value>>, E>| #[trigger]
        may_answer(fetch, query, answer) && match listed_summaries(
            fetched_records(summary_column_names(), answer),
        ) {
            Err(row) => result matches Err(short) && short.row == row,
            Ok(summaries) => exists|content: GroupContent<Summary>| #[trigger]
                assembles_to(fetch, content, parent, template, result) && content.items.deep_view()
                    == summaries,
        };
    if let Ok(page) = result {
        let summaries = listed_summaries(fetched_records(summary_column_names(), answer))->Ok_0;
        let content = choose|content: GroupContent<Summary>| #[trigger]
            assembles_to(fetch, content, parent, template, result) && content.items.deep_view()
                == summaries;
        lemma_assembled_content(fetch, content, parent, template, result);
        assert(page.context.content.items.deep_view().len() == page.context.content.items@.len());
    }
}

/// A page of posts that is rendered shows one post for each row that the
/// store answered.
pub proof fn posts_page_shows_every_row<
    E,
    F: Fn(&String, &Vec<Value>) -> Result<Vec<Vec<Value>>, E>,
>(
    fetch: F,
    query: QueryView,
    count: nat,
    parent: Seq<char>,
    template: Seq<char>,
    result: Result<Page<GroupContent<Post>>, ShortTimestamp>,
)
    requires
        posts_page(fetch, query, parent, template, result),
        answers_rows(fetch, query, count),
    ensures
        result matches Ok(page) ==> page.context.content.items@.len() == count,
{
    let answer = choose|answer: Result<Vec<Vec<Value>>, E>| #[trigger]
        may_answer(fetch, query, answer) && match listed_posts(
            fetched_records(post_column_names(), answer),
        ) {
            Err(row) => result matches Err(short) && short.row == row,
            Ok(posts) => exists|content: GroupContent<Post>| #[trigger]
                assembles_to(fetch, content, parent, template, result) && content.items.deep_view()
                    == posts,
        };
    if let Ok(page) = result {
        let posts = listed_posts(fetched_records(post_column_names(), answer))->Ok_0;
        let content = choose|content: GroupContent<Post>| #[trigger]
            assembles_to(fetch, content, parent, template, result) && content.items.deep_view()
                == posts;
        lemma_assembled_content(fetch, content, parent, template, result);
        assert(page.context.content.items.deep_view().len() == page.context.content.items@.len());
    }
}

} // verus!
