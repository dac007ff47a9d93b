//! The two entities that pages are rendered from, and the mapping from a
//! record to each of them.
//!
//! A field that the record lacks, or holds under another kind, is replaced by
//! a fixed fallback, so that the entity is still rendered and shows where the
//! data was wrong. The date is the one exception: it is cut out of the
//! timestamp, and a timestamp of fewer than ten characters yields no date.

use vstd::prelude::*;
use crate::record::{Record, RecordView};
use crate::value::ValueView;

verus! {

/// What an integer field falls back to.
pub const MISSING_INTEGER: i64 = -1;

/// What the title falls back to.
pub const MISSING_TITLE: &'static str = "Error: Title not found.";

/// What the content falls back to.
pub const MISSING_CONTENT: &'static str = "Error: Content not found.";

/// What the footer falls back to.
pub const MISSING_FOOTER: &'static str = "Error: Footer not found.";

/// What the timestamp falls back to.
pub const MISSING_DATE: &'static str = "Error: Date not found.";

/// The number of leading characters of a timestamp that make its date.
pub const DATE_LENGTH: usize = 10;

/// The integer under `name`, or `fallback` where the record has no integer there.
pub open spec fn integer_field(record: RecordView, name: Seq<char>, fallback: int) -> int {
    if record.contains_key(name) {
        match record[name] {
            ValueView::Integer(number) => number,
            _ => fallback,
        }
    } else {
        fallback
    }
}

/// The text under `name`, or `fallback` where the record has no text there.
pub open spec fn text_field(record: RecordView, name: Seq<char>, fallback: Seq<char>) -> Seq<
    char,
> {
    if record.contains_key(name) {
        match record[name] {
            ValueView::Text(text) => text,
            _ => fallback,
        }
    } else {
        fallback
    }
}

/// The timestamp that the date of an entity is cut from.
pub open spec fn timestamp_of(record: RecordView) -> Seq<char> {
    text_field(record, "timeadd"@, MISSING_DATE@)
}

/// Whether the timestamp is long enough to cut a date from.
pub open spec fn date_derivable(record: RecordView) -> bool {
    timestamp_of(record).len() >= DATE_LENGTH
}

/// The date of an entity: the leading characters of its timestamp.
pub open spec fn date_of(record: RecordView) -> Seq<char> {
    timestamp_of(record).subrange(0, DATE_LENGTH as int)
}

/// A blog post, as it is rendered.
#[derive(Debug, PartialEq, Eq)]
pub struct Post {
    pub id: i64,
    pub title: String,
    pub content: String,
    pub footer: String,
    pub date: String,
}

/// The content of a [`Post`].
pub ghost struct PostView {
    pub id: int,
    pub title: Seq<char>,
    pub content: Seq<char>,
    pub footer: Seq<char>,
    pub date: Seq<char>,
}

impl View for Post {
    type V = PostView;

    open spec fn view(&self) -> PostView {
        PostView {
            id: self.id as int,
            title: self.title@,
            content: self.content@,
            footer: self.footer@,
            date: self.date@,
        }
    }
}

impl DeepView for Post {
    type V = PostView;

    open spec fn deep_view(&self) -> PostView {
        self@
    }
}

/// The reduced form of a post that listings and the sidebar show.
#[derive(Debug, PartialEq, Eq)]
pub struct Summary {
    pub id: i64,
    pub title: String,
    pub date: String,
}

/// The content of a [`Summary`].
pub ghost struct SummaryView {
    pub id: int,
    pub title: Seq<char>,
    pub date: Seq<char>,
}

impl View for Summary {
    type V = SummaryView;

    open spec fn view(&self) -> SummaryView {
        SummaryView { id: self.id as int, title: self.title@, date: self.date@ }
    }
}

impl DeepView for Summary {
    type V = SummaryView;

    open spec fn deep_view(&self) -> SummaryView {
        self@
    }
}

impl Clone for Post {
    /// Copies the post; the copy has the same content.
    fn clone(&self) -> (copy: Post)
        ensures
            copy@ == self@,
    {
        Post {
            id: self.id,
            title: self.title.clone(),
            content: self.content.clone(),
            footer: self.footer.clone(),
            date: self.date.clone(),
        }
    }
}

impl Clone for Summary {
    /// Copies the summary; the copy has the same content.
    fn clone(&self) -> (copy: Summary)
        ensures
            copy@ == self@,
    {
        Summary { id: self.id, title: self.title.clone(), date: self.date.clone() }
    }
}

/// The post that a record stands for.
pub open spec fn post_of(record: RecordView) -> PostView {
    PostView {
        id: integer_field(record, "id"@, MISSING_INTEGER as int),
        title: text_field(record, "title"@, MISSING_TITLE@),
        content: text_field(record, "content"@, MISSING_CONTENT@),
        footer: text_field(record, "footer"@, MISSING_FOOTER@),
        date: date_of(record),
    }
}

/// The summary that a record stands for.
pub open spec fn summary_of(record: RecordView) -> SummaryView {
    SummaryView {
        id: integer_field(record, "id"@, MISSING_INTEGER as int),
        title: text_field(record, "title"@, MISSING_TITLE@),
        date: date_of(record),
    }
}

/// Reads an integer field, with the caller's fallback for a field that is
/// absent or not an integer.
pub fn integer_or(record: &Record, name: &str, fallback: i64) -> (number: i64)
    ensures
        number == integer_field(record@, name@, fallback as int),
{
    match record.get(name) {
        Some(value) => match value.as_integer() {
            Some(number) => number,
            None => fallback,
        },
        None => fallback,
    }
}

/// Reads a text field, with the caller's fallback for a field that is absent
/// or not a string.
pub fn text_or(record: &Record, name: &str, fallback: &str) -> (text: String)
    ensures
        text@ == text_field(record@, name@, fallback@),
{
    match record.get(name) {
        Some(value) => match value.as_string() {
            Some(text) => text.to_owned(),
            None => fallback.to_owned(),
        },
        None => fallback.to_owned(),
    }
}

/// Whether a date can be cut from the record's timestamp.
pub fn has_date(record: &Record) -> (derivable: bool)
    ensures
        derivable == date_derivable(record@),
{
    let timestamp = text_or(record, "timeadd", MISSING_DATE);
    timestamp.as_str().unicode_len() >= DATE_LENGTH
}

/// Cuts the date out of the record's timestamp.
fn date_from(record: &Record) -> (date: String)
    requires
        date_derivable(record@),
    ensures
        date@ == date_of(record@),
{
    let timestamp = text_or(record, "timeadd", MISSING_DATE);
    timestamp.as_str().substring_char(0, DATE_LENGTH).to_owned()
}

/// Maps a record to a summary. Each field but the date falls back to its
/// marker where the record has nothing of the right kind.
pub fn map_to_summary(record: &Record) -> (summary: Summary)
    requires
        date_derivable(record@),
    ensures
        summary@ == summary_of(record@),
{
    Summary {
        id: integer_or(record, "id", MISSING_INTEGER),
        title: text_or(record, "title", MISSING_TITLE),
        date: date_from(record),
    }
}

/// Maps a record to a post. Each field but the date falls back to its marker
/// where the record has nothing of the right kind.
pub fn map_to_post(record: &Record) -> (post: Post)
    requires
        date_derivable(record@),
    ensures
        post@ == post_of(record@),
{
    Post {
        id: integer_or(record, "id", MISSING_INTEGER),
        title: text_or(record, "title", MISSING_TITLE),
        content: text_or(record, "content", MISSING_CONTENT),
        footer: text_or(record, "footer", MISSING_FOOTER),
        date: date_from(record),
    }
}

/// The date of an entity is the first ten characters of the timestamp that
/// its record holds as a string, whenever that string has ten characters or
/// more.
pub proof fn date_is_timestamp_prefix(record: RecordView, timeadd: Seq<char>)
    requires
        record.contains_key("timeadd"@),
        record["timeadd"@] == ValueView::Text(timeadd),
        timeadd.len() >= 10,
    ensures
        date_derivable(record),
        post_of(record).date == timeadd.subrange(0, 10),
        summary_of(record).date == timeadd.subrange(0, 10),
        post_of(record).date.len() == 10,
{
}

/// A record that holds no string under a text field gives the entity that
/// field's marker: the field may be absent or of another kind.
pub proof fn missing_text_falls_back(record: RecordView)
    ensures
        !(record.contains_key("title"@) && record["title"@] is Text) ==> post_of(record).title
            == "Error: Title not found."@ && summary_of(record).title == "Error: Title not found."@,
        !(record.contains_key("content"@) && record["content"@] is Text) ==> post_of(
            record,
        ).content == "Error: Content not found."@,
        !(record.contains_key("footer"@) && record["footer"@] is Text) ==> post_of(record).footer
            == "Error: Footer not found."@,
{
}

/// A record that holds no integer under `id` gives the entity the id -1.
pub proof fn missing_id_falls_back(record: RecordView)
    ensures
        !(record.contains_key("id"@) && record["id"@] is Integer) ==> post_of(record).id == -1
            && summary_of(record).id == -1,
{
}

/// A record that holds no string under `timeadd` still has a date: the first
/// ten characters of the timestamp's marker.
pub proof fn missing_timestamp_falls_back(record: RecordView)
    requires
        !(record.contains_key("timeadd"@) && record["timeadd"@] is Text),
    ensures
        date_derivable(record),
        date_of(record) == "Error: Dat"@,
{
    reveal_strlit("Error: Date not found.");
    reveal_strlit("Error: Dat");
    assert(date_of(record) =~= "Error: Dat"@);
}

/// Whether a date can be cut from a record whose timestamp is a string
/// depends on the length of that string alone: it takes ten characters.
pub proof fn date_takes_ten_characters(record: RecordView, timeadd: Seq<char>)
    requires
        record.contains_key("timeadd"@),
        record["timeadd"@] == ValueView::Text(timeadd),
    ensures
        date_derivable(record) <==> timeadd.len() >= 10,
{
}

} // verus!
