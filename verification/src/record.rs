//! A row of a query result, keyed by column name.

use vstd::prelude::*;
use crate::value::{Value, ValueView};

verus! {

/// The content of a row: which value stands under which column name.
pub type RecordView = Map<Seq<char>, ValueView>;

/// Whether `entries[i]` is stored under `name`.
pub open spec fn stored_at(entries: Seq<(String, Value)>, name: Seq<char>, i: int) -> bool {
    0 <= i < entries.len() && entries[i].0@ == name
}

/// Whether no two entries share a name.
pub open spec fn names_distinct(entries: Seq<(String, Value)>) -> bool {
    forall|i: int, j: int|
        0 <= i < j < entries.len() ==> (#[trigger] entries[i]).0@ != (#[trigger] entries[j]).0@
}

/// The map that a list of entries with distinct names stands for.
pub open spec fn entries_map(entries: Seq<(String, Value)>) -> RecordView {
    Map::new(
        |name: Seq<char>| exists|i: int| stored_at(entries, name, i),
        |name: Seq<char>| entries[choose|i: int| stored_at(entries, name, i)].1@,
    )
}

/// The map made of the first `n` pairs of `names` and `values`, taken in
/// order: a name that occurs again takes the later value.
pub open spec fn zip_prefix(names: Seq<Seq<char>>, values: Seq<ValueView>, n: nat) -> RecordView
    decreases n,
{
    if n == 0 {
        Map::empty()
    } else {
        zip_prefix(names, values, (n - 1) as nat).insert(names[n - 1], values[n - 1])
    }
}

/// The record that a row of `values` makes under the column `names`: names
/// and values are paired by position, as far as the shorter of the two goes.
pub open spec fn zip_columns(names: Seq<Seq<char>>, values: Seq<ValueView>) -> RecordView {
    zip_prefix(
        names,
        values,
        if names.len() <= values.len() {
            names.len()
        } else {
            values.len()
        },
    )
}

/// With distinct names, an entry is found under its own name.
proof fn lemma_entry_found(entries: Seq<(String, Value)>, i: int)
    requires
        names_distinct(entries),
        0 <= i < entries.len(),
    ensures
        entries_map(entries).contains_key(entries[i].0@),
        entries_map(entries)[entries[i].0@] == entries[i].1@,
{
    let name = entries[i].0@;
    assert(stored_at(entries, name, i));
    let found = choose|k: int| stored_at(entries, name, k);
    assert(stored_at(entries, name, found));
    if found < i {
        assert(entries[found].0@ != entries[i].0@);
    } else if i < found {
        assert(entries[i].0@ != entries[found].0@);
    }
}

/// Adding an entry under a new name inserts it into the map.
proof fn lemma_push_inserts(entries: Seq<(String, Value)>, name: String, value: Value)
    requires
        names_distinct(entries),
        !entries_map(entries).contains_key(name@),
    ensures
        names_distinct(entries.push((name, value))),
        entries_map(entries.push((name, value))) == entries_map(entries).insert(name@, value@),
{
    let grown = entries.push((name, value));
    assert forall|i: int, j: int| 0 <= i < j < grown.len() implies (#[trigger] grown[i]).0@ != (
    #[trigger] grown[j]).0@ by {
        if j == entries.len() {
            if grown[i].0@ == name@ {
                assert(stored_at(entries, name@, i));
            }
        } else {
            assert(entries[i].0@ != entries[j].0@);
        }
    }
    assert forall|key: Seq<char>|
        entries_map(grown).contains_key(key) <==> #[trigger] entries_map(entries).insert(
            name@,
            value@,
        ).contains_key(key) by {
        if entries_map(grown).contains_key(key) {
            let i = choose|i: int| stored_at(grown, key, i);
            if i < entries.len() {
                assert(stored_at(entries, key, i));
            }
        }
        if entries_map(entries).contains_key(key) {
            let i = choose|i: int| stored_at(entries, key, i);
            assert(stored_at(grown, key, i));
        }
        if key == name@ {
            assert(stored_at(grown, key, entries.len() as int));
        }
    }
    assert forall|key: Seq<char>| #[trigger]
        entries_map(grown).contains_key(key) implies entries_map(grown)[key] == entries_map(
        entries,
    ).insert(name@, value@)[key] by {
        let i = choose|i: int| stored_at(grown, key, i);
        lemma_entry_found(grown, i);
        if i < entries.len() {
            assert(stored_at(entries, key, i));
            lemma_entry_found(entries, i);
        }
    }
    assert(entries_map(grown) =~= entries_map(entries).insert(name@, value@));
}

/// Replacing the value of an entry, under the same name, overwrites it in the map.
proof fn lemma_update_inserts(entries: Seq<(String, Value)>, at: int, name: String, value: Value)
    requires
        names_distinct(entries),
        0 <= at < entries.len(),
        entries[at].0@ == name@,
    ensures
        names_distinct(entries.update(at, (name, value))),
        entries_map(entries.update(at, (name, value))) == entries_map(entries).insert(
            name@,
            value@,
        ),
{
    let changed = entries.update(at, (name, value));
    assert forall|i: int, j: int| 0 <= i < j < changed.len() implies (#[trigger] changed[i]).0@ != (
    #[trigger] changed[j]).0@ by {
        assert(entries[i].0@ != entries[j].0@);
    }
    assert forall|key: Seq<char>|
        entries_map(changed).contains_key(key) <==> #[trigger] entries_map(entries).insert(
            name@,
            value@,
        ).contains_key(key) by {
        if entries_map(changed).contains_key(key) {
            let i = choose|i: int| stored_at(changed, key, i);
            assert(stored_at(entries, key, i));
        }
        if entries_map(entries).contains_key(key) {
            let i = choose|i: int| stored_at(entries, key, i);
            assert(stored_at(changed, key, i));
        }
        if key == name@ {
            assert(stored_at(changed, key, at));
        }
    }
    assert forall|key: Seq<char>| #[trigger]
        entries_map(changed).contains_key(key) implies entries_map(changed)[key] == entries_map(
        entries,
    ).insert(name@, value@)[key] by {
        let i = choose|i: int| stored_at(changed, key, i);
        lemma_entry_found(changed, i);
        assert(stored_at(entries, key, i));
        lemma_entry_found(entries, i);
    }
    assert(entries_map(changed) =~= entries_map(entries).insert(name@, value@));
}

/// A row of a query result: each column name with the value found under it.
///
/// A name occurs at most once; inserting under a name that is present
/// replaces the value.
#[derive(Debug)]
pub struct Record {
    entries: Vec<(String, Value)>,
}

impl View for Record {
    type V = RecordView;

    closed spec fn view(&self) -> RecordView {
        entries_map(self.entries@)
    }
}

impl DeepView for Record {
    type V = RecordView;

    open spec fn deep_view(&self) -> RecordView {
        self@
    }
}

impl Record {
    #[verifier::type_invariant]
    spec fn well_formed(self) -> bool {
        names_distinct(self.entries@)
    }

    /// A record without columns.
    pub fn new() -> (record: Record)
        ensures
            record@ == Map::<Seq<char>, ValueView>::empty(),
    {
        let record = Record { entries: Vec::new() };
        assert(record@ =~= Map::<Seq<char>, ValueView>::empty()) by {
            assert forall|name: Seq<char>| !record@.contains_key(name) by {
                if record@.contains_key(name) {
                    let i = choose|i: int| stored_at(record.entries@, name, i);
                    assert(stored_at(record.entries@, name, i));
                }
            }
        }
        record
    }

    /// Stores `value` under `name`, in place of what stood there before.
    pub fn insert(&mut self, name: String, value: Value)
        ensures
            final(self)@ == old(self)@.insert(name@, value@),
    {
        proof {
            use_type_invariant(&*self);
        }
        let mut entries: Vec<(String, Value)> = Vec::new();
        std::mem::swap(&mut entries, &mut self.entries);
        let ghost before = entries@;
        let mut i: usize = 0;
        while i < entries.len()
            invariant
                entries@ == before,
                before == old(self).entries@,
                names_distinct(before),
                0 <= i <= entries.len(),
                forall|k: int| 0 <= k < i ==> !stored_at(before, name@, k),
            decreases entries.len() - i,
        {
            if entries[i].0 == name {
                proof {
                    lemma_update_inserts(before, i as int, name, value);
                }
                entries.set(i, (name, value));
                self.entries = entries;
                return ;
            }
            i += 1;
        }
        proof {
            assert(!entries_map(before).contains_key(name@)) by {
                if entries_map(before).contains_key(name@) {
                    let k = choose|k: int| stored_at(before, name@, k);
                    assert(stored_at(before, name@, k));
                }
            }
            lemma_push_inserts(before, name, value);
        }
        entries.push((name, value));
        self.entries = entries;
    }

    /// The value stored under `name`, if there is one.
    pub fn get(&self, name: &str) -> (found: Option<&Value>)
        ensures
            found.is_some() == self@.contains_key(name@),
            found.is_some() ==> found.unwrap()@ == self@[name@],
    {
        proof {
            use_type_invariant(&*self);
        }
        let wanted = name.to_owned();
        let mut i: usize = 0;
        while i < self.entries.len()
            invariant
                wanted@ == name@,
                names_distinct(self.entries@),
                0 <= i <= self.entries.len(),
                forall|k: int| 0 <= k < i ==> !stored_at(self.entries@, name@, k),
            decreases self.entries.len() - i,
        {
            if self.entries[i].0 == wanted {
                proof {
                    lemma_entry_found(self.entries@, i as int);
                }
                return Some(&self.entries[i].1);
            }
            i += 1;
        }
        proof {
            if self@.contains_key(name@) {
                let k = choose|k: int| stored_at(self.entries@, name@, k);
                assert(stored_at(self.entries@, name@, k));
            }
        }
        None
    }

    /// Whether a value is stored under `name`.
    pub fn contains(&self, name: &str) -> (present: bool)
        ensures
            present == self@.contains_key(name@),
    {
        self.get(name).is_some()
    }

    /// The record of a result row: column names and values are paired by
    /// position, as far as the shorter of the two goes, and a name that
    /// occurs again takes the later value.
    pub fn from_row(columns: &Vec<String>, row: &Vec<Value>) -> (record: Record)
        ensures
            record@ == zip_columns(columns.deep_view(), row.deep_view()),
    {
        let count: usize = if columns.len() <= row.len() {
            columns.len()
        } else {
            row.len()
        };
        let mut record = Record::new();
        let mut i: usize = 0;
        while i < count
            invariant
                0 <= i <= count,
                count <= columns.len(),
                count <= row.len(),
                record@ == zip_prefix(columns.deep_view(), row.deep_view(), i as nat),
            decreases count - i,
        {
            let name = columns[i].clone();
            let value = row[i].clone();
            record.insert(name, value);
            i += 1;
        }
        record
    }
}

/// Which names the first `n` pairs put into the map: those among the first
/// `n` names.
pub proof fn lemma_zip_prefix_names(
    names: Seq<Seq<char>>,
    values: Seq<ValueView>,
    n: nat,
    name: Seq<char>,
)
    requires
        n <= names.len(),
    ensures
        zip_prefix(names, values, n).contains_key(name) <==> exists|j: int|
            0 <= j < n && #[trigger] names[j] == name,
    decreases n,
{
    if n > 0 {
        lemma_zip_prefix_names(names, values, (n - 1) as nat, name);
        if exists|j: int| 0 <= j < n && #[trigger] names[j] == name {
            let j = choose|j: int| 0 <= j < n && #[trigger] names[j] == name;
            if j < n - 1 {
                assert(names[j] == name);
            }
        }
        if zip_prefix(names, values, (n - 1) as nat).contains_key(name) {
            let j = choose|j: int| 0 <= j < n - 1 && #[trigger] names[j] == name;
            assert(names[j] == name);
        }
        if name == names[n - 1] {
            assert(names[n - 1] == name);
        }
    }
}

/// A name that does not occur again after position `k` is paired with the
/// value at position `k`.
pub proof fn lemma_zip_prefix_lookup(
    names: Seq<Seq<char>>,
    values: Seq<ValueView>,
    n: nat,
    k: int,
)
    requires
        0 <= k < n,
        n <= names.len(),
        n <= values.len(),
        forall|j: int| k < j < n ==> #[trigger] names[j] != names[k],
    ensures
        zip_prefix(names, values, n).contains_key(names[k]),
        zip_prefix(names, values, n)[names[k]] == values[k],
    decreases n,
{
    if k < n - 1 {
        lemma_zip_prefix_lookup(names, values, (n - 1) as nat, k);
        assert(names[n - 1] != names[k]);
    }
}

} // verus!
