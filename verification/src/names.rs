//! Names that the operator of the server sets in place of the store's.
use vstd::prelude::*;
use vstd::string::*;

use crate::protocol;
use crate::text;

verus! {

/// `serde_json::Error`, which is carried through and never looked into.
#[verifier::external_type_specification]
#[verifier::external_body]
pub struct ExError(serde_json::Error);

/// Why no name could be looked up.
#[derive(Debug)]
pub enum NamesError {
    /// The document is not a JSON object whose members are all strings.
    Malformed(serde_json::Error),
}

/// The entries of a table of names, as a map.
pub open spec fn table(entries: Seq<(String, String)>) -> Map<Seq<char>, Seq<char>>
    decreases entries.len(),
{
    if entries.len() == 0 {
        Map::empty()
    } else {
        table(entries.drop_last()).insert(entries.last().0@, entries.last().1@)
    }
}

/// Whether no two entries have the same key.
pub open spec fn distinct_keys(entries: Seq<(String, String)>) -> bool {
    forall|i: int, j: int|
        0 <= i < j < entries.len() ==> (#[trigger] entries[i]).0@ != (#[trigger] entries[j]).0@
}

/// The map from strings to strings that `serde_json::from_str` reads from a document, or `None`
/// where it refuses the document.
pub uninterp spec fn names_in(document: Seq<char>) -> Option<Map<Seq<char>, Seq<char>>>;

/// `serde_json::from_str` into a `HashMap<String, String>`: it reads the document as a JSON object
/// whose members are all strings, and refuses any other. Whether it succeeds, and the map, depend
/// on the document alone. The entries are handed out in no particular order, each key once.
#[verifier::external_body]
fn parse_names(document: &str) -> (entries: Result<Vec<(String, String)>, serde_json::Error>)
    ensures
        match entries {
            Ok(entries) => distinct_keys(entries@) && names_in(document@) == Some(table(entries@)),
            Err(_) => names_in(document@) is None,
        },
{
    match serde_json::from_str::<std::collections::HashMap<String, String>>(document) {
        Ok(names) => Ok(names.into_iter().collect()),
        Err(error) => Err(error),
    }
}

/// The name that a table of names has for an application.
pub open spec fn name_of(names: Map<Seq<char>, Seq<char>>, app_id: u32) -> Option<Seq<char>> {
    if names.contains_key(text::decimal(app_id as nat)) {
        Some(names[text::decimal(app_id as nat)])
    } else {
        None
    }
}

/// The value under `key` among entries with distinct keys.
pub fn find_entry(entries: &Vec<(String, String)>, key: &str) -> (value: Option<String>)
    requires
        distinct_keys(entries@),
    ensures
        match value {
            Some(value) => table(entries@).contains_key(key@) && value@ == table(entries@)[key@],
            None => !table(entries@).contains_key(key@),
        },
        value is None <==> forall|i: int|
            0 <= i < entries@.len() ==> (#[trigger] entries@[i]).0@ != key@,
        value matches Some(value) ==> exists|i: int|
            0 <= i < entries@.len() && (#[trigger] entries@[i]).0@ == key@ && entries@[i].1@
                == value@,
{
    let mut i: usize = 0;
    assert(entries@.take(0) =~= Seq::empty());
    while i < entries.len()
        invariant
            i <= entries@.len(),
            distinct_keys(entries@),
            !table(entries@.take(i as int)).contains_key(key@),
            forall|j: int| 0 <= j < i ==> (#[trigger] entries@[j]).0@ != key@,
        decreases entries@.len() - i,
    {
        if text::same_text(entries[i].0.as_str(), key) {
            proof {
                lemma_entry_in_table(entries@, i as int);
            }
            return Some(entries[i].1.clone());
        }
        assert(entries@.take(i + 1).drop_last() =~= entries@.take(i as int));
        i += 1;
    }
    assert(entries@.take(i as int) =~= entries@);
    None
}

/// Every entry is found in the table under its key.
proof fn lemma_entry_in_table(entries: Seq<(String, String)>, i: int)
    requires
        distinct_keys(entries),
        0 <= i < entries.len(),
    ensures
        table(entries).contains_key(entries[i].0@),
        table(entries)[entries[i].0@] == entries[i].1@,
    decreases entries.len(),
{
    if i < entries.len() - 1 {
        let front = entries.drop_last();
        assert(entries[i].0@ != entries[entries.len() - 1].0@);
        assert(distinct_keys(front)) by {
            assert forall|a: int, b: int| 0 <= a < b < front.len() implies (#[trigger] front[a]).0@
                != (#[trigger] front[b]).0@ by {
                assert(entries[a].0@ != entries[b].0@);
            }
        }
        lemma_entry_in_table(front, i);
    }
}

/// Looks an application up in a document of names: a JSON object with a name for each id, the ids
/// in decimal.
pub fn lookup_name_override(document: &str, app_id: u32) -> (name: Result<
    Option<String>,
    NamesError,
>)
    ensures
        match name {
            Ok(name) => names_in(document@) is Some && protocol::text_in(name) == name_of(
                names_in(document@)->0,
                app_id,
            ),
            Err(_) => names_in(document@) is None,
        },
        name is Ok <==> names_in(document@) is Some,
        name matches Ok(name) ==> {
            &&& name is Some <==> names_in(document@)->0.contains_key(text::decimal(app_id as nat))
            &&& name matches Some(name) ==> name@ == names_in(document@)->0[text::decimal(
                app_id as nat,
            )]
        },
{
    match parse_names(document) {
        Ok(entries) => Ok(find_entry(&entries, text::decimal_text(app_id as u64).as_str())),
        Err(error) => Err(NamesError::Malformed(error)),
    }
}

/// Entries with distinct keys are a table with just these keys, and under each key the value of its
/// entry, in full.
pub proof fn lemma_table_holds_entries(entries: Seq<(String, String)>, key: Seq<char>)
    requires
        forall|i: int, j: int|
            0 <= i < j < entries.len() ==> (#[trigger] entries[i]).0@ != (
            #[trigger] entries[j]).0@,
    ensures
        table(entries).contains_key(key) <==> exists|i: int|
            0 <= i < entries.len() && (#[trigger] entries[i]).0@ == key,
        forall|i: int|
            0 <= i < entries.len() && (#[trigger] entries[i]).0@ == key ==> table(entries)[key]
                == entries[i].1@,
    decreases entries.len(),
{
    if entries.len() > 0 {
        let front = entries.drop_last();
        let last = entries.len() - 1;
        assert forall|i: int, j: int| 0 <= i < j < front.len() implies (#[trigger] front[i]).0@ != (
        #[trigger] front[j]).0@ by {
            assert(entries[i].0@ != entries[j].0@);
        }
        lemma_table_holds_entries(front, key);
        assert(entries[last] == entries.last());
        if entries.last().0@ != key {
            if table(entries).contains_key(key) {
                let i = choose|i: int| 0 <= i < front.len() && (#[trigger] front[i]).0@ == key;
                assert(entries[i].0@ == key);
            }
            assert forall|i: int| 0 <= i < entries.len() && (
            #[trigger] entries[i]).0@ == key implies table(entries)[key] == entries[i].1@
                && table(entries).contains_key(key) by {
                assert(i < last);
                assert(front[i].0@ == key);
            }
        } else {
            assert forall|i: int| 0 <= i < entries.len() && (
            #[trigger] entries[i]).0@ == key implies table(entries)[key] == entries[i].1@ by {
                if i < last {
                    assert(entries[i].0@ != entries[last].0@);
                }
            }
        }
    }
}

/// The name that a table has for an application is the one under its id in decimal, in full.
pub proof fn lemma_name_is_under_id(names: Map<Seq<char>, Seq<char>>, app_id: u32)
    ensures
        name_of(names, app_id) is Some <==> names.contains_key(text::decimal(app_id as nat)),
        name_of(names, app_id) matches Some(name) ==> name == names[text::decimal(
            app_id as nat,
        )],
{
}

} // verus!
