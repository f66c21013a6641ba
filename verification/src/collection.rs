//! The ordered collection of launch entries that one configuration file
//! holds, and the two ways of merging a new entry into it.
//!
//! An entry is identified by the text of one of its members, the key field:
//! which member that is depends on the editor.
use crate::json::{json_as_str, json_index, member, models, text_of, value_model, JsonModel};
use crate::language::same_text;
use serde_json::Value;
use vstd::prelude::*;

verus! {

/// The identifying key of an entry: the text of its key field, if it has one
/// and that is a string.
pub open spec fn key_of(entry: JsonModel, field: Seq<char>) -> Option<Seq<char>> {
    text_of(member(entry, field))
}

/// Whether some entry of the collection has the given key.
pub open spec fn has_key(entries: Seq<JsonModel>, field: Seq<char>, key: Seq<char>) -> bool {
    exists|i: int| 0 <= i < entries.len() && #[trigger] key_of(entries[i], field) == Some(key)
}

/// Whether `i` is the place of the first entry with the given key.
pub open spec fn is_position(
    entries: Seq<JsonModel>,
    field: Seq<char>,
    key: Seq<char>,
    i: int,
) -> bool {
    &&& 0 <= i < entries.len()
    &&& key_of(entries[i], field) == Some(key)
    &&& forall|j: int| 0 <= j < i ==> #[trigger] key_of(entries[j], field) != Some(key)
}

/// The place of the first entry with the given key, if there is one.
pub open spec fn position(entries: Seq<JsonModel>, field: Seq<char>, key: Seq<char>) -> Option<
    int,
> {
    if exists|i: int| is_position(entries, field, key, i) {
        Some(choose|i: int| is_position(entries, field, key, i))
    } else {
        None
    }
}

/// The collection after `add`: the entry appended, or nothing where its key is
/// taken.
pub open spec fn added(entries: Seq<JsonModel>, field: Seq<char>, entry: JsonModel) -> Option<
    Seq<JsonModel>,
> {
    if has_key(entries, field, entry_key(entry, field)) {
        None
    } else {
        Some(entries.push(entry))
    }
}

/// The collection after `replace`: the entry in the place of the first one
/// with its key, or appended where there is none.
pub open spec fn replaced(entries: Seq<JsonModel>, field: Seq<char>, entry: JsonModel) -> Seq<
    JsonModel,
> {
    match position(entries, field, entry_key(entry, field)) {
        Some(i) => entries.update(i, entry),
        None => entries.push(entry),
    }
}

/// The key under which a new entry is looked up: its key field's text, and
/// the empty text where it has none.
pub open spec fn entry_key(entry: JsonModel, field: Seq<char>) -> Seq<char> {
    match key_of(entry, field) {
        Some(key) => key,
        None => Seq::empty(),
    }
}

/// The first place with a key is the only one that `position` can name.
pub proof fn lemma_position_unique(
    entries: Seq<JsonModel>,
    field: Seq<char>,
    key: Seq<char>,
    i: int,
)
    requires
        is_position(entries, field, key, i),
    ensures
        position(entries, field, key) == Some(i),
{
    let j = choose|j: int| is_position(entries, field, key, j);
    if j < i {
        assert(key_of(entries[j], field) != Some(key));
    } else if i < j {
        assert(key_of(entries[i], field) != Some(key));
    }
}

/// Below any place that holds a key there is a first one.
proof fn lemma_first_exists(entries: Seq<JsonModel>, field: Seq<char>, key: Seq<char>, i: int)
    requires
        0 <= i < entries.len(),
        key_of(entries[i], field) == Some(key),
    ensures
        exists|j: int| is_position(entries, field, key, j),
    decreases i,
{
    if exists|j: int| 0 <= j < i && #[trigger] key_of(entries[j], field) == Some(key) {
        let j = choose|j: int| 0 <= j < i && #[trigger] key_of(entries[j], field) == Some(key);
        lemma_first_exists(entries, field, key, j);
    } else {
        assert(is_position(entries, field, key, i));
    }
}

/// A key is present exactly when it has a first place, and `position` names
/// that place.
pub proof fn lemma_position_iff_has_key(entries: Seq<JsonModel>, field: Seq<char>, key: Seq<char>)
    ensures
        position(entries, field, key) is Some <==> has_key(entries, field, key),
        position(entries, field, key) matches Some(i) ==> is_position(entries, field, key, i),
{
    if has_key(entries, field, key) {
        let i = choose|i: int|
            0 <= i < entries.len() && #[trigger] key_of(entries[i], field) == Some(key);
        lemma_first_exists(entries, field, key, i);
    }
    if position(entries, field, key) is Some {
        let i = choose|i: int| is_position(entries, field, key, i);
        assert(key_of(entries[i], field) == Some(key));
    }
}

/// After an entry has been added, or refused, a second `add` of an entry with
/// the same key is refused: the collection stays as the first call left it.
pub proof fn law_second_add_fails(
    entries: Seq<JsonModel>,
    field: Seq<char>,
    first: JsonModel,
    second: JsonModel,
)
    requires
        key_of(first, field) is Some,
        key_of(second, field) == key_of(first, field),
    ensures
        added(after_add(entries, field, first), field, second) is None,
{
    let key = entry_key(first, field);
    match added(entries, field, first) {
        Some(next) => {
            assert(key_of(next[entries.len() as int], field) == Some(key));
        },
        None => {},
    }
}

/// The collection that `add` leaves behind: with the entry where it was
/// accepted, unchanged where it was refused.
pub open spec fn after_add(entries: Seq<JsonModel>, field: Seq<char>, entry: JsonModel) -> Seq<
    JsonModel,
> {
    match added(entries, field, entry) {
        Some(next) => next,
        None => entries,
    }
}

/// `replace` with a key that the collection does not have does what `add`
/// does: it appends the entry.
pub proof fn law_replace_new_key_appends(
    entries: Seq<JsonModel>,
    field: Seq<char>,
    entry: JsonModel,
)
    requires
        !has_key(entries, field, entry_key(entry, field)),
    ensures
        replaced(entries, field, entry) == entries.push(entry),
        added(entries, field, entry) == Some(replaced(entries, field, entry)),
{
    lemma_position_iff_has_key(entries, field, entry_key(entry, field));
}

/// `replace` with a key that the collection has puts the entry in the place
/// of the first entry with that key: the collection keeps its length, and
/// every other place keeps its entry.
pub proof fn law_replace_existing_keeps_place(
    entries: Seq<JsonModel>,
    field: Seq<char>,
    entry: JsonModel,
)
    requires
        has_key(entries, field, entry_key(entry, field)),
    ensures
        added(entries, field, entry) is None,
        position(entries, field, entry_key(entry, field)) matches Some(i) && {
            &&& is_position(entries, field, entry_key(entry, field), i)
            &&& replaced(entries, field, entry).len() == entries.len()
            &&& replaced(entries, field, entry)[i] == entry
            &&& forall|j: int|
                0 <= j < entries.len() && j != i ==> #[trigger] replaced(entries, field, entry)[j]
                    == entries[j]
        },
{
    lemma_position_iff_has_key(entries, field, entry_key(entry, field));
}

/// The key under which an entry is looked up, as a text.
pub fn key_text(entry: &Value, field: &str) -> (key: String)
    ensures
        key@ == entry_key(value_model(*entry), field@),
{
    match json_as_str(json_index(entry, field)) {
        Some(text) => text.to_owned(),
        None => String::new(),
    }
}

/// Looks for the first entry with the given key.
pub fn find(entries: &Vec<Value>, field: &str, key: &str) -> (place: Option<usize>)
    ensures
        match place {
            Some(i) => position(models(entries@), field@, key@) == Some(i as int),
            None => position(models(entries@), field@, key@) is None,
        },
{
    let mut i: usize = 0;
    while i < entries.len()
        invariant
            i <= entries.len(),
            forall|j: int|
                0 <= j < i ==> #[trigger] key_of(models(entries@)[j], field@) != Some(key@),
        decreases entries.len() - i,
    {
        let hit: bool = match json_as_str(json_index(&entries[i], field)) {
            Some(text) => same_text(text, key),
            None => false,
        };
        if hit {
            proof {
                lemma_position_unique(models(entries@), field@, key@, i as int);
            }
            return Some(i);
        }
        i += 1;
    }
    proof {
        lemma_position_iff_has_key(models(entries@), field@, key@);
    }
    None
}

/// Appends an entry unless its key is taken. Where it is, the collection stays
/// as it was and the key comes back.
pub fn append_unique(entries: &mut Vec<Value>, field: &str, entry: Value) -> (r: Result<
    (),
    String,
>)
    ensures
        match added(models(old(entries)@), field@, value_model(entry)) {
            Some(next) => r is Ok && models(final(entries)@) == next,
            None => {
                &&& r matches Err(key)
                &&& key@ == entry_key(value_model(entry), field@)
                &&& final(entries)@ == old(entries)@
            },
        },
{
    let key = key_text(&entry, field);
    proof {
        lemma_position_iff_has_key(models(entries@), field@, key@);
    }
    match find(entries, field, key.as_str()) {
        Some(_) => Err(key),
        None => {
            entries.push(entry);
            assert(models(entries@) =~= models(old(entries)@).push(value_model(entry)));
            Ok(())
        },
    }
}

/// Puts an entry in the place of the first one with its key, or appends it
/// where there is none.
pub fn put(entries: &mut Vec<Value>, field: &str, entry: Value)
    ensures
        models(final(entries)@) == replaced(models(old(entries)@), field@, value_model(entry)),
{
    let key = key_text(&entry, field);
    proof {
        lemma_position_iff_has_key(models(entries@), field@, key@);
    }
    match find(entries, field, key.as_str()) {
        Some(i) => {
            entries.set(i, entry);
            assert(models(entries@) =~= models(old(entries)@).update(
                i as int,
                value_model(entry),
            ));
        },
        None => {
            entries.push(entry);
            assert(models(entries@) =~= models(old(entries)@).push(value_model(entry)));
        },
    }
}

} // verus!
