//! JSON documents.
//!
//! The client exchanges JSON with the service. Documents are held as
//! `serde_json::Value`, a nested collection that the verifier cannot look
//! into; what one holds is described by [`Json`], and every contract about
//! documents is stated over it. The functions of `serde_json` that this crate
//! calls are given their meaning over that description here and are believed,
//! not proved.

use vstd::prelude::*;

verus! {

/// What a JSON document holds.
pub enum Json {
    Null,
    Bool(bool),
    /// A number, by the text that stands for it in a document.
    Number(Seq<char>),
    Text(Seq<char>),
    Array(Seq<Json>),
    Object(Map<Seq<char>, Json>),
}

/// `serde_json::Value`, an owned JSON document.
#[verifier::external_type_specification]
#[verifier::external_body]
pub struct ExValue(serde_json::Value);

/// `serde_json::Error`, the reason why a text is not a JSON document.
#[verifier::external_type_specification]
#[verifier::external_body]
pub struct ExJsonError(serde_json::Error);

/// What the document `v` holds. A `serde_json::Value` is a nested collection;
/// this names its contents, and the contracts below say what each function of
/// `serde_json` does to them.
pub uninterp spec fn value_json(v: serde_json::Value) -> Json;

/// The document that `serde_json::from_slice` reads from `text`, or `None`
/// where it reports an error.
pub uninterp spec fn json_parse(text: Seq<u8>) -> Option<Json>;

/// The JSON text that `serde_json::to_vec` writes for a value that holds
/// `doc`, or `None` where it reports an error.
pub uninterp spec fn json_write(doc: Json) -> Option<Seq<u8>>;

/// What each document of `items` holds, in order.
pub open spec fn values_json(items: Seq<serde_json::Value>) -> Seq<Json> {
    items.map_values(|v: serde_json::Value| value_json(v))
}

/// The members that `entries` name: each key with what its document holds.
/// Where a key occurs twice the later entry stands.
pub open spec fn members_of(entries: Seq<(String, serde_json::Value)>) -> Map<Seq<char>, Json>
    decreases entries.len(),
{
    if entries.len() == 0 {
        Map::empty()
    } else {
        members_of(entries.drop_last()).insert(entries.last().0@, value_json(entries.last().1))
    }
}

/// No two entries of `entries` have the same key.
pub open spec fn distinct_keys(entries: Seq<(String, serde_json::Value)>) -> bool {
    forall|i: int, j: int|
        0 <= i < j < entries.len() ==> (#[trigger] entries[i]).0@ != (#[trigger] entries[j]).0@
}

/// The member of the object `doc` under `key`; `None` where `doc` is no
/// object or has no such member.
pub open spec fn member_of(doc: Json, key: Seq<char>) -> Option<Json> {
    match doc {
        Json::Object(members) => if members.contains_key(key) {
            Some(members[key])
        } else {
            None
        },
        _ => None,
    }
}

/// The text of the string member of `doc` under `key`.
pub open spec fn text_of(doc: Json, key: Seq<char>) -> Option<Seq<char>> {
    match member_of(doc, key) {
        Some(Json::Text(s)) => Some(s),
        _ => None,
    }
}

/// The value of the boolean member of `doc` under `key`.
pub open spec fn bool_of(doc: Json, key: Seq<char>) -> Option<bool> {
    match member_of(doc, key) {
        Some(Json::Bool(b)) => Some(b),
        _ => None,
    }
}

/// The elements of the array member of `doc` under `key`.
pub open spec fn array_of(doc: Json, key: Seq<char>) -> Option<Seq<Json>> {
    match member_of(doc, key) {
        Some(Json::Array(items)) => Some(items),
        _ => None,
    }
}

/// `serde_json::from_slice::<Value>`: reads `text` as one JSON document.
/// Believed: the call succeeds exactly where [`json_parse`] names a document,
/// and the value returned holds that document.
#[verifier::external_body]
pub(crate) fn parse_json(text: &[u8]) -> (r: Result<serde_json::Value, serde_json::Error>)
    ensures
        match r {
            Ok(v) => json_parse(text@) == Some(value_json(v)),
            Err(_) => json_parse(text@) is None,
        },
{
    serde_json::from_slice::<serde_json::Value>(text)
}

/// `serde_json::to_vec` on a `serde_json::Value`: writes `v` as JSON text.
/// Believed: the call succeeds exactly where [`json_write`] names a text for
/// what `v` holds, and the bytes returned are that text.
#[verifier::external_body]
pub(crate) fn write_json(v: &serde_json::Value) -> (r: Result<Vec<u8>, serde_json::Error>)
    ensures
        match r {
            Ok(text) => json_write(value_json(*v)) == Some(text@),
            Err(_) => json_write(value_json(*v)) is None,
        },
{
    serde_json::to_vec(v)
}

/// `serde_json::Value::get` with a string index: the member of an object
/// under `key`. Believed: `Some` exactly where `v` is an object that has the
/// member, and then the member itself; `None` for every other document.
#[verifier::external_body]
pub(crate) fn member<'a>(v: &'a serde_json::Value, key: &str) -> (r: Option<&'a serde_json::Value>)
    ensures
        match r {
            Some(m) => member_of(value_json(*v), key@) == Some(value_json(*m)),
            None => member_of(value_json(*v), key@) is None,
        },
{
    v.get(key)
}

/// `serde_json::Value::as_str`. Believed: `Some` exactly for a JSON string,
/// with its text.
pub assume_specification[ serde_json::Value::as_str ](v: &serde_json::Value) -> (r: Option<&str>)
    ensures
        match r {
            Some(s) => value_json(*v) == Json::Text(s@),
            None => !(value_json(*v) is Text),
        },
;

/// `serde_json::Value::as_bool`. Believed: `Some` exactly for a JSON boolean,
/// with its value.
pub assume_specification[ serde_json::Value::as_bool ](v: &serde_json::Value) -> (r: Option<bool>)
    ensures
        match r {
            Some(b) => value_json(*v) == Json::Bool(b),
            None => !(value_json(*v) is Bool),
        },
;

/// `serde_json::Value::as_array`. Believed: `Some` exactly for a JSON array,
/// with its elements in order.
pub assume_specification[ serde_json::Value::as_array ](v: &serde_json::Value) -> (r: Option<
    &Vec<serde_json::Value>,
>)
    ensures
        match r {
            Some(items) => value_json(*v) == Json::Array(values_json(items@)),
            None => !(value_json(*v) is Array),
        },
;

/// `serde_json::Value::is_object`. Believed: true exactly for a JSON object.
pub assume_specification[ serde_json::Value::is_object ](v: &serde_json::Value) -> (r: bool)
    ensures
        r == (value_json(*v) is Object),
;

/// `Clone` for `serde_json::Value`. Believed: the copy holds what `v`
/// holds.
pub assume_specification[ <serde_json::Value as Clone>::clone ](v: &serde_json::Value) -> (r:
    serde_json::Value)
    ensures
        value_json(r) == value_json(*v),
;

/// `serde_json::Value::String`, the variant that holds a string. Believed:
/// the value made is the JSON string with the text of `s`.
#[verifier::external_body]
pub(crate) fn json_text(s: String) -> (r: serde_json::Value)
    ensures
        value_json(r) == Json::Text(s@),
{
    serde_json::Value::String(s)
}

/// `serde_json::Value::Array`, the variant that holds a vector of values.
/// Believed: the value made is the JSON array of `items`, in their order.
#[verifier::external_body]
pub(crate) fn json_array(items: Vec<serde_json::Value>) -> (r: serde_json::Value)
    ensures
        value_json(r) == Json::Array(values_json(items@)),
{
    serde_json::Value::Array(items)
}

/// `serde_json::Value::Object`, the variant that holds a `serde_json::Map`,
/// over the map that `FromIterator` collects from `entries`. Believed: with
/// no key given twice, the value made is the JSON object with exactly the
/// members given.
#[verifier::external_body]
pub(crate) fn json_object(entries: Vec<(String, serde_json::Value)>) -> (r: serde_json::Value)
    requires
        distinct_keys(entries@),
    ensures
        value_json(r) == Json::Object(members_of(entries@)),
{
    serde_json::Value::Object(entries.into_iter().collect())
}

/// The string member of `doc` under `key`, copied out.
pub fn text_member(doc: &serde_json::Value, key: &str) -> (r: Option<String>)
    ensures
        match r {
            Some(s) => text_of(value_json(*doc), key@) == Some(s@),
            None => text_of(value_json(*doc), key@) is None,
        },
{
    match member(doc, key) {
        Some(m) => match m.as_str() {
            Some(s) => Some(s.to_owned()),
            None => None,
        },
        None => None,
    }
}

/// The boolean member of `doc` under `key`.
pub fn bool_member(doc: &serde_json::Value, key: &str) -> (r: Option<bool>)
    ensures
        r == bool_of(value_json(*doc), key@),
{
    match member(doc, key) {
        Some(m) => m.as_bool(),
        None => None,
    }
}

/// The array member of `doc` under `key`.
pub fn array_member<'a>(doc: &'a serde_json::Value, key: &str) -> (r: Option<
    &'a Vec<serde_json::Value>,
>)
    ensures
        match r {
            Some(items) => array_of(value_json(*doc), key@) == Some(values_json(items@)),
            None => array_of(value_json(*doc), key@) is None,
        },
{
    match member(doc, key) {
        Some(m) => m.as_array(),
        None => None,
    }
}

/// A key is among the members of `entries` exactly when an entry has it.
proof fn lemma_members_keys(entries: Seq<(String, serde_json::Value)>, key: Seq<char>)
    ensures
        members_of(entries).contains_key(key) <==> exists|i: int|
            0 <= i < entries.len() && (#[trigger] entries[i]).0@ == key,
    decreases entries.len(),
{
    if entries.len() > 0 {
        let init = entries.drop_last();
        lemma_members_keys(init, key);
        if members_of(entries).contains_key(key) {
            if entries.last().0@ == key {
                assert(entries[entries.len() - 1].0@ == key);
            } else {
                let i = choose|i: int| 0 <= i < init.len() && (#[trigger] init[i]).0@ == key;
                assert(entries[i].0@ == key);
            }
        }
        if exists|i: int| 0 <= i < entries.len() && (#[trigger] entries[i]).0@ == key {
            let i = choose|i: int| 0 <= i < entries.len() && (#[trigger] entries[i]).0@ == key;
            if i < init.len() {
                assert(init[i].0@ == key);
            }
        }
    }
}

/// A JSON object under construction: members are added one by one, each
/// under a key that is not yet taken.
pub(crate) struct ObjectBuilder {
    entries: Vec<(String, serde_json::Value)>,
}

impl ObjectBuilder {
    #[verifier::type_invariant]
    spec fn keys_are_distinct(&self) -> bool {
        distinct_keys(self.entries@)
    }

    /// The members added so far.
    pub closed spec fn members(&self) -> Map<Seq<char>, Json> {
        members_of(self.entries@)
    }

    /// An object without members.
    pub fn new() -> (r: ObjectBuilder)
        ensures
            r.members() == Map::<Seq<char>, Json>::empty(),
    {
        ObjectBuilder { entries: Vec::new() }
    }

    /// Adds the member `value` under `key`.
    pub fn with(self, key: &str, value: serde_json::Value) -> (r: ObjectBuilder)
        requires
            !self.members().contains_key(key@),
        ensures
            r.members() == self.members().insert(key@, value_json(value)),
    {
        proof {
            use_type_invariant(&self);
            lemma_members_keys(self.entries@, key@);
        }
        let ghost before = self.entries@;
        let mut entries = self.entries;
        entries.push((key.to_owned(), value));
        proof {
            assert(entries@.drop_last() == before);
            assert forall|i: int, j: int| 0 <= i < j < entries.len() implies (
            #[trigger] entries[i]).0@ != (#[trigger] entries[j]).0@ by {
                if j < before.len() {
                    assert(before[i].0@ != before[j].0@);
                } else {
                    assert(before[i].0@ != key@);
                }
            }
        }
        ObjectBuilder { entries }
    }

    /// The finished object.
    pub fn build(self) -> (r: serde_json::Value)
        ensures
            value_json(r) == Json::Object(self.members()),
    {
        proof {
            use_type_invariant(&self);
        }
        json_object(self.entries)
    }
}

} // verus!
