//! JSON values, and the trees that they stand for.

use crate::text::same_text;
use vstd::prelude::*;

verus! {

/// `serde_json::Number`, the numbers of a parsed document.
#[verifier::external_type_specification]
#[verifier::external_body]
pub struct ExNumber(serde_json::Number);

/// `<serde_json::Number as Clone>::clone`: the clone is the number itself.
pub assume_specification[ <serde_json::Number as Clone>::clone ](
    number: &serde_json::Number,
) -> (r: serde_json::Number)
    ensures
        r == *number,
;

/// A JSON number that is no integer of 64 bits. Nothing is computed from it:
/// it is kept as it was read, to be written again. The field is private to this
/// crate, so that a fraction comes only out of a document that was read.
#[derive(Debug)]
pub struct Fraction {
    pub(crate) number: serde_json::Number,
}

impl Clone for Fraction {
    fn clone(&self) -> (r: Self)
        ensures
            r == *self,
    {
        Fraction { number: self.number.clone() }
    }
}

/// A JSON number.
#[derive(Debug)]
pub enum JsonNumber {
    Unsigned(u64),
    Signed(i64),
    Fraction(Fraction),
}

/// A JSON value.
#[derive(Debug)]
pub enum Json {
    Null,
    Bool(bool),
    Number(JsonNumber),
    Text(String),
    Array(Vec<Json>),
    Object(JsonObject),
}

/// A JSON object. Of several fields with one key the last one counts.
#[derive(Debug)]
pub struct JsonObject {
    pub fields: Vec<(String, Json)>,
}

/// What a JSON value says: an object is the map from its keys to their values,
/// whatever the order in which they were written.
pub enum JsonTree {
    Null,
    Bool(bool),
    Integer(int),
    Fraction(Fraction),
    Text(Seq<char>),
    Array(Seq<JsonTree>),
    Object(Map<Seq<char>, JsonTree>),
}

/// The tree of a value.
pub open spec fn tree(value: Json) -> JsonTree
    decreases value,
{
    match value {
        Json::Null => JsonTree::Null,
        Json::Bool(b) => JsonTree::Bool(b),
        Json::Number(JsonNumber::Unsigned(n)) => JsonTree::Integer(n as int),
        Json::Number(JsonNumber::Signed(n)) => JsonTree::Integer(n as int),
        Json::Number(JsonNumber::Fraction(f)) => JsonTree::Fraction(f),
        Json::Text(s) => JsonTree::Text(s@),
        Json::Array(items) => JsonTree::Array(item_trees(items@)),
        Json::Object(object) => JsonTree::Object(field_trees(object.fields@)),
    }
}

/// The trees of the items of an array.
pub open spec fn item_trees(items: Seq<Json>) -> Seq<JsonTree>
    decreases items,
{
    if items.len() == 0 {
        seq![]
    } else {
        item_trees(items.drop_last()).push(tree(items.last()))
    }
}

/// The trees of the fields of an object, by key.
pub open spec fn field_trees(fields: Seq<(String, Json)>) -> Map<Seq<char>, JsonTree>
    decreases fields,
{
    if fields.len() == 0 {
        map![]
    } else {
        field_trees(fields.drop_last()).insert(fields.last().0@, tree(fields.last().1))
    }
}

impl View for Json {
    type V = JsonTree;

    open spec fn view(&self) -> JsonTree {
        tree(*self)
    }
}

impl View for JsonObject {
    type V = Map<Seq<char>, JsonTree>;

    open spec fn view(&self) -> Map<Seq<char>, JsonTree> {
        field_trees(self.fields@)
    }
}

/// The value under `key`, if `value` is an object that has it.
pub open spec fn field(value: JsonTree, key: Seq<char>) -> Option<JsonTree> {
    match value {
        JsonTree::Object(fields) => if fields.contains_key(key) {
            Some(fields[key])
        } else {
            None
        },
        _ => None,
    }
}

/// The value under `key`, if there is a value and it is an object that has it.
pub open spec fn field_of(value: Option<JsonTree>, key: Seq<char>) -> Option<JsonTree> {
    match value {
        Some(inner) => field(inner, key),
        None => None,
    }
}

/// The text of a value, if there is a value and it is a text.
pub open spec fn text_of(value: Option<JsonTree>) -> Option<Seq<char>> {
    match value {
        Some(JsonTree::Text(s)) => Some(s),
        _ => None,
    }
}

/// The number of a value, if there is a value and it is an integer that fits.
pub open spec fn u64_of(value: Option<JsonTree>) -> Option<u64> {
    match value {
        Some(JsonTree::Integer(n)) => if 0 <= n <= u64::MAX {
            Some(n as u64)
        } else {
            None
        },
        _ => None,
    }
}

/// The tree of a value that may be missing.
pub open spec fn tree_of(value: Option<&Json>) -> Option<JsonTree> {
    match value {
        Some(inner) => Some(inner@),
        None => None,
    }
}

/// The tree of a value that may be missing.
pub open spec fn owned_tree_of(value: Option<Json>) -> Option<JsonTree> {
    match value {
        Some(inner) => Some(inner@),
        None => None,
    }
}

/// The characters of a string that may be missing.
pub open spec fn chars_of_option(value: Option<&str>) -> Option<Seq<char>> {
    match value {
        Some(s) => Some(s@),
        None => None,
    }
}

impl JsonObject {
    /// The object without fields.
    pub fn new() -> (r: Self)
        ensures
            r@ == Map::<Seq<char>, JsonTree>::empty(),
    {
        JsonObject { fields: Vec::new() }
    }

    /// Sets the field `key` to `value`.
    pub fn insert(&mut self, key: &str, value: Json)
        ensures
            final(self)@ == old(self)@.insert(key@, value@),
    {
        self.fields.push((key.to_owned(), value));
        assert(self.fields@.drop_last() =~= old(self).fields@);
    }

    /// The value of the field `key`.
    pub fn get(&self, key: &str) -> (r: Option<&Json>)
        ensures
            tree_of(r) == field(JsonTree::Object(self@), key@),
    {
        let mut n: usize = self.fields.len();
        assert(self.fields@.take(n as int) =~= self.fields@);
        while 0 < n
            invariant
                n <= self.fields.len(),
                field(JsonTree::Object(self@), key@) == field(
                    JsonTree::Object(field_trees(self.fields@.take(n as int))),
                    key@,
                ),
            decreases n,
        {
            let entry = &self.fields[n - 1];
            assert(self.fields@.take(n as int).drop_last() =~= self.fields@.take(n - 1));
            if same_text(entry.0.as_str(), key) {
                return Some(&entry.1);
            }
            n = n - 1;
        }
        None
    }
}

impl Json {
    /// The value of the field `key`, if this is an object.
    pub fn get(&self, key: &str) -> (r: Option<&Json>)
        ensures
            tree_of(r) == field(self@, key@),
    {
        match self {
            Json::Object(object) => object.get(key),
            _ => None,
        }
    }

    /// The text, if this is a text.
    pub fn as_str(&self) -> (r: Option<&str>)
        ensures
            chars_of_option(r) == text_of(Some(self@)),
    {
        match self {
            Json::Text(s) => Some(s.as_str()),
            _ => None,
        }
    }

    /// The number, if this is an integer between zero and `u64::MAX`.
    pub fn as_u64(&self) -> (r: Option<u64>)
        ensures
            r == u64_of(Some(self@)),
    {
        match self {
            Json::Number(JsonNumber::Unsigned(n)) => Some(*n),
            Json::Number(JsonNumber::Signed(n)) => if *n >= 0 {
                Some(*n as u64)
            } else {
                None
            },
            _ => None,
        }
    }
}

/// Adds `item` at the end of `items`.
pub fn push_item(items: &mut Vec<Json>, item: Json)
    ensures
        item_trees(final(items)@) == item_trees(old(items)@).push(item@),
{
    items.push(item);
    assert(items@.drop_last() =~= old(items)@);
}

fn copy(value: &Json) -> (r: Json)
    ensures
        r@ == value@,
    decreases *value,
{
    match value {
        Json::Null => Json::Null,
        Json::Bool(b) => Json::Bool(*b),
        Json::Number(JsonNumber::Unsigned(n)) => Json::Number(JsonNumber::Unsigned(*n)),
        Json::Number(JsonNumber::Signed(n)) => Json::Number(JsonNumber::Signed(*n)),
        Json::Number(JsonNumber::Fraction(f)) => Json::Number(JsonNumber::Fraction(f.clone())),
        Json::Text(s) => Json::Text(s.clone()),
        Json::Array(items) => {
            let mut out: Vec<Json> = Vec::new();
            for i in 0..items.len()
                invariant
                    *value == Json::Array(*items),
                    out@.len() == i,
                    item_trees(out@) == item_trees(items@.take(i as int)),
            {
                assert(decreases_to!(*value => value->Array_0));
                assert(decreases_to!(*items => items@[i as int]));
                let item = copy(&items[i]);
                let ghost before = out@;
                out.push(item);
                assert(out@.drop_last() =~= before);
                assert(items@.take(i + 1).drop_last() =~= items@.take(i as int));
            }
            assert(items@.take(items@.len() as int) =~= items@);
            Json::Array(out)
        },
        Json::Object(object) => {
            let fields = &object.fields;
            let mut out: Vec<(String, Json)> = Vec::new();
            for i in 0..fields.len()
                invariant
                    *value == Json::Object(*object),
                    *fields == object.fields,
                    out@.len() == i,
                    field_trees(out@) == field_trees(fields@.take(i as int)),
            {
                assert(decreases_to!(*value => value->Object_0.fields));
                assert(decreases_to!(*fields => fields@[i as int].1));
                let item = copy(&fields[i].1);
                let ghost before = out@;
                out.push((fields[i].0.clone(), item));
                assert(out@.drop_last() =~= before);
                assert(fields@.take(i + 1).drop_last() =~= fields@.take(i as int));
            }
            assert(fields@.take(fields@.len() as int) =~= fields@);
            Json::Object(JsonObject { fields: out })
        },
    }
}

impl Clone for Json {
    fn clone(&self) -> (r: Self)
        ensures
            r@ == self@,
    {
        copy(self)
    }
}

/// A field that was set is found under its key, the last value that it was set
/// to; setting it changes no other field; and nothing but an object has fields.
pub proof fn law_fields(
    fields: Map<Seq<char>, JsonTree>,
    key: Seq<char>,
    other: Seq<char>,
    value: JsonTree,
)
    ensures
        field(JsonTree::Object(fields.insert(key, value)), key) == Some(value),
        other != key ==> field(JsonTree::Object(fields.insert(key, value)), other) == field(
            JsonTree::Object(fields),
            other,
        ),
        field(JsonTree::Object(fields.remove(key)), key) is None,
        !(value is Object) ==> field(value, key) is None,
        field_of(Some(value), key) == field(value, key),
        field_of(None, key) is None,
{
}

/// A text is the text of itself, unchanged, and nothing else has a text.
pub proof fn law_text_of(value: JsonTree, s: Seq<char>)
    ensures
        text_of(Some(value)) == Some(s) <==> value == JsonTree::Text(s),
        text_of(None) is None,
{
}

/// An integer is the number of itself if it fits in 64 bits, and nothing else
/// has a number.
pub proof fn law_u64_of(value: JsonTree, n: u64)
    ensures
        u64_of(Some(value)) == Some(n) <==> value == JsonTree::Integer(n as int),
        u64_of(None) is None,
{
}

/// The trees of the items of an array are those of each item, in order, and the
/// tree of a scalar is what it holds.
pub proof fn law_item_trees(items: Seq<Json>, s: String, n: u64, m: i64, b: bool)
    ensures
        item_trees(items).len() == items.len(),
        forall|i: int| 0 <= i < items.len() ==> #[trigger] item_trees(items)[i] == tree(items[i]),
        tree(Json::Null) == JsonTree::Null,
        tree(Json::Bool(b)) == JsonTree::Bool(b),
        tree(Json::Text(s)) == JsonTree::Text(s@),
        tree(Json::Number(JsonNumber::Unsigned(n))) == JsonTree::Integer(n as int),
        tree(Json::Number(JsonNumber::Signed(m))) == JsonTree::Integer(m as int),
    decreases items.len(),
{
    if items.len() > 0 {
        let before = items.drop_last();
        law_item_trees(before, s, n, m, b);
        assert forall|i: int| 0 <= i < items.len() implies #[trigger] item_trees(items)[i] == tree(
            items[i],
        ) by {
            if i < before.len() {
                assert(item_trees(before)[i] == tree(before[i]));
            }
        }
    }
}

/// The tree of an object has, under each key that it was given, the last value
/// that was given for the key.
pub proof fn law_last_field_counts(fields: Seq<(String, Json)>, i: int)
    requires
        0 <= i < fields.len(),
        forall|j: int| i < j < fields.len() ==> (#[trigger] fields[j]).0@ != fields[i].0@,
    ensures
        field_trees(fields).contains_key(fields[i].0@),
        field_trees(fields)[fields[i].0@] == tree(fields[i].1),
    decreases fields.len(),
{
    if i < fields.len() - 1 {
        let before = fields.drop_last();
        assert(fields[fields.len() - 1].0@ != fields[i].0@);
        assert forall|j: int| i < j < before.len() implies (#[trigger] before[j]).0@
            != before[i].0@ by {
            assert(fields[j].0@ != fields[i].0@);
        }
        law_last_field_counts(before, i);
    }
}

/// The tree of an object has no field under a key that it was not given.
pub proof fn law_no_other_field(fields: Seq<(String, Json)>, key: Seq<char>)
    requires
        forall|j: int| 0 <= j < fields.len() ==> (#[trigger] fields[j]).0@ != key,
    ensures
        !field_trees(fields).contains_key(key),
    decreases fields.len(),
{
    if fields.len() > 0 {
        let before = fields.drop_last();
        assert(fields[fields.len() - 1].0@ != key);
        assert forall|j: int| 0 <= j < before.len() implies (#[trigger] before[j]).0@ != key by {
            assert(fields[j].0@ != key);
        }
        law_no_other_field(before, key);
    }
}

/// A value, missing or not, stands for the tree of the value, and a string for its
/// characters; an array for the trees of its items, an object for those of its
/// fields, and a fraction for itself.
pub proof fn law_trees(value: Json, s: &str, items: Vec<Json>, object: JsonObject, f: Fraction)
    ensures
        value@ == tree(value),
        tree_of(Some(&value)) == Some(tree(value)),
        tree_of(None) is None,
        owned_tree_of(Some(value)) == Some(tree(value)),
        owned_tree_of(None) is None,
        chars_of_option(Some(s)) == Some(s@),
        chars_of_option(None) is None,
        tree(Json::Array(items)) == JsonTree::Array(item_trees(items@)),
        tree(Json::Object(object)) == JsonTree::Object(field_trees(object.fields@)),
        object@ == field_trees(object.fields@),
        tree(Json::Number(JsonNumber::Fraction(f))) == JsonTree::Fraction(f),
{
}

} // verus!
