//! JSON values as text: reading a document, and writing one as a line.

use crate::json::{
    field_trees, item_trees, push_item, Fraction, Json, JsonNumber, JsonObject, JsonTree,
};
use serde_json::{Number, Value};
use vstd::prelude::*;
use vstd::string::*;

verus! {

/// `serde_json::Value`, the collection that a parsed document is held in.
#[verifier::external_type_specification]
#[verifier::external_body]
pub struct ExValue(serde_json::Value);

/// What a `serde_json::Value` holds, as a tree.
pub uninterp spec fn value_tree(value: serde_json::Value) -> JsonTree;

/// What `serde_json::from_str` makes of a text: the tree of the document, or
/// the description of the error.
pub uninterp spec fn decoded(text: Seq<char>) -> Result<JsonTree, Seq<char>>;

/// The text that `serde_json::to_string` writes for a tree.
pub uninterp spec fn encoded(value: JsonTree) -> Seq<char>;

/// How deep arrays and objects may nest in a document that is read.
pub const MAX_DEPTH: u8 = 127;

/// Tells whether a tree has integers alone for its numbers, and arrays and
/// objects that nest no deeper than `depth`.
pub open spec fn nests_within(value: JsonTree, depth: nat) -> bool
    decreases depth,
{
    match value {
        JsonTree::Fraction(_) => false,
        JsonTree::Array(items) => depth > 0 && forall|i: int|
            0 <= i < items.len() ==> nests_within(#[trigger] items[i], (depth - 1) as nat),
        JsonTree::Object(fields) => depth > 0 && forall|key: Seq<char>| #[trigger]
            fields.contains_key(key) ==> nests_within(fields[key], (depth - 1) as nat),
        _ => true,
    }
}

/// Tells whether a text is read, and as which tree.
pub open spec fn reads_as(text: Seq<char>, value: JsonTree) -> bool {
    decoded(text) == Ok::<JsonTree, Seq<char>>(value)
}

/// Tells whether a tree comes back when what was written for it is read.
pub open spec fn is_readable(value: JsonTree) -> bool {
    nests_within(value, MAX_DEPTH as nat)
}

/// One level of a document: a `serde_json::Value` whose items and fields, if it
/// has any, are values again.
pub enum Layer {
    Null,
    Bool(bool),
    Number(JsonNumber),
    Text(String),
    Array(Vec<Value>),
    Object(Vec<(String, Value)>),
}

/// What each of `items` holds.
pub open spec fn value_trees(items: Seq<Value>) -> Seq<JsonTree> {
    items.map_values(|item: Value| value_tree(item))
}

/// What each of `fields` holds, by key. Of several fields with one key the last
/// one counts.
pub open spec fn entry_trees(fields: Seq<(String, Value)>) -> Map<Seq<char>, JsonTree>
    decreases fields.len(),
{
    if fields.len() == 0 {
        map![]
    } else {
        entry_trees(fields.drop_last()).insert(fields.last().0@, value_tree(fields.last().1))
    }
}

/// What a layer holds.
pub open spec fn layer_tree(layer: Layer) -> JsonTree {
    match layer {
        Layer::Null => JsonTree::Null,
        Layer::Bool(b) => JsonTree::Bool(b),
        Layer::Number(JsonNumber::Unsigned(n)) => JsonTree::Integer(n as int),
        Layer::Number(JsonNumber::Signed(n)) => JsonTree::Integer(n as int),
        Layer::Number(JsonNumber::Fraction(f)) => JsonTree::Fraction(f),
        Layer::Text(s) => JsonTree::Text(s@),
        Layer::Array(items) => JsonTree::Array(value_trees(items@)),
        Layer::Object(fields) => JsonTree::Object(entry_trees(fields@)),
    }
}

/// Tells whether no key occurs twice.
pub open spec fn distinct_keys(fields: Seq<(String, Value)>) -> bool {
    forall|i: int, j: int|
        0 <= i < j < fields.len() ==> #[trigger] fields[i].0@ != #[trigger] fields[j].0@
}

/// Takes a `serde_json::Value` apart, variant by variant. The claim is that the
/// layer holds what the value held, and that the keys of a `serde_json::Map`
/// are distinct. The integers are told from the other numbers by
/// `serde_json::Number::as_u64` and `as_i64`.
#[verifier::external_body]
fn open_value(value: Value) -> (r: Layer)
    ensures
        layer_tree(r) == value_tree(value),
        r matches Layer::Object(fields) ==> distinct_keys(fields@),
{
    match value {
        Value::Null => Layer::Null,
        Value::Bool(b) => Layer::Bool(b),
        Value::Number(number) => Layer::Number(match (number.as_u64(), number.as_i64()) {
            (Some(n), _) => JsonNumber::Unsigned(n),
            (None, Some(n)) => JsonNumber::Signed(n),
            (None, None) => JsonNumber::Fraction(Fraction { number }),
        }),
        Value::String(s) => Layer::Text(s),
        Value::Array(items) => Layer::Array(items),
        Value::Object(fields) => Layer::Object(fields.into_iter().collect()),
    }
}

/// Puts a `serde_json::Value` together, variant by variant. The claim is that
/// the value holds what the layer held: `serde_json::Number::from` keeps an
/// integer, and `serde_json::Map` keeps of several entries with one key the
/// last. A number that is no integer goes in as it is. That it is none is due to
/// `open_value`: nothing else builds a `Fraction`, whose field is private to this
/// crate, and it does so only where `as_u64` and `as_i64` both give nothing.
#[verifier::external_body]
fn close_value(layer: Layer) -> (r: Value)
    ensures
        value_tree(r) == layer_tree(layer),
{
    match layer {
        Layer::Null => Value::Null,
        Layer::Bool(b) => Value::Bool(b),
        Layer::Number(JsonNumber::Unsigned(n)) => Value::Number(Number::from(n)),
        Layer::Number(JsonNumber::Signed(n)) => Value::Number(Number::from(n)),
        Layer::Number(JsonNumber::Fraction(f)) => Value::Number(f.number),
        Layer::Text(s) => Value::String(s),
        Layer::Array(items) => Value::Array(items),
        Layer::Object(fields) => Value::Object(fields.into_iter().collect()),
    }
}

proof fn lemma_entries_finite(fields: Seq<(String, Value)>)
    ensures
        entry_trees(fields).dom().finite(),
    decreases fields.len(),
{
    if fields.len() > 0 {
        lemma_entries_finite(fields.drop_last());
    }
}

proof fn lemma_entry(fields: Seq<(String, Value)>, i: int)
    requires
        distinct_keys(fields),
        0 <= i < fields.len(),
    ensures
        entry_trees(fields).dom().finite(),
        entry_trees(fields).contains_key(fields[i].0@),
        entry_trees(fields)[fields[i].0@] == value_tree(fields[i].1),
    decreases fields.len(),
{
    lemma_entries_finite(fields);
    if i < fields.len() - 1 {
        assert(distinct_keys(fields.drop_last())) by {
            assert forall|a: int, b: int| 0 <= a < b < fields.len() - 1 implies #[trigger]
                fields.drop_last()[a].0@ != #[trigger] fields.drop_last()[b].0@ by {
                assert(fields[a].0@ != fields[b].0@);
            }
        }
        lemma_entry(fields.drop_last(), i);
        assert(fields[i].0@ != fields[fields.len() - 1].0@);
    }
}

/// Reads a `serde_json::Value`.
fn read_value(value: Value) -> (r: Json)
    ensures
        r@ == value_tree(value),
    decreases value_tree(value),
{
    let ghost whole = value_tree(value);
    match open_value(value) {
        Layer::Null => Json::Null,
        Layer::Bool(b) => Json::Bool(b),
        Layer::Number(number) => Json::Number(number),
        Layer::Text(s) => Json::Text(s),
        Layer::Array(items) => {
            let ghost all = items@;
            let mut out: Vec<Json> = Vec::new();
            for item in it: items
                invariant
                    it.seq() == all,
                    whole == value_tree(value),
                    whole == JsonTree::Array(value_trees(all)),
                    item_trees(out@) == value_trees(all).take(it.index()),
            {
                proof {
                    let i = it.index();
                    assert(decreases_to!(whole => whole->Array_0));
                    assert(decreases_to!(value_trees(all) => value_trees(all)[i]));
                    assert(value_trees(all).take(i + 1) =~= value_trees(all).take(i).push(
                        value_trees(all)[i],
                    ));
                }
                push_item(&mut out, read_value(item));
            }
            assert(value_trees(all).take(all.len() as int) =~= value_trees(all));
            Json::Array(out)
        },
        Layer::Object(fields) => {
            let ghost all = fields@;
            let mut out: Vec<(String, Json)> = Vec::new();
            for entry in it: fields
                invariant
                    it.seq() == all,
                    distinct_keys(all),
                    whole == value_tree(value),
                    whole == JsonTree::Object(entry_trees(all)),
                    field_trees(out@) == entry_trees(all.take(it.index())),
            {
                let (key, inner) = entry;
                proof {
                    let i = it.index();
                    lemma_entry(all, i);
                    assert(decreases_to!(whole => whole->Object_0));
                    assert(entry_trees(all).dom().contains(all[i].0@));
                    assert(decreases_to!(entry_trees(all) => entry_trees(all)[all[i].0@]));
                    assert(all.take(i + 1).drop_last() =~= all.take(i));
                }
                let ghost before = out@;
                out.push((key, read_value(inner)));
                assert(out@.drop_last() =~= before);
            }
            assert(all.take(all.len() as int) =~= all);
            Json::Object(JsonObject { fields: out })
        },
    }
}

/// Writes a `serde_json::Value`.
fn write_value(value: Json) -> (r: Value)
    ensures
        value_tree(r) == value@,
    decreases value,
{
    let ghost whole = value;
    match value {
        Json::Null => close_value(Layer::Null),
        Json::Bool(b) => close_value(Layer::Bool(b)),
        Json::Number(number) => close_value(Layer::Number(number)),
        Json::Text(s) => close_value(Layer::Text(s)),
        Json::Array(items) => {
            let ghost all = items@;
            let ghost held = items;
            let mut out: Vec<Value> = Vec::new();
            for item in it: items
                invariant
                    it.seq() == all,
                    all == held@,
                    whole == value,
                    whole == Json::Array(held),
                    value_trees(out@) == item_trees(all.take(it.index())),
            {
                proof {
                    let i = it.index();
                    assert(decreases_to!(whole => whole->Array_0));
                    assert(decreases_to!(held => held@[i]));
                    assert(all.take(i + 1).drop_last() =~= all.take(i));
                }
                let ghost before = out@;
                let inner = write_value(item);
                out.push(inner);
                assert(value_trees(out@) =~= value_trees(before).push(value_tree(inner)));
            }
            assert(all.take(all.len() as int) =~= all);
            close_value(Layer::Array(out))
        },
        Json::Object(object) => {
            let fields = object.fields;
            let ghost all = fields@;
            let ghost held = fields;
            let mut out: Vec<(String, Value)> = Vec::new();
            for entry in it: fields
                invariant
                    it.seq() == all,
                    all == held@,
                    whole == value,
                    whole is Object,
                    whole->Object_0.fields == held,
                    entry_trees(out@) == field_trees(all.take(it.index())),
            {
                let (key, inner) = entry;
                proof {
                    let i = it.index();
                    assert(decreases_to!(whole => whole->Object_0.fields));
                    assert(decreases_to!(held => held@[i].1));
                    assert(all.take(i + 1).drop_last() =~= all.take(i));
                }
                let ghost before = out@;
                out.push((key, write_value(inner)));
                assert(out@.drop_last() =~= before);
            }
            assert(all.take(all.len() as int) =~= all);
            close_value(Layer::Object(out))
        },
    }
}

/// `serde_json::from_str::<Value>`: the result is a function of the text
/// alone, and is named, not stated. An error is taken by its description.
#[verifier::external_body]
fn value_from_str(text: &str) -> (r: Result<Value, String>)
    ensures
        match r {
            Ok(value) => decoded(text@) == Ok::<JsonTree, Seq<char>>(value_tree(value)),
            Err(detail) => decoded(text@) == Err::<JsonTree, Seq<char>>(detail@),
        },
{
    serde_json::from_str::<Value>(text).map_err(|error| error.to_string())
}

/// `serde_json::to_string` on a `Value`. It fails only on a map whose keys are
/// no strings, or where a `Serialize` of the caller's own fails, so it does
/// not fail here. The text is a function of the tree alone (the fields of an
/// object are written in the order of their keys) and is named; it holds no
/// line feed, since the compact format puts none between tokens, and every
/// control character inside a string is escaped. `serde_json::from_str` reads
/// the text back as the same tree, unless it holds a number that is no integer
/// or nests deeper than the reader goes: the reader counts down from 128 at each
/// array and object, and gives up at zero. Of the other trees it is left unsaid
/// what comes back.
#[verifier::external_body]
fn value_to_string(value: &Value) -> (r: Result<String, String>)
    ensures
        r is Ok,
        r->Ok_0@ == encoded(value_tree(*value)),
        !r->Ok_0@.contains('\n'),
        is_readable(value_tree(*value)) ==> reads_as(r->Ok_0@, value_tree(*value)),
{
    serde_json::to_string(value).map_err(|error| error.to_string())
}

/// Reads a JSON document.
pub fn decode_json(text: &str) -> (r: Result<Json, String>)
    ensures
        match r {
            Ok(value) => decoded(text@) == Ok::<JsonTree, Seq<char>>(value@),
            Err(detail) => decoded(text@) == Err::<JsonTree, Seq<char>>(detail@),
        },
{
    match value_from_str(text) {
        Ok(value) => Ok(read_value(value)),
        Err(detail) => Err(detail),
    }
}

/// Writes a value as a JSON document, on one line. Reading the document gives
/// the value back, if it is readable.
pub fn encode_json(value: Json) -> (r: String)
    ensures
        r@ == encoded(value@),
        !r@.contains('\n'),
        is_readable(value@) ==> reads_as(r@, value@),
{
    let value = write_value(value);
    match value_to_string(&value) {
        Ok(text) => text,
        Err(detail) => detail,
    }
}

/// Writes a payload as a line: its text, ended by the only line feed in it.
/// Reading the text gives the payload back, if it is readable.
pub fn encode_json_line(payload: Json) -> (r: String)
    ensures
        r@ == encoded(payload@).push('\n'),
        !r@.drop_last().contains('\n'),
        is_readable(payload@) ==> reads_as(r@.drop_last(), payload@),
{
    let mut line = encode_json(payload);
    proof {
        reveal_strlit("\n");
    }
    line.append("\n");
    assert(line@ =~= encoded(payload@).push('\n'));
    assert(line@.drop_last() =~= encoded(payload@));
    line
}

} // verus!
