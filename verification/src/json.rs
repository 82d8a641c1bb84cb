//! JSON values: what they hold, and the ways in which the library reads them.
use vstd::prelude::*;

use crate::text::text_of;

verus! {

/// A JSON value.
#[verifier::external_type_specification]
#[verifier::external_body]
pub struct ExValue(serde_json::Value);

/// A step from a JSON value to one that it holds.
pub enum Key {
    /// The value under a key of an object.
    Member(Seq<char>),
    /// The item of an array at an index.
    Item(nat),
}

/// What stands at one place of a JSON value. A number is given by its text.
pub enum Leaf {
    Null,
    Bool(bool),
    Number(Seq<char>),
    Text(Seq<char>),
    Array,
    Object,
}

/// What a JSON value holds: what stands at each place of it, by the steps that lead there.
/// No steps lead to the value itself.
pub uninterp spec fn json_contents(value: serde_json::Value) -> Map<Seq<Key>, Leaf>;

/// What the JSON value that bytes hold holds; nothing where they hold none.
pub uninterp spec fn json_document(bytes: Seq<u8>) -> Option<Map<Seq<Key>, Leaf>>;

/// The compact text of a JSON value, by what it holds.
pub uninterp spec fn json_text(contents: Map<Seq<Key>, Leaf>) -> Seq<char>;

/// What the value one step further in holds.
pub open spec fn inside(contents: Map<Seq<Key>, Leaf>, key: Key) -> Map<Seq<Key>, Leaf> {
    Map::new(
        |rest: Seq<Key>| contents.contains_key(seq![key] + rest),
        |rest: Seq<Key>| contents[seq![key] + rest],
    )
}

/// Whether one value is what stands a step further in another, and whether there is none.
pub open spec fn is_found(
    contents: Map<Seq<Key>, Leaf>,
    key: Key,
    found: Option<Map<Seq<Key>, Leaf>>,
) -> bool {
    match found {
        Some(held) => contents.contains_key(seq![key]) && held == inside(contents, key),
        None => forall|rest: Seq<Key>| !#[trigger] contents.contains_key(seq![key] + rest),
    }
}

/// What the value behind a reference holds, where there is one.
pub open spec fn held(value: Option<&serde_json::Value>) -> Option<Map<Seq<Key>, Leaf>> {
    match value {
        Some(v) => Some(json_contents(*v)),
        None => None,
    }
}

/// What a value holds, where there is one.
pub open spec fn holding(value: Option<serde_json::Value>) -> Option<Map<Seq<Key>, Leaf>> {
    match value {
        Some(v) => Some(json_contents(v)),
        None => None,
    }
}

/// What stands at the end of some steps, where they lead anywhere.
pub open spec fn leaf_at(contents: Map<Seq<Key>, Leaf>, path: Seq<Key>) -> Option<Leaf> {
    if contents.contains_key(path) {
        Some(contents[path])
    } else {
        None
    }
}

/// The text of a leaf that is a string.
pub open spec fn leaf_text(leaf: Leaf) -> Option<Seq<char>> {
    match leaf {
        Leaf::Text(t) => Some(t),
        _ => None,
    }
}

/// The truth value of a leaf that is one.
pub open spec fn leaf_truth(leaf: Leaf) -> Option<bool> {
    match leaf {
        Leaf::Bool(b) => Some(b),
        _ => None,
    }
}

/// `serde_json::from_slice` into a `serde_json::Value`, whose contents are a function of
/// the bytes alone, here called `json_document`.
#[verifier::external_body]
pub(crate) fn parse_json(bytes: &[u8]) -> (r: Option<serde_json::Value>)
    ensures
        holding(r) == json_document(bytes@),
{
    serde_json::from_slice(bytes).ok()
}

/// `serde_json::Value::get` by a key: the value under that key of an object; nothing where
/// the value is no object or has no such key.
#[verifier::external_body]
pub(crate) fn member<'a>(value: &'a serde_json::Value, key: &str) -> (r: Option<
    &'a serde_json::Value,
>)
    ensures
        is_found(json_contents(*value), Key::Member(key@), held(r)),
{
    value.get(key)
}

/// `serde_json::Value::get` by an index: the item at that index of an array; nothing where
/// the value is no array or is too short.
#[verifier::external_body]
pub(crate) fn item<'a>(value: &'a serde_json::Value, at: usize) -> (r: Option<
    &'a serde_json::Value,
>)
    ensures
        is_found(json_contents(*value), Key::Item(at as nat), held(r)),
{
    value.get(at)
}

/// `serde_json::Value::as_str`: the text of a string; nothing for any other value.
#[verifier::external_body]
pub(crate) fn string_of(value: &serde_json::Value) -> (r: Option<String>)
    ensures
        text_of(r) == leaf_text(json_contents(*value)[Seq::empty()]),
{
    value.as_str().map(str::to_string)
}

/// `serde_json::Value::as_bool`: a truth value; nothing for any other value.
#[verifier::external_body]
pub(crate) fn truth_of(value: &serde_json::Value) -> (r: Option<bool>)
    ensures
        r == leaf_truth(json_contents(*value)[Seq::empty()]),
{
    value.as_bool()
}

/// The `Display` of `serde_json::Value`, which writes the value as compact JSON: a function
/// of what the value holds, here called `json_text`.
#[verifier::external_body]
pub(crate) fn render(value: &serde_json::Value) -> (r: String)
    ensures
        r@ == json_text(json_contents(*value)),
{
    value.to_string()
}

/// What stands at a value that was found is what stands at the end of the step there.
pub(crate) proof fn lemma_found(
    contents: Map<Seq<Key>, Leaf>,
    key: Key,
    found: Option<Map<Seq<Key>, Leaf>>,
)
    requires
        is_found(contents, key, found),
    ensures
        match found {
            Some(held) => leaf_at(contents, seq![key]) == Some(held[Seq::empty()]),
            None => leaf_at(contents, seq![key]) is None,
        },
        forall|rest: Seq<Key>|
            leaf_at(contents, #[trigger] (seq![key] + rest)) == (match found {
                Some(held) => leaf_at(held, rest),
                None => None,
            }),
{
    let none = Seq::<Key>::empty();
    assert(seq![key] + none =~= seq![key]);
    assert forall|rest: Seq<Key>|
        leaf_at(contents, #[trigger] (seq![key] + rest)) == (match found {
            Some(held) => leaf_at(held, rest),
            None => None,
        }) by {
        if found is None {
            assert(!contents.contains_key(seq![key] + rest));
        }
    }
    if found is None {
        assert(!contents.contains_key(seq![key] + none));
    }
}

} // verus!
