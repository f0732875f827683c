//! JSON documents: what `serde_json` parses, changes and prints, stated over
//! a mathematical tree.

use crate::text::texts;
use vstd::prelude::*;

verus! {

/// A JSON document as a mathematical tree. An object is a map from its keys;
/// numbers are integers, or floating-point numbers known by their bits.
#[verifier::ext_equal]
pub enum JsonView {
    Null,
    Bool(bool),
    Integer(int),
    Float(u64),
    Text(Seq<char>),
    Array(Seq<JsonView>),
    Object(Map<Seq<char>, JsonView>),
}

/// The array of the given texts.
pub open spec fn text_array_view(items: Seq<Seq<char>>) -> JsonView {
    JsonView::Array(items.map_values(|t: Seq<char>| JsonView::Text(t)))
}

/// No more than `depth` arrays and objects stand inside one another.
pub open spec fn nests_at_most(doc: JsonView, depth: nat) -> bool
    decreases depth,
{
    match doc {
        JsonView::Array(items) => depth > 0 && forall|i: int|
            0 <= i < items.len() ==> nests_at_most(#[trigger] items[i], (depth - 1) as nat),
        JsonView::Object(members) => depth > 0 && forall|k: Seq<char>| #[trigger]
            members.contains_key(k) ==> nests_at_most(members[k], (depth - 1) as nat),
        _ => true,
    }
}

/// Two documents agree down to the given depth, but for the values of
/// floating-point numbers.
pub open spec fn alike(a: JsonView, b: JsonView, depth: nat) -> bool
    decreases depth,
{
    match (a, b) {
        (JsonView::Float(_), JsonView::Float(_)) => true,
        (JsonView::Array(s), JsonView::Array(t)) => depth > 0 && s.len() == t.len()
            && forall|i: int|
            0 <= i < s.len() ==> alike(#[trigger] s[i], #[trigger] t[i], (depth - 1) as nat),
        (JsonView::Object(s), JsonView::Object(t)) => depth > 0 && s.dom() == t.dom()
            && forall|k: Seq<char>| #[trigger]
            s.contains_key(k) ==> alike(s[k], t[k], (depth - 1) as nat),
        _ => a == b,
    }
}

/// How many arrays and objects a parsed document can have inside one another.
pub open spec fn depth_limit() -> nat {
    127
}

/// `serde_json::Value`: a parsed JSON document.
#[verifier::external_type_specification]
#[verifier::external_body]
pub struct ExValue(serde_json::Value);

/// `serde_json::Error`: why a text is no JSON document.
#[verifier::external_type_specification]
#[verifier::external_body]
pub struct ExError(serde_json::Error);

/// The tree that a parsed document holds.
pub uninterp spec fn json_view(doc: serde_json::Value) -> JsonView;

/// What an error says, as its `Display` prints it.
pub uninterp spec fn error_text(error: serde_json::Error) -> Seq<char>;

/// What `serde_json::from_str` makes of a text: the document, or what the
/// error says.
pub uninterp spec fn parsed_json(text: Seq<char>) -> Result<JsonView, Seq<char>>;

/// What `serde_json::to_string_pretty` prints for a document.
pub uninterp spec fn pretty_text(doc: JsonView) -> Seq<char>;

/// `serde_json::from_str`: the document that the text denotes, or an error.
/// The parser stops with an error at the 128th array or object inside one
/// another.
#[verifier::external_body]
pub(crate) fn parse(text: &str) -> (r: Result<serde_json::Value, serde_json::Error>)
    ensures
        match r {
            Ok(doc) => parsed_json(text@) == Ok::<JsonView, Seq<char>>(json_view(doc))
                && nests_at_most(json_view(doc), depth_limit()),
            Err(error) => parsed_json(text@) == Err::<JsonView, Seq<char>>(error_text(error)),
        },
{
    serde_json::from_str(text)
}

/// `serde_json::to_string_pretty`: the document as indented text. Printing a
/// `Value` does not fail: its keys are strings and its numbers are finite. The
/// parser reads the text back as the same document, but for the last digits
/// of floating-point numbers. The nesting is bounded, since the printer goes
/// down into it and the parser follows it no further.
#[verifier::external_body]
pub(crate) fn pretty(doc: &serde_json::Value) -> (r: Result<String, serde_json::Error>)
    requires
        nests_at_most(json_view(*doc), depth_limit()),
    ensures
        r is Ok,
        r->Ok_0@ == pretty_text(json_view(*doc)),
        parsed_json(r->Ok_0@) is Ok && alike(
            json_view(*doc),
            parsed_json(r->Ok_0@)->Ok_0,
            depth_limit(),
        ),
{
    serde_json::to_string_pretty(doc)
}

/// `serde_json::Error`'s `Display`: what the error says.
#[verifier::external_body]
pub(crate) fn message(error: &serde_json::Error) -> (r: String)
    ensures
        r@ == error_text(*error),
{
    error.to_string()
}

/// `serde_json::Value::Object` of an empty `serde_json::Map`.
#[verifier::external_body]
pub(crate) fn empty_object() -> (r: serde_json::Value)
    ensures
        json_view(r) == JsonView::Object(Map::empty()),
{
    serde_json::Value::Object(serde_json::Map::new())
}

/// `serde_json::Value::from` on a vector of strings: the array of those texts.
#[verifier::external_body]
pub(crate) fn text_array(items: Vec<String>) -> (r: serde_json::Value)
    ensures
        json_view(r) == text_array_view(texts(items@)),
{
    serde_json::Value::from(items)
}

/// `serde_json::Value::is_null`.
pub assume_specification[ serde_json::Value::is_null ](doc: &serde_json::Value) -> (r: bool)
    ensures
        r == (json_view(*doc) is Null),
;

/// `serde_json::Value::is_object`.
pub assume_specification[ serde_json::Value::is_object ](doc: &serde_json::Value) -> (r: bool)
    ensures
        r == (json_view(*doc) is Object),
;

/// `serde_json::Value::as_array`: the items where the document is an array.
pub assume_specification[ serde_json::Value::as_array ](doc: &serde_json::Value) -> (r: Option<
    &Vec<serde_json::Value>,
>)
    ensures
        match r {
            Some(items) => json_view(*doc) == JsonView::Array(
                items@.map_values(|item: serde_json::Value| json_view(item)),
            ),
            None => !(json_view(*doc) is Array),
        },
;

/// `serde_json::Value::as_str`: the text where the document is a string.
pub assume_specification[ serde_json::Value::as_str ](doc: &serde_json::Value) -> (r: Option<&str>)
    ensures
        match r {
            Some(text) => json_view(*doc) == JsonView::Text(text@),
            None => !(json_view(*doc) is Text),
        },
;

/// `serde_json::Value::get` with a string: the member of that name where the
/// document is an object that has one.
#[verifier::external_body]
pub(crate) fn member<'a>(doc: &'a serde_json::Value, key: &str) -> (r: Option<&'a serde_json::Value>)
    ensures
        match r {
            Some(item) => json_view(*doc) matches JsonView::Object(m) && m.contains_key(key@)
                && m[key@] == json_view(*item),
            None => json_view(*doc) matches JsonView::Object(m) ==> !m.contains_key(key@),
        },
{
    doc.get(key)
}

/// `serde_json::Value`'s `IndexMut` with a string: sets the member of that
/// name. A null document becomes an object first; on any other document that
/// is no object it panics.
#[verifier::external_body]
pub(crate) fn set_member(doc: &mut serde_json::Value, key: &str, item: serde_json::Value)
    requires
        json_view(*old(doc)) is Object || json_view(*old(doc)) is Null,
    ensures
        json_view(*final(doc)) == JsonView::Object(
            members_of(json_view(*old(doc))).insert(key@, json_view(item)),
        ),
{
    doc[key] = item;
}

/// `serde_json::Value::as_object_mut` and `serde_json::Map::remove`: takes the
/// member of that name out of an object, and leaves every other document as it
/// is.
#[verifier::external_body]
pub(crate) fn remove_member(doc: &mut serde_json::Value, key: &str)
    ensures
        json_view(*final(doc)) == match json_view(*old(doc)) {
            JsonView::Object(m) => JsonView::Object(m.remove(key@)),
            other => other,
        },
{
    if let Some(members) = doc.as_object_mut() {
        members.remove(key);
    }
}

/// The members of an object; a document of any other kind has none.
pub open spec fn members_of(doc: JsonView) -> Map<Seq<char>, JsonView> {
    match doc {
        JsonView::Object(m) => m,
        _ => Map::empty(),
    }
}

/// The array of some texts has each of them at its place.
pub proof fn text_arrays_hold_their_texts(items: Seq<Seq<char>>, i: int)
    ensures
        text_array_view(items) is Array,
        text_array_view(items)->Array_0.len() == items.len(),
        0 <= i < items.len() ==> text_array_view(items)->Array_0[i] == JsonView::Text(items[i]),
{
}

/// Two documents that are alike are of the same kind; texts, integers, truth
/// values and null are the same; arrays are alike item by item, and objects member
/// by member, one level further down.
pub proof fn alike_documents_agree(
    a: JsonView,
    b: JsonView,
    depth: nat,
    i: int,
    key: Seq<char>,
)
    requires
        alike(a, b, depth),
    ensures
        a is Float == b is Float,
        a is Array == b is Array,
        a is Object == b is Object,
        !(a is Float) && !(a is Array) && !(a is Object) ==> a == b,
        a is Array || a is Object ==> depth > 0,
        a matches JsonView::Array(s) ==> s.len() == b->Array_0.len() && (0 <= i < s.len() ==> alike(
            s[i],
            b->Array_0[i],
            (depth - 1) as nat,
        )),
        a matches JsonView::Object(s) ==> s.contains_key(key) == b->Object_0.contains_key(key) && (
        s.contains_key(key) ==> alike(s[key], b->Object_0[key], (depth - 1) as nat)),
{
    if let JsonView::Object(s) = a {
        assert(s.dom().contains(key) == b->Object_0.dom().contains(key));
    }
}

/// A document is like itself, down to every depth that holds it.
pub proof fn documents_are_like_themselves(doc: JsonView, depth: nat)
    requires
        nests_at_most(doc, depth),
    ensures
        alike(doc, doc, depth),
    decreases depth,
{
    match doc {
        JsonView::Array(items) => {
            assert forall|i: int| 0 <= i < items.len() implies alike(
                #[trigger] items[i],
                items[i],
                (depth - 1) as nat,
            ) by {
                documents_are_like_themselves(items[i], (depth - 1) as nat);
            }
        },
        JsonView::Object(members) => {
            assert forall|k: Seq<char>| #[trigger] members.contains_key(k) implies alike(
                members[k],
                members[k],
                (depth - 1) as nat,
            ) by {
                documents_are_like_themselves(members[k], (depth - 1) as nat);
            }
        },
        _ => {},
    }
}

/// An array or an object stands one level above what it holds; nothing else nests.
pub proof fn nesting_is_counted_by_levels(doc: JsonView, depth: nat, i: int, key: Seq<char>)
    requires
        nests_at_most(doc, depth),
    ensures
        doc is Array || doc is Object ==> depth > 0,
        doc matches JsonView::Array(items) ==> (0 <= i < items.len() ==> nests_at_most(
            items[i],
            (depth - 1) as nat,
        )),
        doc matches JsonView::Object(members) ==> (members.contains_key(key) ==> nests_at_most(
            members[key],
            (depth - 1) as nat,
        )),
{
}

} // verus!
