//! Reading JSON text. The text is parsed by `serde_json`; which members a
//! shape needs, and what is made of each, is stated and proved by the
//! functions that use this module.

use crate::json::{decimal_text, digits};
use vstd::prelude::*;
use vstd::string::*;

verus! {

/// What stands at one place of a JSON document.
#[derive(Debug, Clone)]
pub enum JsonItem {
    /// The document is not JSON.
    Malformed,
    /// The document has nothing at that place.
    Missing,
    Null,
    Boolean(bool),
    /// A number; `None` where it is not a whole number of 64 bits.
    Number(Option<i64>),
    Text(String),
    /// An array, with the number of its items.
    Array(usize),
    Object,
}

/// A `JsonItem` as plain text.
pub enum JsonItemView {
    Malformed,
    Missing,
    Null,
    Boolean(bool),
    Number(Option<i64>),
    Text(Seq<char>),
    Array(usize),
    Object,
}

impl View for JsonItem {
    type V = JsonItemView;

    open spec fn view(&self) -> JsonItemView {
        match self {
            JsonItem::Malformed => JsonItemView::Malformed,
            JsonItem::Missing => JsonItemView::Missing,
            JsonItem::Null => JsonItemView::Null,
            JsonItem::Boolean(b) => JsonItemView::Boolean(*b),
            JsonItem::Number(n) => JsonItemView::Number(*n),
            JsonItem::Text(text) => JsonItemView::Text(text@),
            JsonItem::Array(len) => JsonItemView::Array(*len),
            JsonItem::Object => JsonItemView::Object,
        }
    }
}

/// What stands in `document` at the place that the JSON Pointer `pointer`
/// names (RFC 6901: the empty pointer names the whole document, `/a/0` the
/// first item of member `a`).
pub uninterp spec fn json_item(document: Seq<char>, pointer: Seq<char>) -> JsonItemView;

/// The compact JSON text of what stands in `document` at `pointer`; `None`
/// where the document is not JSON, where nothing stands at that place, and
/// where `null` does.
pub uninterp spec fn json_raw(document: Seq<char>, pointer: Seq<char>) -> Option<Seq<char>>;

/// Calls `serde_json::from_str` for a `serde_json::Value`, then
/// `Value::pointer` on it.
///
/// Trusted: that the outcome depends on the two texts alone, so it can be
/// named `json_item`.
#[verifier::external_body]
pub(crate) fn json_at(document: &str, pointer: &str) -> (res: JsonItem)
    ensures
        res@ == json_item(document@, pointer@),
{
    match serde_json::from_str::<serde_json::Value>(document) {
        Ok(value) => match value.pointer(pointer) {
            None => JsonItem::Missing,
            Some(serde_json::Value::Null) => JsonItem::Null,
            Some(serde_json::Value::Bool(b)) => JsonItem::Boolean(*b),
            Some(serde_json::Value::Number(n)) => JsonItem::Number(n.as_i64()),
            Some(serde_json::Value::String(text)) => JsonItem::Text(text.clone()),
            Some(serde_json::Value::Array(items)) => JsonItem::Array(items.len()),
            Some(serde_json::Value::Object(_)) => JsonItem::Object,
        },
        Err(_) => JsonItem::Malformed,
    }
}

/// Calls `serde_json::from_str` for a `serde_json::Value`, `Value::pointer`
/// on it, and `Value::to_string` on what is found.
///
/// Trusted: that the outcome depends on the two texts alone, so it can be
/// named `json_raw`.
#[verifier::external_body]
pub(crate) fn json_raw_at(document: &str, pointer: &str) -> (res: Option<String>)
    ensures
        match res {
            Some(text) => json_raw(document@, pointer@) == Some(text@),
            None => json_raw(document@, pointer@) is None,
        },
{
    match serde_json::from_str::<serde_json::Value>(document) {
        Ok(value) => match value.pointer(pointer) {
            None => None,
            Some(serde_json::Value::Null) => None,
            Some(found) => Some(found.to_string()),
        },
        Err(_) => None,
    }
}

/// The text that a member which must be a string holds.
pub open spec fn text_in(item: JsonItemView) -> Option<Seq<char>> {
    match item {
        JsonItemView::Text(text) => Some(text),
        _ => None,
    }
}

/// Whether a member that may be left out is a string where it is there.
pub open spec fn is_opt_text(item: JsonItemView) -> bool {
    item is Missing || item is Null || item is Text
}

/// The number that a member which must be a 32-bit whole number holds.
pub open spec fn i32_in(item: JsonItemView) -> Option<i32> {
    match item {
        JsonItemView::Number(Some(n)) => if i32::MIN <= n <= i32::MAX {
            Some(n as i32)
        } else {
            None
        },
        _ => None,
    }
}

/// Whether `value` is what a member that must be a string holds.
pub open spec fn is_text(item: JsonItemView, value: String) -> bool {
    text_in(item) == Some(value@)
}

/// Whether `value` is what a member that may be left out holds: nothing
/// where it is left out or `null`.
pub open spec fn is_opt_text_of(item: JsonItemView, value: Option<String>) -> bool {
    match item {
        JsonItemView::Text(text) => value matches Some(found) && found@ == text,
        _ => value is None,
    }
}

/// Whether `value` is the compact JSON text of a member that may be left
/// out.
pub open spec fn is_opt_raw_of(raw: Option<Seq<char>>, value: Option<String>) -> bool {
    match raw {
        Some(text) => value matches Some(found) && found@ == text,
        None => value is None,
    }
}

/// The pointer to a member, or to an item, below the place `at`.
pub open spec fn below(at: Seq<char>, name: Seq<char>) -> Seq<char> {
    at + seq!['/'] + name
}

/// The pointer to member `name` below `at`.
pub(crate) fn pointer_to(at: &str, name: &str) -> (res: String)
    ensures
        res@ == below(at@, name@),
{
    proof {
        reveal_strlit("/");
    }
    let mut pointer = at.to_owned();
    pointer.append("/");
    pointer.append(name);
    assert(pointer@ =~= below(at@, name@));
    pointer
}

/// A type that is read from a JSON object.
pub trait JsonShape: Sized {
    /// Whether `document` holds, at `at`, an object with the members that
    /// the type needs, each of the kind it needs.
    spec fn readable(document: Seq<char>, at: Seq<char>) -> bool;

    /// Whether the value holds exactly what the object at `at` holds.
    spec fn read_from(&self, document: Seq<char>, at: Seq<char>) -> bool;

    /// Reads a value from the object at `at`; `None` exactly where the
    /// object is not of the type's shape.
    fn read(document: &str, at: &str) -> (res: Option<Self>)
        ensures
            match res {
                Some(value) => Self::readable(document@, at@) && value.read_from(document@, at@),
                None => !Self::readable(document@, at@),
            },
    ;
}

/// Whether a member that may be left out is left out, or `null`.
pub open spec fn is_absent(item: JsonItemView) -> bool {
    item is Missing || item is Null
}

/// Whether a member that may be left out is, where it is there, an object
/// of the shape of `T`.
pub open spec fn is_opt_shape<T: JsonShape>(document: Seq<char>, place: Seq<char>) -> bool {
    is_absent(json_item(document, place)) || T::readable(document, place)
}

/// Whether `value` is what a member that may be left out holds.
pub open spec fn is_opt_shape_of<T: JsonShape>(
    value: Option<T>,
    document: Seq<char>,
    place: Seq<char>,
) -> bool {
    match value {
        Some(found) => !is_absent(json_item(document, place)) && found.read_from(document, place),
        None => is_absent(json_item(document, place)),
    }
}

/// Whether a member that may be left out is, where it is there, an array
/// of objects of the shape of `T`.
pub open spec fn is_opt_list<T: JsonShape>(document: Seq<char>, place: Seq<char>) -> bool {
    match json_item(document, place) {
        JsonItemView::Array(len) => forall|i: int|
            0 <= i < len ==> T::readable(document, #[trigger] below(place, digits(i))),
        other => is_absent(other),
    }
}

/// Whether `value` is what a member that may be left out holds: the items
/// of the array, in its order.
pub open spec fn is_opt_list_of<T: JsonShape>(
    value: Option<Vec<T>>,
    document: Seq<char>,
    place: Seq<char>,
) -> bool {
    match json_item(document, place) {
        JsonItemView::Array(len) => value matches Some(list) && list@.len() == len && forall|
            i: int,
        |
            0 <= i < len ==> (#[trigger] list@[i]).read_from(document, below(place, digits(i))),
        _ => value is None,
    }
}

/// The text of a member that must be a string.
pub(crate) fn read_text(document: &str, at: &str, name: &str) -> (res: Option<String>)
    ensures
        match text_in(json_item(document@, below(at@, name@))) {
            Some(text) => res matches Some(found) && found@ == text,
            None => res is None,
        },
{
    let pointer = pointer_to(at, name);
    match json_at(document, pointer.as_str()) {
        JsonItem::Text(text) => Some(text),
        _ => None,
    }
}

/// The text of a member that may be left out; `None` where the member
/// holds something that is no string.
pub(crate) fn read_opt_text(document: &str, at: &str, name: &str) -> (res: Option<Option<String>>)
    ensures
        match res {
            Some(value) => is_opt_text(json_item(document@, below(at@, name@)))
                && is_opt_text_of(json_item(document@, below(at@, name@)), value),
            None => !is_opt_text(json_item(document@, below(at@, name@))),
        },
{
    let pointer = pointer_to(at, name);
    match json_at(document, pointer.as_str()) {
        JsonItem::Text(text) => Some(Some(text)),
        JsonItem::Missing => Some(None),
        JsonItem::Null => Some(None),
        _ => None,
    }
}

/// The number of a member that must be a whole number of 32 bits.
pub(crate) fn read_i32(document: &str, at: &str, name: &str) -> (res: Option<i32>)
    ensures
        res == i32_in(json_item(document@, below(at@, name@))),
{
    let pointer = pointer_to(at, name);
    match json_at(document, pointer.as_str()) {
        JsonItem::Number(Some(n)) => {
            if -2147483648 <= n && n <= 2147483647 {
                Some(n as i32)
            } else {
                None
            }
        },
        _ => None,
    }
}

/// The compact JSON text of a member that may be left out.
pub(crate) fn read_opt_raw(document: &str, at: &str, name: &str) -> (res: Option<String>)
    ensures
        is_opt_raw_of(json_raw(document@, below(at@, name@)), res),
{
    let pointer = pointer_to(at, name);
    json_raw_at(document, pointer.as_str())
}

/// The object that a member must hold.
pub(crate) fn read_shape<T: JsonShape>(document: &str, at: &str, name: &str) -> (res: Option<T>)
    ensures
        match res {
            Some(value) => T::readable(document@, below(at@, name@)) && value.read_from(
                document@,
                below(at@, name@),
            ),
            None => !T::readable(document@, below(at@, name@)),
        },
{
    let place = pointer_to(at, name);
    T::read(document, place.as_str())
}

/// The object of a member that may be left out; `None` where the member
/// holds something that is not of the shape.
pub(crate) fn read_opt_shape<T: JsonShape>(document: &str, at: &str, name: &str) -> (res: Option<
    Option<T>,
>)
    ensures
        match res {
            Some(value) => is_opt_shape::<T>(document@, below(at@, name@)) && is_opt_shape_of(
                value,
                document@,
                below(at@, name@),
            ),
            None => !is_opt_shape::<T>(document@, below(at@, name@)),
        },
{
    let place = pointer_to(at, name);
    match json_at(document, place.as_str()) {
        JsonItem::Missing => Some(None),
        JsonItem::Null => Some(None),
        _ => match T::read(document, place.as_str()) {
            Some(value) => Some(Some(value)),
            None => None,
        },
    }
}

/// The items of a member that may be left out; `None` where the member is
/// no array, or holds an item that is not of the shape.
pub(crate) fn read_opt_list<T: JsonShape>(document: &str, at: &str, name: &str) -> (res: Option<
    Option<Vec<T>>,
>)
    ensures
        match res {
            Some(value) => is_opt_list::<T>(document@, below(at@, name@)) && is_opt_list_of(
                value,
                document@,
                below(at@, name@),
            ),
            None => !is_opt_list::<T>(document@, below(at@, name@)),
        },
{
    let place = pointer_to(at, name);
    match json_at(document, place.as_str()) {
        JsonItem::Array(len) => {
            let mut list: Vec<T> = Vec::new();
            let mut i: usize = 0;
            while i < len
                invariant
                    i <= len,
                    list@.len() == i,
                    place@ == below(at@, name@),
                    json_item(document@, place@) == JsonItemView::Array(len),
                    forall|j: int|
                        0 <= j < i ==> T::readable(document@, #[trigger] below(place@, digits(j))),
                    forall|j: int|
                        0 <= j < i ==> (#[trigger] list@[j]).read_from(
                            document@,
                            below(place@, digits(j)),
                        ),
                decreases len - i,
            {
                let index = decimal_text(i as u64);
                let item = pointer_to(place.as_str(), index.as_str());
                match T::read(document, item.as_str()) {
                    Some(value) => {
                        list.push(value);
                    },
                    None => {
                        assert(!T::readable(document@, below(place@, digits(i as int))));
                        return None;
                    },
                }
                i += 1;
            }
            Some(Some(list))
        },
        JsonItem::Missing => Some(None),
        JsonItem::Null => Some(None),
        _ => None,
    }
}

} // verus!
