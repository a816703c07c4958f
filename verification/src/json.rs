//! JSON documents: `serde_json::Value`, the mathematical tree it stands for, and the
//! operations on it that the router uses.
use serde_json::Value;
use vstd::prelude::*;

verus! {

/// A JSON number, as `serde_json` tells numbers apart.
pub enum JsonNumber {
    /// An integer that fits in 64 unsigned bits.
    Unsigned(u64),
    /// An integer below zero that fits in 64 signed bits.
    Negative(i64),
    /// Any other number: the bits of a finite double.
    Double(u64),
}

/// The tree that a JSON document stands for. The members of an object have no order.
pub enum JsonView {
    Null,
    Bool(bool),
    Number(JsonNumber),
    Text(Seq<char>),
    Array(Seq<JsonView>),
    Object(Map<Seq<char>, JsonView>),
}

impl JsonView {
    /// The members of an object; anything else has none.
    pub open spec fn members(self) -> Map<Seq<char>, JsonView> {
        match self {
            JsonView::Object(members) => members,
            _ => Map::empty(),
        }
    }

    /// The member of that name, if this is an object that has it.
    pub open spec fn member(self, key: Seq<char>) -> Option<JsonView> {
        if self.members().contains_key(key) {
            Some(self.members()[key])
        } else {
            None
        }
    }

    /// Whether a member can be written: into an object, or into null, which then becomes one.
    pub open spec fn writable(self) -> bool {
        self is Object || self is Null
    }

    /// This document with one member written.
    pub open spec fn with(self, key: Seq<char>, value: JsonView) -> JsonView {
        JsonView::Object(self.members().insert(key, value))
    }

    /// This document with one member written, if one can be; anything else stays as it is.
    pub open spec fn written(self, key: Seq<char>, value: JsonView) -> JsonView {
        if self.writable() {
            self.with(key, value)
        } else {
            self
        }
    }

    /// This document with one member taken out; only an object can lose one.
    pub open spec fn without(self, key: Seq<char>) -> JsonView {
        match self {
            JsonView::Object(members) => JsonView::Object(members.remove(key)),
            _ => self,
        }
    }

    /// The number that this is, if it is an integer of 64 unsigned bits.
    pub open spec fn as_u64(self) -> Option<u64> {
        match self {
            JsonView::Number(JsonNumber::Unsigned(n)) => Some(n),
            _ => None,
        }
    }

    /// The truth value that this is, if it is one.
    pub open spec fn as_bool(self) -> Option<bool> {
        match self {
            JsonView::Bool(b) => Some(b),
            _ => None,
        }
    }

    /// The integer `n` as a document.
    pub open spec fn unsigned(n: u64) -> JsonView {
        JsonView::Number(JsonNumber::Unsigned(n))
    }
}

/// `serde_json::Value`, opaque: `json_view` says what a value holds.
#[verifier::external_type_specification]
#[verifier::external_body]
pub struct ExValue(Value);

/// `serde_json::Map`, the members of an object, opaque: `members_view` says what it holds.
#[verifier::external_type_specification]
#[verifier::external_body]
#[verifier::reject_recursive_types(K)]
#[verifier::reject_recursive_types(V)]
pub struct ExMembers<K, V>(serde_json::Map<K, V>);

/// What a `serde_json::Value` holds: the tree of its variants.
pub uninterp spec fn json_view(value: Value) -> JsonView;

/// What a `serde_json::Map` holds.
pub uninterp spec fn members_view(members: serde_json::Map<String, Value>) -> Map<Seq<char>, JsonView>;

/// The view of a document that was to be read, or of the text of the error.
pub open spec fn read_view(read: Result<Value, String>) -> Result<JsonView, Seq<char>> {
    match read {
        Ok(value) => Ok(json_view(value)),
        Err(error) => Err(error@),
    }
}

/// The view of a text that was to be written, or of the text of the error.
pub open spec fn text_view(written: Result<String, String>) -> Result<Seq<char>, Seq<char>> {
    match written {
        Ok(text) => Ok(text@),
        Err(error) => Err(error@),
    }
}

/// The view of bytes that were to be written, or of the text of the error.
pub open spec fn bytes_view(written: Result<Vec<u8>, String>) -> Result<Seq<u8>, Seq<char>> {
    match written {
        Ok(bytes) => Ok(bytes@),
        Err(error) => Err(error@),
    }
}

/// `Value::as_object_mut`: the members of an object, to be changed in place; of anything
/// else, nothing.
pub assume_specification[ Value::as_object_mut ](value: &mut Value) -> (found: Option<
    &mut serde_json::Map<String, Value>,
>)
    ensures
        match found {
            Some(members) => {
                &&& json_view(*old(value)) == JsonView::Object(members_view(*members))
                &&& json_view(*final(value)) == JsonView::Object(members_view(*final(members)))
            },
            None => {
                &&& !(json_view(*old(value)) is Object)
                &&& json_view(*final(value)) == json_view(*old(value))
            },
        },
;

/// `Map::remove`: the member of that name leaves the map and is handed out, the others stay.
#[verifier::external_body]
pub(crate) fn remove_entry(members: &mut serde_json::Map<String, Value>, key: &str) -> (taken: Option<
    Value,
>)
    ensures
        members_view(*final(members)) == members_view(*old(members)).remove(key@),
        match taken {
            Some(value) => {
                &&& members_view(*old(members)).contains_key(key@)
                &&& members_view(*old(members))[key@] == json_view(value)
            },
            None => !members_view(*old(members)).contains_key(key@),
        },
{
    members.remove(key)
}

/// `Value::is_object`: whether the value is an object.
pub assume_specification[ Value::is_object ](value: &Value) -> (answer: bool)
    ensures
        answer == (json_view(*value) is Object),
;

/// `Value::is_null`: whether the value is null.
pub assume_specification[ Value::is_null ](value: &Value) -> (answer: bool)
    ensures
        answer == (json_view(*value) is Null),
;

/// `Value::as_u64`: the integer that the value is, if it is one of 64 unsigned bits.
pub assume_specification[ Value::as_u64 ](value: &Value) -> (number: Option<u64>)
    ensures
        number == json_view(*value).as_u64(),
;

/// `Value::as_bool`: the truth value that the value is, if it is one.
pub assume_specification[ Value::as_bool ](value: &Value) -> (truth: Option<bool>)
    ensures
        truth == json_view(*value).as_bool(),
;

/// `Value::clone`: the copy holds what the value holds.
pub assume_specification[ <Value as Clone>::clone ](value: &Value) -> (copy: Value)
    ensures
        json_view(copy) == json_view(*value),
;

/// `Value::get` with a string: the member of that name, if the value is an object that has it.
#[verifier::external_body]
pub(crate) fn get_member<'a>(value: &'a Value, key: &str) -> (found: Option<&'a Value>)
    ensures
        match found {
            Some(inner) => json_view(*value).member(key@) == Some(json_view(*inner)),
            None => json_view(*value).member(key@) is None,
        },
{
    value.get(key)
}

/// `Value::get_mut` with a string: the member of that name, to be changed in place, if the
/// value is an object that has it.
#[verifier::external_body]
pub(crate) fn get_member_mut<'a>(value: &'a mut Value, key: &str) -> (found: Option<&'a mut Value>)
    ensures
        match found {
            Some(inner) => {
                &&& json_view(*old(value)).member(key@) == Some(json_view(*inner))
                &&& json_view(*final(value)) == json_view(*old(value)).with(
                    key@,
                    json_view(*final(inner)),
                )
            },
            None => {
                &&& json_view(*old(value)).member(key@) is None
                &&& json_view(*final(value)) == json_view(*old(value))
            },
        },
{
    value.get_mut(key)
}

/// `IndexMut` on a `Value` with a string, then an assignment: the member is written, and null
/// becomes an object. On any other value the indexing panics.
#[verifier::external_body]
pub(crate) fn set_member(value: &mut Value, key: &str, member: Value)
    requires
        json_view(*old(value)).writable(),
    ensures
        json_view(*final(value)) == json_view(*old(value)).with(key@, json_view(member)),
{
    value[key] = member;
}

/// Writes a member where one can be written, and leaves anything else as it is.
pub fn write_member(value: &mut Value, key: &str, member: Value)
    ensures
        json_view(*final(value)) == json_view(*old(value)).written(key@, json_view(member)),
{
    if value.is_object() || value.is_null() {
        set_member(value, key, member);
    }
}

/// `Value::from` on a `u64`: the number itself.
#[verifier::external_body]
pub(crate) fn json_u64(n: u64) -> (value: Value)
    ensures
        json_view(value) == JsonView::unsigned(n),
{
    Value::from(n)
}

/// `Value::from` on a `bool`: the truth value itself.
#[verifier::external_body]
pub(crate) fn json_bool(truth: bool) -> (value: Value)
    ensures
        json_view(value) == JsonView::Bool(truth),
{
    Value::from(truth)
}

/// `Value::Null`.
#[verifier::external_body]
pub(crate) fn json_null() -> (value: Value)
    ensures
        json_view(value) is Null,
{
    Value::Null
}

/// The text that `serde_json::to_string` gives for a document, or the text of its error.
pub uninterp spec fn json_text(document: JsonView) -> Result<Seq<char>, Seq<char>>;

/// `serde_json::to_string`: the compact text of a document. The members of an object are
/// written in the order of their names, so the text depends on the tree alone.
#[verifier::external_body]
pub(crate) fn to_text(value: &Value) -> (written: Result<String, String>)
    ensures
        match written {
            Ok(text) => json_text(json_view(*value)) == Ok::<Seq<char>, Seq<char>>(text@),
            Err(error) => json_text(json_view(*value)) == Err::<Seq<char>, Seq<char>>(error@),
        },
{
    match serde_json::to_string(value) {
        Ok(text) => Ok(text),
        Err(error) => Err(error.to_string()),
    }
}

/// The bytes that `serde_json::to_vec` gives for a document, or the text of its error.
pub uninterp spec fn json_bytes(document: JsonView) -> Result<Seq<u8>, Seq<char>>;

/// `serde_json::to_vec`: the compact text of a document, as bytes.
#[verifier::external_body]
pub(crate) fn to_bytes(value: &Value) -> (written: Result<Vec<u8>, String>)
    ensures
        match written {
            Ok(bytes) => json_bytes(json_view(*value)) == Ok::<Seq<u8>, Seq<char>>(bytes@),
            Err(error) => json_bytes(json_view(*value)) == Err::<Seq<u8>, Seq<char>>(error@),
        },
{
    match serde_json::to_vec(value) {
        Ok(bytes) => Ok(bytes),
        Err(error) => Err(error.to_string()),
    }
}

/// The document that `serde_json::from_str` reads from a text, or the text of its error.
pub uninterp spec fn parsed_text(text: Seq<char>) -> Result<JsonView, Seq<char>>;

/// `serde_json::from_str`: the document that a text is, if it is one.
#[verifier::external_body]
pub(crate) fn parse_text(text: &str) -> (read: Result<Value, String>)
    ensures
        match read {
            Ok(value) => parsed_text(text@) == Ok::<JsonView, Seq<char>>(json_view(value)),
            Err(error) => parsed_text(text@) == Err::<JsonView, Seq<char>>(error@),
        },
{
    match serde_json::from_str(text) {
        Ok(value) => Ok(value),
        Err(error) => Err(error.to_string()),
    }
}

/// The document that `serde_json::from_slice` reads from bytes, or the text of its error.
pub uninterp spec fn parsed_bytes(bytes: Seq<u8>) -> Result<JsonView, Seq<char>>;

/// `serde_json::from_slice`: the document that some bytes are, if they are one.
#[verifier::external_body]
pub(crate) fn parse_bytes(bytes: &Vec<u8>) -> (read: Result<Value, String>)
    ensures
        match read {
            Ok(value) => parsed_bytes(bytes@) == Ok::<JsonView, Seq<char>>(json_view(value)),
            Err(error) => parsed_bytes(bytes@) == Err::<JsonView, Seq<char>>(error@),
        },
{
    match serde_json::from_slice(bytes) {
        Ok(value) => Ok(value),
        Err(error) => Err(error.to_string()),
    }
}

} // verus!
