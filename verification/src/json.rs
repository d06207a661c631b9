//! Model parameters as JSON: the few things the library does with a
//! `serde_json::Value` besides carrying it.

use vstd::prelude::*;

verus! {

/// `serde_json::Value`, carried as an opaque value.
#[verifier::external_type_specification]
#[verifier::external_body]
pub struct ExValue(serde_json::Value);

/// Whether a value is an object.
pub uninterp spec fn json_is_object(v: serde_json::Value) -> bool;

/// The members of an object, by name.
pub uninterp spec fn json_members(v: serde_json::Value) -> Map<Seq<char>, serde_json::Value>;

/// The text that a string value holds; none for any other value.
pub uninterp spec fn json_text(v: serde_json::Value) -> Option<Seq<char>>;

/// Whether a value is null.
pub uninterp spec fn json_is_null(v: serde_json::Value) -> bool;

/// The value of a whole number.
pub uninterp spec fn json_number(n: u64) -> serde_json::Value;

/// Calls `Value::clone`, which is derived and copies the value.
#[verifier::external_body]
pub(crate) fn copy_json(v: &serde_json::Value) -> (r: serde_json::Value)
    ensures
        r == *v,
{
    v.clone()
}

/// Gives `Value::Null`, which is null, and so no object and no string.
#[verifier::external_body]
pub(crate) fn null_json() -> (r: serde_json::Value)
    ensures
        json_is_null(r),
        !json_is_object(r),
        json_text(r) is None,
{
    serde_json::Value::Null
}

/// Calls `Value::from` on an integer, whose result depends on the integer alone and
/// is a number: no object and no string.
#[verifier::external_body]
pub(crate) fn number_json(n: u64) -> (r: serde_json::Value)
    ensures
        r == json_number(n),
        !json_is_object(r),
        json_text(r) is None,
{
    serde_json::Value::from(n)
}

/// Calls `Value::is_object`.
#[verifier::external_body]
pub(crate) fn is_object(v: &serde_json::Value) -> (r: bool)
    ensures
        r == json_is_object(*v),
{
    v.is_object()
}

/// Assigns through `Value::index_mut`, which on an object replaces the member of that
/// name or adds it, and leaves every other member.
#[verifier::external_body]
pub(crate) fn set_member(v: &mut serde_json::Value, key: &str, member: serde_json::Value)
    requires
        json_is_object(*old(v)),
    ensures
        json_is_object(*final(v)),
        json_members(*final(v)) == json_members(*old(v)).insert(key@, member),
        json_text(*final(v)) is None,
{
    v[key] = member;
}

/// Calls `Value::get` with a name: the member of that name, if the value is an object
/// that has one.
#[verifier::external_body]
pub(crate) fn member(v: &serde_json::Value, key: String) -> (r: Option<&serde_json::Value>)
    ensures
        (r is Some) == (json_is_object(*v) && json_members(*v).contains_key(key@)),
        r is Some ==> *r.unwrap() == json_members(*v)[key@],
{
    v.get(key)
}

/// Calls `Value::as_str`: the text of a string value.
#[verifier::external_body]
pub(crate) fn text_of_json(v: &serde_json::Value) -> (r: Option<&str>)
    ensures
        r is Some <==> json_text(*v) is Some,
        r is Some ==> json_text(*v) == Some(r.unwrap()@),
{
    v.as_str()
}

/// Collects one pair into a `Value`, which makes an object with that one member.
#[verifier::external_body]
pub(crate) fn object_of(key: &str, member: serde_json::Value) -> (r: serde_json::Value)
    ensures
        json_is_object(r),
        json_members(r) == map![key@ => member],
        json_text(r) is None,
{
    serde_json::Value::from_iter([(key.to_string(), member)])
}

} // verus!
