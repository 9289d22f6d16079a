//! The boundary to `serde_json`. Everything in this file is believed, not
//! proved: the types are opaque to the verifier, and each function states what
//! the `serde_json` source shows of the call that its body makes.

use crate::model::{members_view, Member, MemberView};
use serde_json::{Error, Value};
use vstd::prelude::*;

verus! {

/// A parsed JSON value. Nothing inside it is visible to the verifier.
#[verifier::external_type_specification]
#[verifier::external_body]
pub struct ExValue(Value);

/// The error of a failed parse or serialisation.
#[verifier::external_type_specification]
#[verifier::external_body]
pub struct ExError(Error);

/// What `serde_json::from_str` makes of `text`: the value, or `None` where it
/// reports an error.
pub uninterp spec fn parsed(text: Seq<char>) -> Option<Value>;

/// The top-level members of an object, in the order in which its map yields
/// them, each value as the compact JSON text that `Display` writes for it;
/// `None` for a value that is not an object.
pub uninterp spec fn object_members(value: Value) -> Option<Seq<MemberView>>;

/// The text that `serde_json::to_string_pretty` gives for `value`, or `None`
/// where it reports an error.
pub uninterp spec fn pretty(value: Value) -> Option<Seq<char>>;

/// `serde_json::from_str::<Value>`. The outcome depends on the text alone:
/// the parser reads no state but its input and a fixed depth limit.
#[verifier::external_body]
pub(crate) fn parse_value(text: &str) -> (r: Result<Value, Error>)
    ensures
        match r {
            Ok(v) => parsed(text@) == Some(v),
            Err(_) => parsed(text@).is_none(),
        },
{
    serde_json::from_str::<Value>(text)
}

/// `Value::as_object`, then `Map::iter` with `to_string` on each value.
/// `as_object` gives the map of an object and `None` for every other value.
/// The members are handed out in the map's own order, each key cloned and
/// each value written as compact JSON, which depends on the value alone.
#[verifier::external_body]
pub(crate) fn value_members(value: &Value) -> (out: Option<Vec<Member>>)
    ensures
        match out {
            Some(list) => object_members(*value) == Some(members_view(list@)),
            None => object_members(*value).is_none(),
        },
{
    value.as_object().map(
        |object| object.iter().map(|(k, v)| Member { key: k.clone(), text: v.to_string() }).collect(),
    )
}

/// `serde_json::to_string_pretty` on a `Value`: indented JSON text, which
/// depends on the value alone.
#[verifier::external_body]
pub(crate) fn pretty_text(value: &Value) -> (r: Result<String, Error>)
    ensures
        match r {
            Ok(s) => pretty(*value) == Some(s@),
            Err(_) => pretty(*value).is_none(),
        },
{
    serde_json::to_string_pretty(value)
}

/// `Clone::clone` of `Value`, which `serde_json` derives: the copy is the
/// same value.
#[verifier::external_body]
pub(crate) fn clone_value(value: &Value) -> (r: Value)
    ensures
        r == *value,
{
    value.clone()
}

} // verus!
