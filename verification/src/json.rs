//! The arguments of a tool call, which are JSON values.

use crate::text::text_of;
use serde_json::Value;
use vstd::prelude::*;

verus! {

/// `serde_json::Value`, a JSON value of any shape. Nothing inside it is visible
/// here but what `json_members` names.
#[verifier::external_type_specification]
#[verifier::external_body]
pub struct ExJsonValue(serde_json::Value);

/// The members of a JSON object by key: a member that is a string is given by its
/// text, any other member by `None`. A value that is no object has no members.
pub uninterp spec fn json_members(value: Value) -> Map<Seq<char>, Option<Seq<char>>>;

/// `serde_json::Value::get` with a string index: the member of the object under
/// `key`, or `None` where `value` is no object or has no such key. The member is
/// handed out as `serde_json::Value::as_str` reads it: its text where it is a
/// string, `None` where it is anything else.
#[verifier::external_body]
pub(crate) fn json_member(value: &Value, key: &str) -> (member: Option<Option<String>>)
    ensures
        member is Some <==> json_members(*value).contains_key(key@),
        member matches Some(text) ==> text_of(text) == json_members(*value)[key@],
{
    match value.get(key) {
        Some(member) => Some(member.as_str().map(String::from)),
        None => None,
    }
}

/// The page that the arguments of a call name: their string member `slug`.
pub open spec fn named_slug(members: Map<Seq<char>, Option<Seq<char>>>) -> Option<Seq<char>> {
    if members.contains_key("slug"@) {
        members["slug"@]
    } else {
        None
    }
}

/// The page that a call's arguments name.
pub fn param_slug(params: Option<&Value>) -> (slug: Option<String>)
    ensures
        text_of(slug) == match params {
            Some(value) => named_slug(json_members(*value)),
            None => None,
        },
{
    slug_member(json_member(params?, "slug"))
}

/// The page that a member `slug` names, where there is such a member and where it is
/// a string.
pub fn slug_member(member: Option<Option<String>>) -> (slug: Option<String>)
    ensures
        slug == match member {
            Some(text) => text,
            None => None,
        },
{
    match member {
        Some(text) => text,
        None => None,
    }
}

} // verus!
