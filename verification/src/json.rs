//! JSON text, written and read by `serde_json`.

use vstd::prelude::*;
use crate::text::text_of;
use crate::params::{pairs_of, Param};

verus! {

/// One member of a JSON object: its name, and its value as JSON text.
#[derive(Debug, Clone, PartialEq, Eq)]
pub struct Member {
    pub name: String,
    pub value: Vec<u8>,
}

impl View for Member {
    type V = (Seq<char>, Seq<u8>);

    open spec fn view(&self) -> (Seq<char>, Seq<u8>) {
        (self.name@, self.value@)
    }
}

/// A list of members as pairs of name and value text.
pub open spec fn members_of(members: Seq<Member>) -> Seq<(Seq<char>, Seq<u8>)> {
    members.map_values(|m: Member| m@)
}

/// A list of byte strings as sequences.
pub open spec fn texts_of(items: Seq<Vec<u8>>) -> Seq<Seq<u8>> {
    items.map_values(|v: Vec<u8>| v@)
}

/// The compact JSON text of the object whose members are the given pairs,
/// each value a JSON string.
pub uninterp spec fn json_object(fields: Seq<(Seq<char>, Seq<char>)>) -> Option<Seq<char>>;

/// The members of the JSON object that `text` holds, each value in compact
/// JSON text; `None` where `text` is no JSON object.
pub uninterp spec fn json_members(text: Seq<u8>) -> Option<Seq<(Seq<char>, Seq<u8>)>>;

/// The elements of the JSON array that `text` holds, each in compact JSON
/// text; `None` where `text` is no JSON array.
pub uninterp spec fn json_elements(text: Seq<u8>) -> Option<Seq<Seq<u8>>>;

/// The string that the JSON text holds; `None` where it holds no string.
pub uninterp spec fn json_string(text: Seq<u8>) -> Option<Seq<char>>;

/// The integer that the JSON text holds; `None` where it holds no integer
/// of 64 bits.
pub uninterp spec fn json_integer(text: Seq<u8>) -> Option<i64>;

/// The boolean that the JSON text holds; `None` where it holds none.
pub uninterp spec fn json_boolean(text: Seq<u8>) -> Option<bool>;

/// Writes an object of string members with `serde_json::to_string`,
/// handing it the members as a map from name to value.
///
/// Trusted: the result is the named `json_object` of the pairs, `None`
/// where the crate reports an error.
#[verifier::external_body]
pub(crate) fn write_object(fields: &Vec<Param>) -> (r: Option<String>)
    ensures
        text_of(r) == json_object(pairs_of(fields@)),
{
    let map: std::collections::BTreeMap<&str, &str> =
        fields.iter().map(|p| (p.name.as_str(), p.value.as_str())).collect();
    serde_json::to_string(&map).ok()
}

/// Reads a JSON object with `serde_json::from_slice`, as a map from name to
/// `serde_json::Value`, and hands out each member with its value written
/// back as text.
///
/// Trusted: the result is the named `json_members` of the bytes, `None`
/// where the crate reports an error.
#[verifier::external_body]
pub(crate) fn read_members(text: &[u8]) -> (r: Option<Vec<Member>>)
    ensures
        r.is_some() == json_members(text@).is_some(),
        r.is_some() ==> members_of(r.unwrap()@) == json_members(text@).unwrap(),
{
    let map: std::collections::BTreeMap<String, serde_json::Value> =
        serde_json::from_slice(text).ok()?;
    Some(
        map.into_iter().map(|(name, v)| Member { name, value: v.to_string().into_bytes() })
            .collect(),
    )
}

/// Reads a JSON array with `serde_json::from_slice`, as a list of
/// `serde_json::Value`, and hands out each element written back as text.
///
/// Trusted: the result is the named `json_elements` of the bytes, `None`
/// where the crate reports an error.
#[verifier::external_body]
pub(crate) fn read_elements(text: &[u8]) -> (r: Option<Vec<Vec<u8>>>)
    ensures
        r.is_some() == json_elements(text@).is_some(),
        r.is_some() ==> texts_of(r.unwrap()@) == json_elements(text@).unwrap(),
{
    let items: Vec<serde_json::Value> = serde_json::from_slice(text).ok()?;
    Some(items.into_iter().map(|v| v.to_string().into_bytes()).collect())
}

/// Reads a JSON string with `serde_json::from_slice`.
///
/// Trusted: the result is the named `json_string` of the bytes, `None`
/// where the crate reports an error.
#[verifier::external_body]
pub(crate) fn read_string(text: &[u8]) -> (r: Option<String>)
    ensures
        text_of(r) == json_string(text@),
{
    serde_json::from_slice::<String>(text).ok()
}

/// Reads a JSON integer with `serde_json::from_slice`.
///
/// Trusted: the result is the named `json_integer` of the bytes, `None`
/// where the crate reports an error.
#[verifier::external_body]
pub(crate) fn read_integer(text: &[u8]) -> (r: Option<i64>)
    ensures
        r == json_integer(text@),
{
    serde_json::from_slice::<i64>(text).ok()
}

/// Reads a JSON boolean with `serde_json::from_slice`.
///
/// Trusted: the result is the named `json_boolean` of the bytes, `None`
/// where the crate reports an error.
#[verifier::external_body]
pub(crate) fn read_boolean(text: &[u8]) -> (r: Option<bool>)
    ensures
        r == json_boolean(text@),
{
    serde_json::from_slice::<bool>(text).ok()
}

/// The value text of the first member called `name`.
pub open spec fn member_value(members: Seq<(Seq<char>, Seq<u8>)>, name: Seq<char>) -> Option<
    Seq<u8>,
>
    decreases members.len(),
{
    if members.len() == 0 {
        None
    } else if members[0].0 == name {
        Some(members[0].1)
    } else {
        member_value(members.drop_first(), name)
    }
}

/// Finds the first member called `name` and returns its place.
pub fn find_member(members: &Vec<Member>, name: &str) -> (r: Option<usize>)
    ensures
        match r {
            Some(i) => i < members.len() && members[i as int].name@ == name@ && member_value(
                members_of(members@),
                name@,
            ) == Some(members[i as int].value@) && forall|j: int|
                0 <= j < i ==> members[j].name@ != name@,
            None => member_value(members_of(members@), name@).is_none() && forall|j: int|
                0 <= j < members.len() ==> members[j].name@ != name@,
        },
{
    let wanted = name.to_owned();
    let ghost all = members_of(members@);
    let mut i: usize = 0;
    assert(all.skip(0) =~= all);
    while i < members.len()
        invariant
            i <= members.len(),
            wanted@ == name@,
            all == members_of(members@),
            member_value(all, name@) == member_value(all.skip(i as int), name@),
            forall|j: int| 0 <= j < i ==> members[j].name@ != name@,
        decreases members.len() - i,
    {
        let ghost rest = all.skip(i as int);
        assert(rest.len() > 0);
        assert(rest[0] == members[i as int]@);
        assert(rest.drop_first() =~= all.skip(i + 1));
        if members[i].name == wanted {
            return Some(i);
        }
        i = i + 1;
    }
    assert(all.skip(i as int).len() == 0);
    None
}

/// The string held by the first member called `name`.
pub open spec fn string_member(members: Seq<(Seq<char>, Seq<u8>)>, name: Seq<char>) -> Option<
    Seq<char>,
> {
    match member_value(members, name) {
        Some(text) => json_string(text),
        None => None,
    }
}

/// The integer held by the first member called `name`.
pub open spec fn integer_member(members: Seq<(Seq<char>, Seq<u8>)>, name: Seq<char>) -> Option<
    i64,
> {
    match member_value(members, name) {
        Some(text) => json_integer(text),
        None => None,
    }
}

/// The boolean held by the first member called `name`.
pub open spec fn boolean_member(members: Seq<(Seq<char>, Seq<u8>)>, name: Seq<char>) -> Option<
    bool,
> {
    match member_value(members, name) {
        Some(text) => json_boolean(text),
        None => None,
    }
}

/// Reads the string held by the first member called `name`.
pub fn get_string(members: &Vec<Member>, name: &str) -> (r: Option<String>)
    ensures
        text_of(r) == string_member(members_of(members@), name@),
{
    match find_member(members, name) {
        Some(i) => read_string(members[i].value.as_slice()),
        None => None,
    }
}

/// Reads the integer held by the first member called `name`.
pub fn get_integer(members: &Vec<Member>, name: &str) -> (r: Option<i64>)
    ensures
        r == integer_member(members_of(members@), name@),
{
    match find_member(members, name) {
        Some(i) => read_integer(members[i].value.as_slice()),
        None => None,
    }
}

/// Reads the boolean held by the first member called `name`.
pub fn get_boolean(members: &Vec<Member>, name: &str) -> (r: Option<bool>)
    ensures
        r == boolean_member(members_of(members@), name@),
{
    match find_member(members, name) {
        Some(i) => read_boolean(members[i].value.as_slice()),
        None => None,
    }
}

} // verus!
