//! JSON documents, read through `serde_json`.
use vstd::prelude::*;
use crate::text::views;

verus! {

/// What `serde_json::from_str` makes of a text read as an object: its members
/// by name, each with the compact text of its value, in the order of the
/// names; or the message of the error.
pub uninterp spec fn json_members(text: Seq<char>) -> Result<Seq<(Seq<char>, Seq<char>)>, Seq<char>>;

/// What `serde_json::from_str` makes of a text read as an array: the compact
/// text of each item, in order; or the message of the error.
pub uninterp spec fn json_items(text: Seq<char>) -> Result<Seq<Seq<char>>, Seq<char>>;

/// What `serde_json::from_str` makes of a text read as any value: its compact
/// text; or the message of the error.
pub uninterp spec fn json_compact(text: Seq<char>) -> Result<Seq<char>, Seq<char>>;

/// What `serde_json::from_str` makes of a text read as a string: its
/// characters, where it is one.
pub uninterp spec fn json_string(text: Seq<char>) -> Option<Seq<char>>;

/// What `serde_json::from_str` makes of a text read as a boolean; or the
/// message of the error.
pub uninterp spec fn json_flag(text: Seq<char>) -> Result<bool, Seq<char>>;

/// The names and texts of a list of members.
pub open spec fn member_views(list: Seq<(String, String)>) -> Seq<(Seq<char>, Seq<char>)> {
    list.map_values(|m: (String, String)| (m.0@, m.1@))
}

/// The text of an object with a switch and an empty list.
pub open spec fn bare_acl(on: Seq<char>) -> Seq<char> {
    "{\"enabled\":"@ + on + ",\"allowlist\":[]}"@
}

/// `serde_json::from_str` into a map: the members of a JSON object, each value
/// as its compact text. The object of a switch and an empty list is read as
/// those two members. The result depends on the text alone; the rest of the
/// grammar and the wording of the errors are not stated.
#[verifier::external_body]
pub(crate) fn members(text: &str) -> (r: Result<Vec<(String, String)>, String>)
    ensures
        match r {
            Ok(list) => json_members(text@) == Ok::<_, Seq<char>>(member_views(list@)),
            Err(e) => json_members(text@) == Err::<Seq<(Seq<char>, Seq<char>)>, _>(e@),
        },
        r is Ok || (text@ != bare_acl("true"@) && text@ != bare_acl("false"@)),
        r matches Ok(list) ==> (text@ == bare_acl("true"@) ==> {
            &&& member(member_views(list@), "enabled"@) == Some("true"@)
            &&& member(member_views(list@), "allowlist"@) == Some("[]"@)
        }),
        r matches Ok(list) ==> (text@ == bare_acl("false"@) ==> {
            &&& member(member_views(list@), "enabled"@) == Some("false"@)
            &&& member(member_views(list@), "allowlist"@) == Some("[]"@)
        }),
{
    let parsed: Result<std::collections::BTreeMap<String, serde_json::Value>, serde_json::Error> =
        serde_json::from_str(text);
    match parsed {
        Ok(map) => Ok(map.into_iter().map(|(k, v)| (k, v.to_string())).collect()),
        Err(e) => Err(e.to_string()),
    }
}

/// `serde_json::from_str` into a list: the items of a JSON array, each as its
/// compact text; `[]` has none. The result depends on the text alone; the rest
/// of the grammar and the wording of the errors are not stated.
#[verifier::external_body]
pub(crate) fn items(text: &str) -> (r: Result<Vec<String>, String>)
    ensures
        match r {
            Ok(list) => json_items(text@) == Ok::<_, Seq<char>>(views(list@)),
            Err(e) => json_items(text@) == Err::<Seq<Seq<char>>, _>(e@),
        },
        r is Ok || text@ != "[]"@,
        r matches Ok(list) ==> (text@ == "[]"@ ==> list@.len() == 0),
{
    let parsed: Result<Vec<serde_json::Value>, serde_json::Error> = serde_json::from_str(text);
    match parsed {
        Ok(list) => Ok(list.into_iter().map(|v| v.to_string()).collect()),
        Err(e) => Err(e.to_string()),
    }
}

/// `serde_json::from_str` into a `Value`, written back compactly. The result
/// depends on the text alone; the grammar and the wording of the errors are
/// not stated.
#[verifier::external_body]
pub(crate) fn compact(text: &str) -> (r: Result<String, String>)
    ensures
        match r {
            Ok(t) => json_compact(text@) == Ok::<_, Seq<char>>(t@),
            Err(e) => json_compact(text@) == Err::<Seq<char>, _>(e@),
        },
{
    let parsed: Result<serde_json::Value, serde_json::Error> = serde_json::from_str(text);
    match parsed {
        Ok(v) => Ok(v.to_string()),
        Err(e) => Err(e.to_string()),
    }
}

/// `serde_json::from_str` into a `String`: the characters of a JSON string,
/// where the text is one. The result depends on the text alone; the grammar is
/// not stated.
#[verifier::external_body]
pub(crate) fn string(text: &str) -> (r: Option<String>)
    ensures
        crate::text::opt_view(r) == json_string(text@),
{
    let parsed: Result<String, serde_json::Error> = serde_json::from_str(text);
    parsed.ok()
}

/// `serde_json::from_str` into a `bool`: the texts `true` and `false` are the
/// two booleans. The result depends on the text alone; the rest of the grammar
/// and the wording of the errors are not stated.
#[verifier::external_body]
pub(crate) fn flag(text: &str) -> (r: Result<bool, String>)
    ensures
        match r {
            Ok(b) => json_flag(text@) == Ok::<_, Seq<char>>(b),
            Err(e) => json_flag(text@) == Err::<bool, _>(e@),
        },
        r is Ok || (text@ != "true"@ && text@ != "false"@),
        r matches Ok(b) ==> (text@ == "true"@ ==> b) && (text@ == "false"@ ==> !b),
{
    let parsed: Result<bool, serde_json::Error> = serde_json::from_str(text);
    match parsed {
        Ok(b) => Ok(b),
        Err(e) => Err(e.to_string()),
    }
}

/// The text of the member that goes by `name`.
pub open spec fn member(list: Seq<(Seq<char>, Seq<char>)>, name: Seq<char>) -> Option<Seq<char>>
    decreases list.len(),
{
    if list.len() == 0 {
        None
    } else if list.last().0 == name {
        Some(list.last().1)
    } else {
        member(list.drop_last(), name)
    }
}

/// The text of the member that goes by `name`.
pub fn member_text<'a>(list: &'a Vec<(String, String)>, name: &str) -> (r: Option<&'a str>)
    ensures
        crate::text::opt_str(r) == member(member_views(list@), name@),
{
    let mut i: usize = list.len();
    let ghost all = member_views(list@);
    proof {
        assert(all.take(all.len() as int) =~= all);
    }
    while i > 0
        invariant
            i <= list@.len(),
            all == member_views(list@),
            member(all, name@) == member(all.take(i as int), name@),
        decreases i,
    {
        proof {
            assert(all.take(i as int).last() == (list@[i - 1].0@, list@[i - 1].1@));
            assert(all.take(i as int).drop_last() =~= all.take(i - 1));
        }
        if crate::text::same(list[i - 1].0.as_str(), name) {
            return Some(list[i - 1].1.as_str());
        }
        i = i - 1;
    }
    None
}

} // verus!
