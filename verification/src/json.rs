//! Reading JSON bodies. Parsing is done by `serde_json`; what it returns is
//! taken on trust and named here, and everything that is decided on the
//! parsed document is verified against that name.

use vstd::prelude::*;
use crate::text::text_eq;

verus! {

#[verifier::external_type_specification]
#[verifier::external_body]
pub struct ExError(serde_json::Error);

/// One member of a JSON object as contracts see it: its key, and its text
/// if its value is a JSON string.
pub type MemberView = (Seq<char>, Option<Seq<char>>);

/// The members of the JSON object that `bytes` hold as JSON text; `None`
/// when the bytes are not one complete JSON text or the text is no object.
pub uninterp spec fn json_object(bytes: Seq<u8>) -> Option<Seq<MemberView>>;

/// One member as contracts see it.
pub open spec fn member_view(member: (String, Option<String>)) -> MemberView {
    (
        member.0@,
        match member.1 {
            Some(text) => Some(text@),
            None => None,
        },
    )
}

/// A list of members as contracts see it.
pub open spec fn members_view(members: Seq<(String, Option<String>)>) -> Seq<MemberView> {
    members.map_values(|member: (String, Option<String>)| member_view(member))
}

/// Calls `serde_json::from_slice` for a JSON object and hands out its
/// members, each with its key and, where the value is a JSON string, its
/// text. Trusted: the outcome depends on the bytes alone, so the members are
/// the named ones for these bytes, and there is an error exactly when the
/// bytes hold no object.
#[verifier::external_body]
fn from_slice(bytes: &[u8]) -> (parsed: Result<Vec<(String, Option<String>)>, serde_json::Error>)
    ensures
        match parsed {
            Ok(members) => json_object(bytes@) == Some(members_view(members@)),
            Err(_) => json_object(bytes@) is None,
        },
{
    let object = serde_json::from_slice::<serde_json::Map<String, serde_json::Value>>(bytes)?;
    Ok(
        object.into_iter().map(
            |(key, value)|
                match value {
                    serde_json::Value::String(text) => (key, Some(text)),
                    _ => (key, None),
                },
        ).collect(),
    )
}

/// The text of the first member under `key`; `None` when there is no member
/// under `key`, or the first one is no JSON string.
pub open spec fn text_member(members: Seq<MemberView>, key: Seq<char>) -> Option<Seq<char>>
    decreases members.len(),
{
    if members.len() == 0 {
        None
    } else if members[0].0 == key {
        members[0].1
    } else {
        text_member(members.drop_first(), key)
    }
}

/// The text of the member under `key` of the JSON object that `bytes` hold;
/// `None` when they hold no object, the object has no such member, or the
/// member is no JSON string.
pub open spec fn text_member_in(bytes: Seq<u8>, key: Seq<char>) -> Option<Seq<char>> {
    match json_object(bytes) {
        Some(members) => text_member(members, key),
        None => None,
    }
}

/// A parsed JSON object.
pub struct Document {
    /// The members, each with its key and, where its value is a JSON string,
    /// its text.
    pub members: Vec<(String, Option<String>)>,
}

impl View for Document {
    type V = Seq<MemberView>;

    open spec fn view(&self) -> Seq<MemberView> {
        members_view(self.members@)
    }
}

impl Document {
    /// Parses `bytes` as one JSON object. There is a document exactly when
    /// the bytes hold one.
    pub fn parse(bytes: &[u8]) -> (document: Option<Document>)
        ensures
            match document {
                Some(d) => json_object(bytes@) == Some(d@),
                None => json_object(bytes@) is None,
            },
    {
        match from_slice(bytes) {
            Ok(members) => Some(Document { members }),
            Err(_) => None,
        }
    }

    /// The text of the string member under `key`.
    pub fn text(&self, key: &str) -> (text: Option<String>)
        ensures
            match text {
                Some(t) => text_member(self@, key@) == Some(t@),
                None => text_member(self@, key@) is None,
            },
    {
        let mut i: usize = 0;
        assert(self@.subrange(0, self@.len() as int) =~= self@);
        while i < self.members.len()
            invariant
                i <= self.members.len(),
                text_member(self@, key@) == text_member(
                    self@.subrange(i as int, self@.len() as int),
                    key@,
                ),
            decreases self.members.len() - i,
        {
            let ghost rest = self@.subrange(i as int, self@.len() as int);
            assert(rest[0] == self@[i as int]);
            assert(rest.drop_first() == self@.subrange(i + 1, self@.len() as int));
            if text_eq(self.members[i].0.as_str(), key) {
                return match &self.members[i].1 {
                    Some(text) => Some(text.clone()),
                    None => None,
                };
            }
            i += 1;
        }
        None
    }
}

} // verus!
