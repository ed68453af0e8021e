//! JSON documents as values of the library.
//!
//! The text of a document is read by the serde_json crate; what it found is
//! handed out as a [`Json`] tree, and the decoding rules work on that tree.

use vstd::prelude::*;

verus! {

/// `serde_json::Value`: a parsed document, passed on unopened until it is
/// turned into a [`Json`].
#[verifier::external_type_specification]
#[verifier::external_body]
pub struct ExJsonValue(serde_json::Value);

/// A JSON value.
#[derive(Debug, PartialEq, Eq)]
pub enum Json {
    /// `null`
    Null,
    /// `true` or `false`
    Bool(bool),
    /// A number, as decimal text: the digits that stood in the document.
    Number(String),
    /// A string, unescaped.
    Text(String),
    /// An array.
    List(Vec<Json>),
    /// An object: its members in the order in which they are searched.
    Object(Vec<Member>),
}

/// One member of a JSON object.
#[derive(Debug, PartialEq, Eq)]
pub struct Member {
    /// The member's name.
    pub key: String,
    /// The member's value.
    pub value: Json,
}

/// The value of the first member of `members` that is called `key`.
pub open spec fn find(members: Seq<Member>, key: Seq<char>) -> Option<Json>
    decreases members.len(),
{
    if members.len() == 0 {
        None
    } else if members[0].key@ == key {
        Some(members[0].value)
    } else {
        find(members.drop_first(), key)
    }
}

/// The document that the serde_json crate reads from `bytes`, or `None` where it
/// rejects them.
pub uninterp spec fn json_document(bytes: Seq<u8>) -> Option<Json>;

/// What a `serde_json::Value` holds, as a [`Json`]: the same variant with the
/// same contents. A number is the text that `Number`'s `Display` prints, an
/// object its members in the order in which `serde_json::Map` walks them.
pub uninterp spec fn value_tree(value: serde_json::Value) -> Json;

/// Calls `serde_json::from_slice` for a `serde_json::Value`.
///
/// Trusted: the outcome is a function of the bytes alone, named
/// [`json_document`]; `None` stands for the error that serde_json reports.
#[verifier::external_body]
fn read_value(bytes: &[u8]) -> (r: Option<serde_json::Value>)
    ensures
        match r {
            Some(value) => json_document(bytes@) == Some(value_tree(value)),
            None => json_document(bytes@) is None,
        },
{
    serde_json::from_slice::<serde_json::Value>(bytes).ok()
}

/// Takes a `serde_json::Value` apart, variant by variant, and hands out what it
/// holds.
///
/// Trusted: the result is [`value_tree`] of the value.
#[verifier::external_body]
fn value_into_json(value: serde_json::Value) -> (tree: Json)
    ensures
        tree == value_tree(value),
{
    match value {
        serde_json::Value::Null => Json::Null,
        serde_json::Value::Bool(flag) => Json::Bool(flag),
        serde_json::Value::Number(number) => Json::Number(number.to_string()),
        serde_json::Value::String(text) => Json::Text(text),
        serde_json::Value::Array(items) => Json::List(
            items.into_iter().map(value_into_json).collect(),
        ),
        serde_json::Value::Object(members) => Json::Object(
            members.into_iter().map(|(key, v)| Member { key, value: value_into_json(v) }).collect(),
        ),
    }
}

impl Json {
    /// The member `key` of an object; `None` for a missing member and for a
    /// value that is no object.
    pub open spec fn member(self, key: Seq<char>) -> Option<Json> {
        match self {
            Json::Object(members) => find(members@, key),
            _ => None,
        }
    }

    /// Reads a JSON document. `None` where the bytes are no JSON text.
    pub fn parse(bytes: &[u8]) -> (r: Option<Json>)
        ensures
            r == json_document(bytes@),
    {
        match read_value(bytes) {
            Some(value) => Some(value_into_json(value)),
            None => None,
        }
    }

    /// Looks up the member `key` of an object.
    pub fn get(&self, key: &str) -> (r: Option<&Json>)
        ensures
            match r {
                Some(value) => self.member(key@) == Some(*value),
                None => self.member(key@) is None,
            },
    {
        match self {
            Json::Object(members) => {
                let wanted = key.to_owned();
                let mut i: usize = 0;
                assert(members@.skip(0) =~= members@);
                while i < members.len()
                    invariant
                        i <= members.len(),
                        wanted@ == key@,
                        self.member(key@) == find(members@, key@),
                        find(members@, key@) == find(members@.skip(i as int), key@),
                    decreases members.len() - i,
                {
                    assert(members@.skip(i as int).drop_first() =~= members@.skip(i + 1));
                    if members[i].key == wanted {
                        return Some(&members[i].value);
                    }
                    i = i + 1;
                }
                None
            },
            _ => None,
        }
    }

    /// The flag that a JSON boolean holds.
    pub fn as_bool(&self) -> (r: Option<bool>)
        ensures
            r == match *self {
                Json::Bool(flag) => Some(flag),
                _ => None,
            },
    {
        match self {
            Json::Bool(flag) => Some(*flag),
            _ => None,
        }
    }
}

} // verus!
