use crate::utils::text::same_text;
use vstd::prelude::*;

verus! {

/// A number of a JSON document, carried without looking inside.
#[verifier::external_type_specification]
#[verifier::external_body]
pub struct ExJsonNumber(serde_json::Number);

/// A JSON document as a tree of plain values. An object keeps its members as
/// a list of name and value.
#[derive(Debug)]
pub enum Json {
    Null,
    Bool(bool),
    Number(serde_json::Number),
    Text(String),
    List(Vec<Json>),
    Object(Vec<(String, Json)>),
}

/// The document that `text` is the JSON for, or `None` where `text` is no
/// JSON document.
pub uninterp spec fn parsed_json(text: Seq<char>) -> Option<Json>;

/// The value of the first of `members` whose name is `name`.
pub open spec fn first_named(members: Seq<(String, Json)>, name: Seq<char>) -> Option<Json>
    decreases members.len(),
{
    if members.len() == 0 {
        None
    } else if members[0].0@ == name {
        Some(members[0].1)
    } else {
        first_named(members.drop_first(), name)
    }
}

/// Moves a `serde_json::Value` into a `Json`, variant for variant: nothing is
/// dropped, added or reordered.
#[verifier::external_body]
fn json_of_value(value: serde_json::Value) -> (json: Json) {
    match value {
        serde_json::Value::Null => Json::Null,
        serde_json::Value::Bool(flag) => Json::Bool(flag),
        serde_json::Value::Number(number) => Json::Number(number),
        serde_json::Value::String(text) => Json::Text(text),
        serde_json::Value::Array(items) => Json::List(
            items.into_iter().map(json_of_value).collect(),
        ),
        serde_json::Value::Object(members) => Json::Object(
            members.into_iter().map(|(name, value)| (name, json_of_value(value))).collect(),
        ),
    }
}

/// `serde_json::from_str` at the type `serde_json::Value`, with the value
/// moved into a `Json`: the document is a function of the text alone, and
/// there is one exactly where serde_json accepts the text.
#[verifier::external_body]
fn parse_value(text: &str) -> (document: Option<Json>)
    ensures
        document == parsed_json(text@),
{
    match serde_json::from_str::<serde_json::Value>(text) {
        Ok(value) => Some(json_of_value(value)),
        Err(_) => None,
    }
}

impl Json {
    /// The member called `name`, where `self` is an object that has one.
    pub open spec fn member(self, name: Seq<char>) -> Option<Json> {
        match self {
            Json::Object(members) => first_named(members@, name),
            _ => None,
        }
    }

    /// Reads a JSON document.
    pub fn parse(text: &str) -> (document: Option<Json>)
        ensures
            document == parsed_json(text@),
    {
        parse_value(text)
    }

    /// Looks up a member of an object by its name.
    pub fn get(&self, name: &str) -> (found: Option<&Json>)
        ensures
            match found {
                Some(value) => self.member(name@) == Some(*value),
                None => self.member(name@) is None,
            },
    {
        match self {
            Json::Object(members) => {
                let mut i: usize = 0;
                assert(members@.skip(0) =~= members@);
                while i < members.len()
                    invariant
                        i <= members.len(),
                        self.member(name@) == first_named(members@, name@),
                        first_named(members@, name@) == first_named(members@.skip(i as int), name@),
                    decreases members.len() - i,
                {
                    assert(members@.skip(i as int).drop_first() =~= members@.skip(i + 1));
                    if same_text(members[i].0.as_str(), name) {
                        return Some(&members[i].1);
                    }
                    i += 1;
                }
                None
            },
            _ => None,
        }
    }
}

} // verus!
