//! The members of a JSON object, as far as a ticket payload needs them.

use vstd::prelude::*;
use crate::text::text_equal;

verus! {

/// The value of one member of a JSON object. Texts and numbers are kept;
/// of an array or a nested object only its kind is.
#[derive(Debug)]
pub enum JsonField {
    Null,
    Bool(bool),
    /// A number, with its value where it is an integer that fits `i64`.
    Number(Option<i64>),
    Text(String),
    Array,
    Object,
}

/// A [`JsonField`] with its text as a sequence of characters.
pub enum JsonFieldView {
    Null,
    Bool(bool),
    Number(Option<i64>),
    Text(Seq<char>),
    Array,
    Object,
}

impl View for JsonField {
    type V = JsonFieldView;

    open spec fn view(&self) -> JsonFieldView {
        match self {
            JsonField::Null => JsonFieldView::Null,
            JsonField::Bool(b) => JsonFieldView::Bool(*b),
            JsonField::Number(n) => JsonFieldView::Number(*n),
            JsonField::Text(s) => JsonFieldView::Text(s@),
            JsonField::Array => JsonFieldView::Array,
            JsonField::Object => JsonFieldView::Object,
        }
    }
}

/// Named members in the order in which they are held.
pub type Members = Seq<(Seq<char>, JsonFieldView)>;

/// The view of a list of members: each name and value by its own view.
pub open spec fn members_view(members: Seq<(String, JsonField)>) -> Members {
    members.map_values(|member: (String, JsonField)| (member.0@, member.1@))
}

/// What `serde_json::from_slice` makes of the bytes when asked for a
/// `serde_json::Map`: the members of the object, or `None` where it reports
/// an error, as it does when the bytes are no JSON object.
pub uninterp spec fn json_object(bytes: Seq<u8>) -> Option<Members>;

/// The error of `serde_json`, passed on unread.
#[verifier::external_type_specification]
#[verifier::external_body]
pub struct ExJsonError(serde_json::Error);

/// `serde_json::from_slice` into a `serde_json::Map<String, Value>`, whose
/// members are then handed out one by one, each `Value` as the [`JsonField`]
/// of the same kind and a number through `Number::as_i64`. The outcome
/// depends on the bytes alone and is called [`json_object`].
#[verifier::external_body]
pub(crate) fn parse_json_object(bytes: &[u8]) -> (res: Result<
    Vec<(String, JsonField)>,
    serde_json::Error,
>)
    ensures
        res is Ok <==> json_object(bytes@) is Some,
        res matches Ok(members) ==> json_object(bytes@) == Some(members_view(members@)),
{
    let object: serde_json::Map<String, serde_json::Value> = serde_json::from_slice(bytes)?;
    Ok(object.into_iter().map(|(name, value)| (name, match value {
        serde_json::Value::Null => JsonField::Null,
        serde_json::Value::Bool(b) => JsonField::Bool(b),
        serde_json::Value::Number(n) => JsonField::Number(n.as_i64()),
        serde_json::Value::String(s) => JsonField::Text(s),
        serde_json::Value::Array(_) => JsonField::Array,
        serde_json::Value::Object(_) => JsonField::Object,
    })).collect())
}

/// The value of the first member called `name`, if there is one.
pub open spec fn member(members: Members, name: Seq<char>) -> Option<JsonFieldView>
    decreases members.len(),
{
    if members.len() == 0 {
        None
    } else if members[0].0 == name {
        Some(members[0].1)
    } else {
        member(members.drop_first(), name)
    }
}

/// The text of the first member called `name`, where that member is a text.
pub open spec fn text_member(members: Members, name: Seq<char>) -> Option<Seq<char>> {
    match member(members, name) {
        Some(JsonFieldView::Text(text)) => Some(text),
        _ => None,
    }
}

/// The value of the first member called `name`, where that member is an
/// integer that fits `i64`.
pub open spec fn integer_member(members: Members, name: Seq<char>) -> Option<int> {
    match member(members, name) {
        Some(JsonFieldView::Number(Some(value))) => Some(value as int),
        _ => None,
    }
}

/// The value of the first member called `name`.
pub fn find_member<'a>(members: &'a Vec<(String, JsonField)>, name: &str) -> (found: Option<
    &'a JsonField,
>)
    ensures
        match found {
            Some(field) => member(members_view(members@), name@) == Some(field@),
            None => member(members_view(members@), name@) is None,
        },
{
    let mut i: usize = 0;
    assert(members_view(members@).skip(0) == members_view(members@));
    while i < members.len()
        invariant
            i <= members.len(),
            member(members_view(members@), name@) == member(
                members_view(members@).skip(i as int),
                name@,
            ),
        decreases members.len() - i,
    {
        let ghost rest = members_view(members@).skip(i as int);
        assert(rest[0] == (members@[i as int].0@, members@[i as int].1@));
        assert(rest.drop_first() == members_view(members@).skip(i + 1));
        if text_equal(members[i].0.as_str(), name) {
            return Some(&members[i].1);
        }
        i += 1;
    }
    None
}

/// The text of the first member called `name`, where that member is a text.
pub fn find_text(members: &Vec<(String, JsonField)>, name: &str) -> (found: Option<String>)
    ensures
        match found {
            Some(text) => text_member(members_view(members@), name@) == Some(text@),
            None => text_member(members_view(members@), name@) is None,
        },
{
    match find_member(members, name) {
        Some(JsonField::Text(text)) => Some(text.clone()),
        _ => None,
    }
}

/// The value of the first member called `name`, where that member is an
/// integer that fits `i64`.
pub fn find_integer(members: &Vec<(String, JsonField)>, name: &str) -> (found: Option<i64>)
    ensures
        match found {
            Some(value) => integer_member(members_view(members@), name@) == Some(value as int),
            None => integer_member(members_view(members@), name@) is None,
        },
{
    match find_member(members, name) {
        Some(JsonField::Number(Some(value))) => Some(*value),
        _ => None,
    }
}

} // verus!
