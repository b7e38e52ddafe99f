//! The JSON layer under the command channel.
//!
//! A request is one JSON object whose fields hold texts, booleans or nulls.
//! Reading JSON text is left to `serde_json`; what this module hands on is
//! the list of the object's fields, each value reduced to what a command can
//! hold. Everything after that is decided on that list.

use vstd::prelude::*;
use vstd::string::*;
use vstd::utf8::*;

verus! {

/// The value of one field of a JSON object, as far as a command can use it.
#[derive(Debug, PartialEq, Eq)]
pub enum JsonValue {
    Null,
    Bool(bool),
    Text(String),
    /// A number, an array or an object: no field of any command takes one.
    Other,
}

/// What a `JsonValue` holds.
pub enum JsonValueView {
    Null,
    Bool(bool),
    Text(Seq<char>),
    Other,
}

impl View for JsonValue {
    type V = JsonValueView;

    open spec fn view(&self) -> JsonValueView {
        match self {
            JsonValue::Null => JsonValueView::Null,
            JsonValue::Bool(b) => JsonValueView::Bool(*b),
            JsonValue::Text(t) => JsonValueView::Text(t@),
            JsonValue::Other => JsonValueView::Other,
        }
    }
}

/// One field of a JSON object.
#[derive(Debug, PartialEq, Eq)]
pub struct JsonField {
    pub name: String,
    pub value: JsonValue,
}

/// What a `JsonField` holds.
pub struct JsonFieldView {
    pub name: Seq<char>,
    pub value: JsonValueView,
}

impl View for JsonField {
    type V = JsonFieldView;

    open spec fn view(&self) -> JsonFieldView {
        JsonFieldView { name: self.name@, value: self.value@ }
    }
}

/// The fields of a list, each by its view.
pub open spec fn fields_view(fields: Seq<JsonField>) -> Seq<JsonFieldView> {
    fields.map_values(|f: JsonField| f@)
}

/// The fields of the JSON object that `text` spells, in the order in which
/// `serde_json` keeps them; `None` where `text` is no JSON object.
pub uninterp spec fn json_object_fields(text: Seq<char>) -> Option<Seq<JsonFieldView>>;

/// The JSON string literal that `serde_json` writes for `text`: quoted and
/// escaped.
pub uninterp spec fn json_string(text: Seq<char>) -> Seq<char>;

/// Calls `core::str::from_utf8`. Trusted: it accepts exactly the byte
/// strings that are valid UTF-8, and the text it hands back has those bytes.
#[verifier::external_body]
pub(crate) fn utf8_text(bytes: &[u8]) -> (text: Option<&str>)
    ensures
        text is Some <==> valid_utf8(bytes@),
        text matches Some(t) ==> t.spec_bytes() == bytes@,
{
    core::str::from_utf8(bytes).ok()
}

/// Calls `serde_json::from_str` for a `serde_json::Map`, and hands its
/// entries out one by one: a text, a boolean and a null as they are, any
/// other value as `Other`. Trusted: the result is `json_object_fields` of the
/// text, nothing more.
#[verifier::external_body]
pub(crate) fn parse_object(text: &str) -> (fields: Option<Vec<JsonField>>)
    ensures
        fields is Some <==> json_object_fields(text@) is Some,
        fields matches Some(f) ==> Some(fields_view(f@)) == json_object_fields(text@),
{
    let map = serde_json::from_str::<serde_json::Map<String, serde_json::Value>>(text).ok()?;
    Some(map.into_iter().map(|(name, value)| JsonField {
        name,
        value: match value {
            serde_json::Value::Null => JsonValue::Null,
            serde_json::Value::Bool(b) => JsonValue::Bool(b),
            serde_json::Value::String(t) => JsonValue::Text(t),
            serde_json::Value::Number(_) => JsonValue::Other,
            serde_json::Value::Array(_) => JsonValue::Other,
            serde_json::Value::Object(_) => JsonValue::Other,
        },
    }).collect())
}

/// Calls `serde_json::to_string` on a text. Trusted: the result is
/// `json_string` of the text, nothing more.
#[verifier::external_body]
pub(crate) fn quote(text: &str) -> (literal: String)
    ensures
        literal@ == json_string(text@),
{
    serde_json::to_string(text).unwrap_or_default()
}

/// The value that `fields` gives to `name`: that of the last field of that
/// name, or none.
pub open spec fn field_value(fields: Seq<JsonFieldView>, name: Seq<char>) -> Option<JsonValueView>
    decreases fields.len(),
{
    if fields.len() == 0 {
        None
    } else if fields.last().name == name {
        Some(fields.last().value)
    } else {
        field_value(fields.drop_last(), name)
    }
}

/// Looks `name` up in `fields`.
pub fn find_field<'a>(fields: &'a Vec<JsonField>, name: &str) -> (value: Option<&'a JsonValue>)
    ensures
        value is Some <==> field_value(fields_view(fields@), name@) is Some,
        value matches Some(v) ==> Some(v@) == field_value(fields_view(fields@), name@),
{
    let ghost all = fields_view(fields@);
    let mut found: Option<&JsonValue> = None;
    let mut i: usize = 0;
    while i < fields.len()
        invariant
            i <= fields.len(),
            all == fields_view(fields@),
            found is Some <==> field_value(all.take(i as int), name@) is Some,
            found matches Some(v) ==> Some(v@) == field_value(all.take(i as int), name@),
        decreases fields.len() - i,
    {
        proof {
            assert(all.take(i + 1).drop_last() =~= all.take(i as int));
            assert(all.take(i + 1).last() == fields@[i as int]@);
        }
        if text_is(&fields[i].name, name) {
            found = Some(&fields[i].value);
        }
        i = i + 1;
    }
    proof {
        assert(all.take(i as int) =~= all);
    }
    found
}

/// Whether `text` is `other`, character for character.
pub fn text_is(text: &String, other: &str) -> (same: bool)
    ensures
        same == (text@ == other@),
{
    let a = text.as_str().as_bytes();
    let b = other.as_bytes();
    proof {
        encode_utf8_decode_utf8(text@);
        encode_utf8_decode_utf8(other@);
    }
    if a.len() != b.len() {
        return false;
    }
    let mut i: usize = 0;
    while i < a.len()
        invariant
            i <= a.len(),
            a.len() == b.len(),
            a@ == encode_utf8(text@),
            b@ == encode_utf8(other@),
            forall|k: int| 0 <= k < i ==> a@[k] == b@[k],
        decreases a.len() - i,
    {
        if a[i] != b[i] {
            return false;
        }
        i = i + 1;
    }
    proof {
        assert(a@ =~= b@);
    }
    true
}

/// The JSON text of a value; an `Other` has none.
pub open spec fn value_text(value: JsonValueView) -> Option<Seq<char>> {
    match value {
        JsonValueView::Null => Some("null"@),
        JsonValueView::Bool(true) => Some("true"@),
        JsonValueView::Bool(false) => Some("false"@),
        JsonValueView::Text(t) => Some(json_string(t)),
        JsonValueView::Other => None,
    }
}

/// Whether every value in `fields` has a JSON text.
pub open spec fn writable(fields: Seq<JsonFieldView>) -> bool {
    forall|i: int| 0 <= i < fields.len() ==> value_text(#[trigger] fields[i].value) is Some
}

/// The members of an object, as they stand between its braces: each name as
/// a string literal, a colon, the value, and a comma between two members.
pub open spec fn members_text(fields: Seq<JsonFieldView>) -> Seq<char>
    decreases fields.len(),
{
    if fields.len() == 0 {
        Seq::empty()
    } else {
        let before = members_text(fields.drop_last());
        let comma = if fields.len() == 1 {
            Seq::empty()
        } else {
            ","@
        };
        before + comma + json_string(fields.last().name) + ":"@ + value_text(
            fields.last().value,
        ).unwrap()
    }
}

/// The compact JSON text of the object with these fields, in this order.
pub open spec fn object_text(fields: Seq<JsonFieldView>) -> Seq<char> {
    "{"@ + members_text(fields) + "}"@
}

/// Writes the JSON text of a value, where it has one.
fn write_value(value: &JsonValue) -> (text: Option<String>)
    ensures
        text_option_view(text) == value_text(value@),
{
    match value {
        JsonValue::Null => Some("null".to_owned()),
        JsonValue::Bool(true) => Some("true".to_owned()),
        JsonValue::Bool(false) => Some("false".to_owned()),
        JsonValue::Text(t) => Some(quote(t.as_str())),
        JsonValue::Other => None,
    }
}

/// The text that an optional text holds, if any.
pub open spec fn text_option_view(text: Option<String>) -> Option<Seq<char>> {
    match text {
        Some(t) => Some(t@),
        None => None,
    }
}

/// Writes the object with these fields as compact JSON text. There is no
/// text where a value is `Other`.
pub fn write_object(fields: &Vec<JsonField>) -> (text: Option<String>)
    ensures
        text is Some <==> writable(fields_view(fields@)),
        text matches Some(t) ==> t@ == object_text(fields_view(fields@)),
{
    let ghost all = fields_view(fields@);
    let mut text = "{".to_owned();
    let mut i: usize = 0;
    while i < fields.len()
        invariant
            i <= fields.len(),
            all == fields_view(fields@),
            writable(all.take(i as int)),
            text@ == "{"@ + members_text(all.take(i as int)),
        decreases fields.len() - i,
    {
        proof {
            assert(all.take(i + 1).drop_last() =~= all.take(i as int));
            assert(all.take(i + 1).last() == fields@[i as int]@);
        }
        let value = match write_value(&fields[i].value) {
            Some(v) => v,
            None => {
                proof {
                    assert(all[i as int].value == fields@[i as int].value@);
                }
                return None;
            },
        };
        if i > 0 {
            text.append(",");
        }
        let name = quote(fields[i].name.as_str());
        text.append(name.as_str());
        text.append(":");
        text.append(value.as_str());
        proof {
            let next = all.take(i + 1);
            assert forall|k: int| 0 <= k < next.len() implies value_text(
                #[trigger] next[k].value,
            ) is Some by {
                if k < i {
                    assert(all.take(i as int)[k] == next[k]);
                }
            }
            assert(text@ =~= "{"@ + members_text(next));
        }
        i = i + 1;
    }
    proof {
        assert(all.take(i as int) =~= all);
    }
    text.append("}");
    Some(text)
}

/// Whether two lists give every name the same value. Lists that hold the
/// same fields in another order do, as long as no name occurs twice.
pub open spec fn same_lookups(a: Seq<JsonFieldView>, b: Seq<JsonFieldView>) -> bool {
    forall|name: Seq<char>| #[trigger] field_value(a, name) == field_value(b, name)
}

/// A name that occurs in a list has a value there.
pub proof fn lemma_field_has_value(fields: Seq<JsonFieldView>, i: int)
    requires
        0 <= i < fields.len(),
    ensures
        field_value(fields, fields[i].name) is Some,
    decreases fields.len(),
{
    if fields.last().name != fields[i].name {
        assert(fields.drop_last()[i] == fields[i]);
        lemma_field_has_value(fields.drop_last(), i);
    }
}

/// A name that has a value in a list occurs there.
pub proof fn lemma_value_has_field(fields: Seq<JsonFieldView>, name: Seq<char>)
    requires
        field_value(fields, name) is Some,
    ensures
        exists|i: int| 0 <= i < fields.len() && (#[trigger] fields[i]).name == name,
    decreases fields.len(),
{
    if fields.last().name == name {
        assert(fields[fields.len() - 1].name == name);
    } else {
        lemma_value_has_field(fields.drop_last(), name);
        let i = choose|i: int|
            0 <= i < fields.drop_last().len() && (#[trigger] fields.drop_last()[i]).name == name;
        assert(fields[i] == fields.drop_last()[i]);
    }
}

} // verus!
