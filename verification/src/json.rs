//! A JSON document model with field access, and the text codec behind it.

use vstd::prelude::*;

use crate::number::{i64_of, parse_i64};
use crate::time::{rfc3339_instant, Timestamp};

verus! {

/// The mathematical value of a JSON document.
///
/// Numbers are kept as their literal text, so that no precision is lost and
/// no rounding takes place inside this crate.
pub enum JsonView {
    Null,
    Bool(bool),
    Number(Seq<char>),
    Text(Seq<char>),
    Array(Seq<JsonView>),
    Object(Seq<(Seq<char>, JsonView)>),
}

/// A JSON document.
#[derive(Debug, PartialEq)]
pub enum Json {
    Null,
    Bool(bool),
    Number(String),
    Text(String),
    Array(Vec<Json>),
    Object(Vec<(String, Json)>),
}

/// The value of a document: strings and vectors become sequences.
pub open spec fn json_view(j: Json) -> JsonView
    decreases j,
{
    match j {
        Json::Null => JsonView::Null,
        Json::Bool(b) => JsonView::Bool(b),
        Json::Number(n) => JsonView::Number(n@),
        Json::Text(s) => JsonView::Text(s@),
        Json::Array(items) => JsonView::Array(
            Seq::new(
                items@.len(),
                |i: int|
                    if 0 <= i < items@.len() {
                        json_view(items@[i])
                    } else {
                        JsonView::Null
                    },
            ),
        ),
        Json::Object(fields) => JsonView::Object(
            Seq::new(
                fields@.len(),
                |i: int|
                    if 0 <= i < fields@.len() {
                        (fields@[i].0@, json_view(fields@[i].1))
                    } else {
                        (Seq::empty(), JsonView::Null)
                    },
            ),
        ),
    }
}

impl View for Json {
    type V = JsonView;

    open spec fn view(&self) -> JsonView {
        json_view(*self)
    }
}

/// The value stored under `key` in a list of object members: the first
/// member with that key, if there is one.
pub open spec fn member(fields: Seq<(Seq<char>, JsonView)>, key: Seq<char>) -> Option<JsonView>
    decreases fields.len(),
{
    if fields.len() == 0 {
        None
    } else if fields[0].0 == key {
        Some(fields[0].1)
    } else {
        member(fields.skip(1), key)
    }
}

/// The value of field `key` of `j`: `None` where `j` is not an object or has
/// no such field.
pub open spec fn field(j: JsonView, key: Seq<char>) -> Option<JsonView> {
    match j {
        JsonView::Object(fields) => member(fields, key),
        _ => None,
    }
}

/// Whether two texts hold the same characters.
pub fn same_text(a: &str, b: &str) -> (r: bool)
    ensures
        r == (a@ == b@),
{
    let x = a.to_owned();
    let y = b.to_owned();
    x == y
}

impl Json {
    /// Looks up field `key`.
    pub fn get(&self, key: &str) -> (r: Option<&Json>)
        ensures
            match r {
                Some(v) => field(self@, key@) == Some(v@),
                None => field(self@, key@).is_none(),
            },
    {
        match self {
            Json::Object(fields) => {
                let ghost all = self@->Object_0;
                let mut i: usize = 0;
                assert(all.skip(0) =~= all);
                while i < fields.len()
                    invariant
                        i <= fields@.len(),
                        self@ == JsonView::Object(all),
                        all.len() == fields@.len(),
                        member(all, key@) == member(all.skip(i as int), key@),
                        forall|k: int|
                            0 <= k < fields@.len() ==> #[trigger] all[k] == (
                                fields@[k].0@,
                                fields@[k].1@,
                            ),
                    decreases fields@.len() - i,
                {
                    assert(all.skip(i as int)[0] == all[i as int]);
                    if same_text(fields[i].0.as_str(), key) {
                        return Some(&fields[i].1);
                    }
                    assert(all.skip(i as int).skip(1) =~= all.skip(i as int + 1));
                    i = i + 1;
                }
                assert(all.skip(i as int).len() == 0);
                None
            },
            _ => None,
        }
    }
}

/// The document that a JSON text denotes; `None` where the text is not
/// well-formed JSON.
pub uninterp spec fn parsed_json(text: Seq<char>) -> Option<JsonView>;

/// The compact JSON text of a document; `None` where one of its numbers is
/// not a number literal.
pub uninterp spec fn json_text(j: JsonView) -> Option<Seq<char>>;

/// `serde_json::Value`, which passes between the steps of the text codec.
/// Nothing is known of what it holds.
#[verifier::external_type_specification]
#[verifier::external_body]
pub struct ExValue(serde_json::Value);

/// Rewrites a `serde_json::Value` as a `Json`, variant by variant; a number
/// becomes the text that `serde_json::Number` displays.
#[verifier::external_body]
fn lift(value: &serde_json::Value) -> Json {
    match value {
        serde_json::Value::Null => Json::Null,
        serde_json::Value::Bool(b) => Json::Bool(*b),
        serde_json::Value::Number(n) => Json::Number(n.to_string()),
        serde_json::Value::String(s) => Json::Text(s.clone()),
        serde_json::Value::Array(items) => Json::Array(items.iter().map(lift).collect()),
        serde_json::Value::Object(fields) => Json::Object(
            fields.iter().map(|(k, v)| (k.clone(), lift(v))).collect(),
        ),
    }
}

/// Rewrites a `Json` as a `serde_json::Value`, variant by variant; a number
/// is read by `serde_json::from_str`, and there is no value where that
/// fails.
#[verifier::external_body]
fn lower(j: &Json) -> Option<serde_json::Value> {
    Some(match j {
        Json::Null => serde_json::Value::Null,
        Json::Bool(b) => serde_json::Value::Bool(*b),
        Json::Number(n) => serde_json::Value::Number(serde_json::from_str(n).ok()?),
        Json::Text(s) => serde_json::Value::String(s.clone()),
        Json::Array(items) => serde_json::Value::Array(
            items.iter().map(lower).collect::<Option<_>>()?,
        ),
        Json::Object(fields) => serde_json::Value::Object(
            fields.iter().map(|(k, v)| Some((k.clone(), lower(v)?))).collect::<Option<_>>()?,
        ),
    })
}

/// Calls `serde_json::from_str` for a `serde_json::Value`. The document is a
/// function of the text alone, recorded under the name `parsed_json`; there
/// is none exactly where `from_str` returns an error.
#[verifier::external_body]
fn parse_text(text: &str) -> (r: Option<Json>)
    ensures
        match r {
            Some(j) => parsed_json(text@) == Some(j@),
            None => parsed_json(text@).is_none(),
        },
{
    serde_json::from_str::<serde_json::Value>(text).ok().map(|value| lift(&value))
}

/// Calls `serde_json::to_string` on the document as a `serde_json::Value`.
/// The text is a function of the document alone, recorded under the name
/// `json_text`; there is none exactly where a number of the document is not
/// a number literal.
#[verifier::external_body]
fn render_text(j: &Json) -> (r: Option<String>)
    ensures
        match r {
            Some(text) => json_text(j@) == Some(text@),
            None => json_text(j@).is_none(),
        },
{
    lower(j).and_then(|value| serde_json::to_string(&value).ok())
}

/// The text of a string document.
pub open spec fn text_of(j: JsonView) -> Option<Seq<char>> {
    match j {
        JsonView::Text(s) => Some(s),
        _ => None,
    }
}

/// The literal of a number document.
pub open spec fn number_of(j: JsonView) -> Option<Seq<char>> {
    match j {
        JsonView::Number(n) => Some(n),
        _ => None,
    }
}

/// The integer of a number document, where its literal denotes one that fits
/// in 64 signed bits.
pub open spec fn integer_of_json(j: JsonView) -> Option<i64> {
    match j {
        JsonView::Number(n) => i64_of(n),
        _ => None,
    }
}

/// The truth value of a boolean document.
pub open spec fn flag_of(j: JsonView) -> Option<bool> {
    match j {
        JsonView::Bool(b) => Some(b),
        _ => None,
    }
}

/// The instant of a string document that holds a date-time.
pub open spec fn instant_of(j: JsonView) -> Option<Timestamp> {
    match j {
        JsonView::Text(s) => match rfc3339_instant(s) {
            Some((secs, nanos)) => Some(Timestamp { secs, nanos }),
            None => None,
        },
        _ => None,
    }
}

/// The items of an array document.
pub open spec fn items_of(j: JsonView) -> Option<Seq<JsonView>> {
    match j {
        JsonView::Array(items) => Some(items),
        _ => None,
    }
}

/// A required string field.
pub open spec fn text_at(j: JsonView, key: Seq<char>) -> Option<Seq<char>> {
    match field(j, key) {
        Some(v) => text_of(v),
        None => None,
    }
}

/// A string field that may be absent, and is then `fallback`.
pub open spec fn text_or(j: JsonView, key: Seq<char>, fallback: Seq<char>) -> Option<Seq<char>> {
    match field(j, key) {
        Some(v) => text_of(v),
        None => Some(fallback),
    }
}

/// A required number field, as its literal.
pub open spec fn number_at(j: JsonView, key: Seq<char>) -> Option<Seq<char>> {
    match field(j, key) {
        Some(v) => number_of(v),
        None => None,
    }
}

/// A number field that may be absent, and is then `fallback`.
pub open spec fn number_or(j: JsonView, key: Seq<char>, fallback: Seq<char>) -> Option<
    Seq<char>,
> {
    match field(j, key) {
        Some(v) => number_of(v),
        None => Some(fallback),
    }
}

/// A required integer field.
pub open spec fn integer_at(j: JsonView, key: Seq<char>) -> Option<i64> {
    match field(j, key) {
        Some(v) => integer_of_json(v),
        None => None,
    }
}

/// A required boolean field.
pub open spec fn flag_at(j: JsonView, key: Seq<char>) -> Option<bool> {
    match field(j, key) {
        Some(v) => flag_of(v),
        None => None,
    }
}

/// A required date-time field.
pub open spec fn instant_at(j: JsonView, key: Seq<char>) -> Option<Timestamp> {
    match field(j, key) {
        Some(v) => instant_of(v),
        None => None,
    }
}

/// A required array field.
pub open spec fn items_at(j: JsonView, key: Seq<char>) -> Option<Seq<JsonView>> {
    match field(j, key) {
        Some(v) => items_of(v),
        None => None,
    }
}

impl Json {
    /// Reads a JSON text.
    pub fn parse(text: &str) -> (r: Option<Json>)
        ensures
            match r {
                Some(j) => parsed_json(text@) == Some(j@),
                None => parsed_json(text@).is_none(),
            },
    {
        parse_text(text)
    }

    /// Writes the document as compact JSON text.
    pub fn render(&self) -> (r: Option<String>)
        ensures
            match r {
                Some(text) => json_text(self@) == Some(text@),
                None => json_text(self@).is_none(),
            },
    {
        render_text(self)
    }

    /// A required string field.
    pub fn text_field(&self, key: &str) -> (r: Option<String>)
        ensures
            match r {
                Some(s) => text_at(self@, key@) == Some(s@),
                None => text_at(self@, key@).is_none(),
            },
    {
        match self.get(key) {
            Some(Json::Text(s)) => Some(s.clone()),
            _ => None,
        }
    }

    /// A string field that may be absent, and is then `fallback`.
    pub fn text_field_or(&self, key: &str, fallback: &str) -> (r: Option<String>)
        ensures
            match r {
                Some(s) => text_or(self@, key@, fallback@) == Some(s@),
                None => text_or(self@, key@, fallback@).is_none(),
            },
    {
        match self.get(key) {
            Some(Json::Text(s)) => Some(s.clone()),
            Some(_) => None,
            None => Some(String::from_str(fallback)),
        }
    }

    /// A required number field, as its literal.
    pub fn number_field(&self, key: &str) -> (r: Option<String>)
        ensures
            match r {
                Some(s) => number_at(self@, key@) == Some(s@),
                None => number_at(self@, key@).is_none(),
            },
    {
        match self.get(key) {
            Some(Json::Number(n)) => Some(n.clone()),
            _ => None,
        }
    }

    /// A number field that may be absent, and is then `fallback`.
    pub fn number_field_or(&self, key: &str, fallback: &str) -> (r: Option<String>)
        ensures
            match r {
                Some(s) => number_or(self@, key@, fallback@) == Some(s@),
                None => number_or(self@, key@, fallback@).is_none(),
            },
    {
        match self.get(key) {
            Some(Json::Number(n)) => Some(n.clone()),
            Some(_) => None,
            None => Some(String::from_str(fallback)),
        }
    }

    /// A required integer field.
    pub fn integer_field(&self, key: &str) -> (r: Option<i64>)
        ensures
            r == integer_at(self@, key@),
    {
        match self.get(key) {
            Some(Json::Number(n)) => parse_i64(n.as_str()),
            _ => None,
        }
    }

    /// A required boolean field.
    pub fn flag_field(&self, key: &str) -> (r: Option<bool>)
        ensures
            r == flag_at(self@, key@),
    {
        match self.get(key) {
            Some(Json::Bool(b)) => Some(*b),
            _ => None,
        }
    }

    /// A required date-time field.
    pub fn instant_field(&self, key: &str) -> (r: Option<Timestamp>)
        ensures
            r == instant_at(self@, key@),
    {
        match self.get(key) {
            Some(Json::Text(s)) => Timestamp::parse(s.as_str()),
            _ => None,
        }
    }

    /// A required array field.
    pub fn items_field(&self, key: &str) -> (r: Option<&Vec<Json>>)
        ensures
            match r {
                Some(items) => items_at(self@, key@) == Some(views_of(items@)),
                None => items_at(self@, key@).is_none(),
            },
    {
        match self.get(key) {
            Some(Json::Array(items)) => {
                assert(Json::Array(*items)@->Array_0 =~= views_of(items@));
                Some(items)
            },
            _ => None,
        }
    }
}

impl Json {
    /// Takes the value of field `key` out of the document; `Null` where the
    /// document is not an object or has no such field.
    pub fn take(self, key: &str) -> (r: Json)
        ensures
            r@ == (match field(self@, key@) {
                Some(v) => v,
                None => JsonView::Null,
            }),
    {
        let ghost whole = self@;
        match self {
            Json::Object(fields) => {
                let mut fields = fields;
                let ghost all = whole->Object_0;
                let mut i: usize = 0;
                assert(all.skip(0) =~= all);
                while i < fields.len()
                    invariant
                        i <= fields@.len(),
                        whole == self@,
                        whole == JsonView::Object(all),
                        all.len() == fields@.len(),
                        member(all, key@) == member(all.skip(i as int), key@),
                        forall|k: int|
                            0 <= k < fields@.len() ==> #[trigger] all[k] == (
                                fields@[k].0@,
                                fields@[k].1@,
                            ),
                    decreases fields@.len() - i,
                {
                    assert(all.skip(i as int)[0] == all[i as int]);
                    if same_text(fields[i].0.as_str(), key) {
                        let ghost hit = fields@[i as int];
                        let found = fields.remove(i);
                        assert(found == hit);
                        assert(all[i as int] == (hit.0@, hit.1@));
                        return found.1;
                    }
                    assert(all.skip(i as int).skip(1) =~= all.skip(i as int + 1));
                    i = i + 1;
                }
                assert(all.skip(i as int).len() == 0);
                Json::Null
            },
            _ => Json::Null,
        }
    }
}

/// The values of a sequence of documents.
pub open spec fn views_of(items: Seq<Json>) -> Seq<JsonView> {
    Seq::new(items.len(), |i: int| items[i]@)
}

/// The values of a sequence of object members.
pub open spec fn members_of(fields: Seq<(String, Json)>) -> Seq<(Seq<char>, JsonView)> {
    Seq::new(fields.len(), |i: int| (fields[i].0@, fields[i].1@))
}

impl Json {
    /// A number document with the literal `literal`.
    pub fn number(literal: String) -> (j: Json)
        ensures
            j@ == JsonView::Number(literal@),
    {
        Json::Number(literal)
    }

    /// A string document.
    pub fn text(text: String) -> (j: Json)
        ensures
            j@ == JsonView::Text(text@),
    {
        Json::Text(text)
    }

    /// A boolean document.
    pub fn flag(flag: bool) -> (j: Json)
        ensures
            j@ == JsonView::Bool(flag),
    {
        Json::Bool(flag)
    }

    /// An array document.
    pub fn array(items: Vec<Json>) -> (j: Json)
        ensures
            j@ == JsonView::Array(views_of(items@)),
    {
        let j = Json::Array(items);
        assert(j@->Array_0 =~= views_of(items@));
        j
    }

    /// An object document with the members `fields`, in that order.
    pub fn object(fields: Vec<(String, Json)>) -> (j: Json)
        ensures
            j@ == JsonView::Object(members_of(fields@)),
    {
        let j = Json::Object(fields);
        assert(j@->Object_0 =~= members_of(fields@));
        j
    }
}

/// A member whose key occurs nowhere before it is the one that a lookup of
/// its key finds.
pub proof fn lemma_member_at(fields: Seq<(Seq<char>, JsonView)>, i: int)
    requires
        0 <= i < fields.len(),
        forall|k: int| 0 <= k < i ==> (#[trigger] fields[k]).0 != fields[i].0,
    ensures
        member(fields, fields[i].0) == Some(fields[i].1),
    decreases i,
{
    if i > 0 {
        let rest = fields.skip(1);
        assert forall|k: int| 0 <= k < i - 1 implies (#[trigger] rest[k]).0 != rest[i - 1].0 by {
            assert(rest[k] == fields[k + 1]);
        }
        lemma_member_at(rest, i - 1);
    }
}

} // verus!
