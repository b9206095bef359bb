//! Decoding typed records from JSON documents.
//!
//! Field presence is explicit: a field is either required, or has a stated
//! value for when it is absent. A field that is present with the wrong kind
//! of value never decodes, whether it has a fallback or not.

use vstd::prelude::*;

use crate::json::{field, items_at, views_of, Json, JsonView};

verus! {

/// A record with a JSON wire shape.
pub trait Wire: Sized + View {
    /// The record that a document decodes to; `None` where the document
    /// lacks a required field or holds a value of the wrong kind.
    spec fn decoded(j: JsonView) -> Option<Self::V>;

    /// Decodes a document.
    fn from_json(j: &Json) -> (r: Option<Self>)
        ensures
            match r {
                Some(v) => Self::decoded(j@) == Some(v@),
                None => Self::decoded(j@).is_none(),
            },
    ;
}

/// The values of a sequence of records.
pub open spec fn views<T: View>(items: Seq<T>) -> Seq<T::V> {
    Seq::new(items.len(), |i: int| items[i]@)
}

/// The records that a sequence of documents decodes to: all of them, or
/// none where one fails.
pub open spec fn decoded_list<T: Wire>(items: Seq<JsonView>) -> Option<Seq<T::V>> {
    if forall|i: int| 0 <= i < items.len() ==> (#[trigger] T::decoded(items[i])) is Some {
        Some(Seq::new(items.len(), |i: int| T::decoded(items[i]).unwrap()))
    } else {
        None
    }
}

/// A required field that holds an array of records.
pub open spec fn list_at<T: Wire>(j: JsonView, key: Seq<char>) -> Option<Seq<T::V>> {
    match items_at(j, key) {
        Some(items) => decoded_list::<T>(items),
        None => None,
    }
}

/// A required field that holds a record.
pub open spec fn nested_at<T: Wire>(j: JsonView, key: Seq<char>) -> Option<T::V> {
    match field(j, key) {
        Some(v) => T::decoded(v),
        None => None,
    }
}

/// Decodes every document of `items`, in order.
pub fn list_from_json<T: Wire>(items: &Vec<Json>) -> (r: Option<Vec<T>>)
    ensures
        match r {
            Some(v) => decoded_list::<T>(views_of(items@)) == Some(views(v@)),
            None => decoded_list::<T>(views_of(items@)).is_none(),
        },
{
    let ghost docs = views_of(items@);
    let mut out: Vec<T> = Vec::new();
    let mut i: usize = 0;
    while i < items.len()
        invariant
            i <= items@.len(),
            out@.len() == i,
            docs == views_of(items@),
            forall|k: int| 0 <= k < i ==> (#[trigger] T::decoded(docs[k])) == Some(out@[k]@),
        decreases items@.len() - i,
    {
        match T::from_json(&items[i]) {
            Some(v) => {
                out.push(v);
            },
            None => {
                assert(T::decoded(docs[i as int]).is_none());
                return None;
            },
        }
        i = i + 1;
    }
    assert(decoded_list::<T>(docs).unwrap() =~= views(out@));
    Some(out)
}

/// Decodes the required array field `key` of `j`.
pub fn list_field<T: Wire>(j: &Json, key: &str) -> (r: Option<Vec<T>>)
    ensures
        match r {
            Some(v) => list_at::<T>(j@, key@) == Some(views(v@)),
            None => list_at::<T>(j@, key@).is_none(),
        },
{
    match j.items_field(key) {
        Some(items) => list_from_json(items),
        None => None,
    }
}

/// Decodes the required record field `key` of `j`.
pub fn nested_field<T: Wire>(j: &Json, key: &str) -> (r: Option<T>)
    ensures
        match r {
            Some(v) => nested_at::<T>(j@, key@) == Some(v@),
            None => nested_at::<T>(j@, key@).is_none(),
        },
{
    match j.get(key) {
        Some(v) => T::from_json(v),
        None => None,
    }
}

} // verus!
