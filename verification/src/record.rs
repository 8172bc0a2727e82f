//! The records of a payload: how a payload is taken apart into records, and
//! the shape `{owner_id, token_ids}` that both marketplaces use.

use vstd::prelude::*;
use crate::json::{views_of, Json, JsonView};
use crate::nft::{texts_of, ParseError};
use crate::sequence::leading;

verus! {

/// The view of a payload that may be absent.
pub open spec fn payload_view(event_data: Option<&Json>) -> Option<JsonView> {
    match event_data {
        Some(json) => Some(json@),
        None => None,
    }
}

/// The string member `name` of the object `record`.
pub open spec fn text_member(record: JsonView, name: Seq<char>) -> Option<Seq<char>> {
    match record.member(name) {
        Some(value) => value.text(),
        None => None,
    }
}

/// Whether every one of `items` is a string.
pub open spec fn all_text(items: Seq<JsonView>) -> bool {
    forall|i: int| 0 <= i < items.len() ==> (#[trigger] items[i]).text() is Some
}

/// The strings of the array `list`, where every item of it is a string.
pub open spec fn text_list(list: JsonView) -> Option<Seq<Seq<char>>> {
    match list.items() {
        Some(items) => if all_text(items) {
            Some(items.map_values(|item: JsonView| item.text().unwrap()))
        } else {
            None
        },
        None => None,
    }
}

/// A record of the shape `{owner_id: string, token_ids: [string]}`.
pub struct EventDataView {
    pub owner_id: Seq<char>,
    pub token_ids: Seq<Seq<char>>,
}

/// The record that `record` holds: an object with a string `owner_id` and an
/// array of strings `token_ids`. Other members are passed over.
pub open spec fn event_data(record: JsonView) -> Option<EventDataView> {
    match (text_member(record, "owner_id"@), record.member("token_ids"@)) {
        (Some(owner_id), Some(list)) => match text_list(list) {
            Some(token_ids) => Some(EventDataView { owner_id, token_ids }),
            None => None,
        },
        _ => None,
    }
}

/// The records of a payload: the items of the array `payload`, which has at
/// least one and of which `shape` accepts every one.
pub open spec fn records_of(payload: JsonView, shape: spec_fn(JsonView) -> bool) -> Result<
    Seq<JsonView>,
    ParseError,
> {
    match payload.items() {
        None => Err(ParseError::NotASequence),
        Some(items) => if items.len() == 0 {
            Err(ParseError::NoRecords)
        } else if leading(items, shape) < items.len() {
            Err(ParseError::MalformedRecord(leading(items, shape) as usize))
        } else {
            Ok(items)
        },
    }
}

/// Reads an array of strings.
pub fn read_text_list(list: &Json) -> (read: Option<Vec<String>>)
    ensures
        match read {
            Some(texts) => text_list(list@) == Some(texts_of(texts@)),
            None => text_list(list@) is None,
        },
{
    let items = match list.as_array() {
        Some(items) => items,
        None => {
            return None;
        },
    };
    let ghost views = views_of(items@);
    let mut texts: Vec<String> = Vec::new();
    let mut i: usize = 0;
    while i < items.len()
        invariant
            i <= items.len(),
            views == views_of(items@),
            list@.items() == Some(views),
            texts@.len() == i,
            forall|j: int| 0 <= j < i ==> (#[trigger] views[j]).text() == Some(texts@[j]@),
        decreases items.len() - i,
    {
        assert(views[i as int] == items@[i as int]@);
        match items[i].as_text() {
            Some(text) => {
                texts.push(text.to_owned());
            },
            None => {
                return None;
            },
        }
        i += 1;
    }
    Some(texts)
}

/// Tests whether `record` has a string member `name`.
pub fn has_text_member(record: &Json, name: &str) -> (has: bool)
    ensures
        has == (text_member(record@, name@) is Some),
{
    match record.member(name) {
        Some(value) => value.as_text().is_some(),
        None => false,
    }
}

/// Reads the string member `name` of `record`.
pub fn read_text_member(record: &Json, name: &str) -> (read: Option<String>)
    ensures
        match read {
            Some(text) => text_member(record@, name@) == Some(text@),
            None => text_member(record@, name@) is None,
        },
{
    match record.member(name) {
        Some(value) => match value.as_text() {
            Some(text) => Some(text.to_owned()),
            None => None,
        },
        None => None,
    }
}

/// Reads the owner and the token ids of a record of the shape
/// `{owner_id: string, token_ids: [string]}`.
pub fn read_event_data(record: &Json) -> (read: Option<(String, Vec<String>)>)
    ensures
        match read {
            Some((owner_id, token_ids)) => event_data(record@) == Some(
                EventDataView { owner_id: owner_id@, token_ids: texts_of(token_ids@) },
            ),
            None => event_data(record@) is None,
        },
{
    let owner_id = match read_text_member(record, "owner_id") {
        Some(owner_id) => owner_id,
        None => {
            return None;
        },
    };
    let list = match record.member("token_ids") {
        Some(list) => list,
        None => {
            return None;
        },
    };
    match read_text_list(list) {
        Some(token_ids) => Some((owner_id, token_ids)),
        None => None,
    }
}

} // verus!
