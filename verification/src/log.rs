//! Events as contracts write them to the log of a receipt: a line that
//! starts with `EVENT_JSON:` and goes on with a JSON object.

use vstd::prelude::*;
use vstd::string::StrSliceExecFns;
use crate::block::{Event, EventView, Receipt};
use crate::json::{
    json_text_value, lemma_lookup_at, member_views_of, optional_view, Json, JsonView,
};
use crate::nft::texts_of;
use crate::record::{has_text_member, read_text_member, text_member};
use crate::text::{chars_of, matches_at, occurs_at, same_text};

verus! {

/// What a log line that holds an event starts with.
pub open spec fn event_prefix() -> Seq<char> {
    "EVENT_JSON:"@
}

/// The text of the event that a log line holds: what follows the prefix.
pub open spec fn event_text(log: Seq<char>) -> Option<Seq<char>> {
    if occurs_at(log, 0, event_prefix()) {
        Some(log.skip(event_prefix().len() as int))
    } else {
        None
    }
}

/// The payload of a logged event: its member `data`, unless that is absent
/// or null.
pub open spec fn logged_data(value: JsonView) -> Option<JsonView> {
    match value.member("data"@) {
        Some(JsonView::Null) => None,
        other => other,
    }
}

/// The event that a value read from a log line holds: an object with the
/// strings `standard`, `version` and `event`, the last of which is the
/// event's name.
pub open spec fn logged_event(value: JsonView) -> Option<EventView> {
    match (
        text_member(value, "standard"@),
        text_member(value, "version"@),
        text_member(value, "event"@),
    ) {
        (Some(_), Some(_), Some(event)) => Some(EventView { event, data: logged_data(value) }),
        _ => None,
    }
}

/// The event that a log line holds.
pub open spec fn event_of_log(log: Seq<char>) -> Option<EventView> {
    match event_text(log) {
        Some(text) => match json_text_value(text) {
            Some(value) => logged_event(value),
            None => None,
        },
        None => None,
    }
}

/// `event_of_log` as a value.
pub open spec fn logged() -> spec_fn(Seq<char>) -> Option<EventView> {
    |log: Seq<char>| event_of_log(log)
}

/// The events that the lines of a log hold, in the order of the lines.
pub open spec fn events_of_logs(logs: Seq<Seq<char>>) -> Seq<EventView> {
    logs.filter_map(logged())
}

/// The view of an event that may be absent.
pub open spec fn optional_event_view(event: Option<Event>) -> Option<EventView> {
    match event {
        Some(event) => Some(event@),
        None => None,
    }
}

/// Takes the payload out of the value read from a log line.
pub fn take_data(value: Json) -> (data: Option<Json>)
    ensures
        optional_view(data) == logged_data(value@),
{
    let mut members = match value {
        Json::Object(members) => members,
        _ => {
            return None;
        },
    };
    let ghost views = member_views_of(members@);
    proof {
        Json::lemma_view_of_object(members);
    }
    let mut i: usize = 0;
    while i < members.len() && !same_text(members[i].0.as_str(), "data")
        invariant
            i <= members.len(),
            views == member_views_of(members@),
            forall|j: int| 0 <= j < i ==> (#[trigger] views[j]).0 != "data"@,
        decreases members.len() - i,
    {
        i += 1;
    }
    proof {
        lemma_lookup_at(views, "data"@, i as int);
    }
    if i == members.len() {
        return None;
    }
    let (_, data) = members.remove(i);
    match data {
        Json::Null => None,
        data => Some(data),
    }
}

impl Event {
    /// Reads the event that a value read from a log line holds.
    pub fn from_json(value: Json) -> (event: Option<Event>)
        ensures
            optional_event_view(event) == logged_event(value@),
    {
        if !has_text_member(&value, "standard") || !has_text_member(&value, "version") {
            return None;
        }
        let event = match read_text_member(&value, "event") {
            Some(event) => event,
            None => {
                return None;
            },
        };
        Some(Event { event, data: take_data(value) })
    }

    /// Reads the event that a log line holds. A line that holds none gives
    /// nothing.
    pub fn from_log(log: &str) -> (event: Option<Event>)
        ensures
            optional_event_view(event) == event_of_log(log@),
    {
        let chars = chars_of(log);
        let prefix = chars_of("EVENT_JSON:");
        if !matches_at(&chars, 0, &prefix) {
            return None;
        }
        let text = log.substring_char(prefix.len(), chars.len());
        match Json::parse(text) {
            Some(value) => Event::from_json(value),
            None => None,
        }
    }
}

impl Receipt {
    /// The receipt with the given ids and with the events that the lines of
    /// its log hold. A line that holds no event is passed over.
    pub fn from_logs(
        receipt_id: String,
        receiver_id: String,
        logs: &Vec<String>,
    ) -> (receipt: Receipt)
        ensures
            receipt@.receipt_id == receipt_id@,
            receipt@.receiver_id == receiver_id@,
            receipt@.events == events_of_logs(texts_of(logs@)),
    {
        let ghost lines = texts_of(logs@);
        let mut events: Vec<Event> = Vec::new();
        let mut i: usize = 0;
        while i < logs.len()
            invariant
                i <= logs.len(),
                lines == texts_of(logs@),
                events@.map_values(|event: Event| event@) == lines.take(i as int).filter_map(
                    logged(),
                ),
            decreases logs.len() - i,
        {
            proof {
                lines.lemma_filter_map_take_succ(logged(), i as int);
            }
            match Event::from_log(logs[i].as_str()) {
                Some(event) => {
                    events.push(event);
                },
                None => {},
            }
            i += 1;
        }
        assert(lines.take(i as int) =~= lines);
        Receipt { receipt_id, receiver_id, events }
    }
}

} // verus!
