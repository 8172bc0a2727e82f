//! The two schemas of Mintbase: the earlier, with token ids, and the later,
//! with a memo that names the minted thing.

use vstd::prelude::*;
use vstd::string::StringExecFns;
use crate::json::{json_text_value, optional_view, views_of, Json, JsonView};
use crate::marketplace::Marketplace;
use crate::nft::{outcome_view, texts_of, NFTView, ParseError, NFT};
use crate::record::{
    event_data, payload_view, read_event_data, read_text_member, records_of, text_member,
    EventDataView,
};
use crate::sequence::lemma_leading_at;

verus! {

/// The link to a token on Mintbase.
pub open spec fn mintbase_token_link(receiver: Seq<char>, token_id: Seq<char>) -> Seq<char> {
    "https://mintbase.io/contract/"@ + receiver + "/token/"@ + token_id
}

/// The link to a thing on Mintbase.
pub open spec fn mintbase_thing_link(receiver: Seq<char>, meta_id: Seq<char>) -> Seq<char> {
    "https://mintbase.io/thing/"@ + meta_id + ":"@ + receiver
}

/// Writes the link to a token on Mintbase.
pub fn format_mintbase_token_link(receiver_id: &str, token_id: &str) -> (link: String)
    ensures
        link@ == mintbase_token_link(receiver_id@, token_id@),
{
    let mut link = "https://mintbase.io/contract/".to_owned();
    link.append(receiver_id);
    link.append("/token/");
    link.append(token_id);
    link
}

/// Writes the link to a thing on Mintbase.
pub fn format_mintbase_thing_link(receiver_id: &str, meta_id: &str) -> (link: String)
    ensures
        link@ == mintbase_thing_link(receiver_id@, meta_id@),
{
    let mut link = "https://mintbase.io/thing/".to_owned();
    link.append(meta_id);
    link.append(":");
    link.append(receiver_id);
    link
}

/// A record of Mintbase in its earlier scheme: the owner of the minted tokens
/// and their ids.
#[derive(Debug, PartialEq, Eq)]
pub struct MintbaseEventData {
    pub owner_id: String,
    pub token_ids: Vec<String>,
}

impl View for MintbaseEventData {
    type V = EventDataView;

    open spec fn view(&self) -> EventDataView {
        EventDataView { owner_id: self.owner_id@, token_ids: texts_of(self.token_ids@) }
    }
}

/// The memo of a Mintbase record in the later scheme.
#[derive(Debug, PartialEq, Eq)]
pub struct MintbaseMemo {
    pub meta_id: String,
    pub minter: String,
}

/// The mathematical value of a [`MintbaseMemo`].
pub struct MintbaseMemoView {
    pub meta_id: Seq<char>,
    pub minter: Seq<char>,
}

impl View for MintbaseMemo {
    type V = MintbaseMemoView;

    open spec fn view(&self) -> MintbaseMemoView {
        MintbaseMemoView { meta_id: self.meta_id@, minter: self.minter@ }
    }
}

/// A record of Mintbase in its later scheme: the owner of the minted thing
/// and the memo that names it.
#[derive(Debug, PartialEq, Eq)]
pub struct MintbaseMemoEventData {
    pub owner_id: String,
    pub memo: MintbaseMemo,
}

/// The mathematical value of a [`MintbaseMemoEventData`].
pub struct MintbaseMemoEventDataView {
    pub owner_id: Seq<char>,
    pub memo: MintbaseMemoView,
}

impl View for MintbaseMemoEventData {
    type V = MintbaseMemoEventDataView;

    open spec fn view(&self) -> MintbaseMemoEventDataView {
        MintbaseMemoEventDataView { owner_id: self.owner_id@, memo: self.memo@ }
    }
}

/// A record of Mintbase, in one of its two schemes.
#[derive(Debug, PartialEq, Eq)]
pub enum MintbasePayload {
    /// The earlier scheme, with token ids.
    V1(MintbaseEventData),
    /// The later scheme, with a memo.
    V2(MintbaseMemoEventData),
}

/// The mathematical value of a [`MintbasePayload`].
pub enum MintbasePayloadView {
    V1(EventDataView),
    V2(MintbaseMemoEventDataView),
}

impl View for MintbasePayload {
    type V = MintbasePayloadView;

    open spec fn view(&self) -> MintbasePayloadView {
        match self {
            MintbasePayload::V1(data) => MintbasePayloadView::V1(data@),
            MintbasePayload::V2(data) => MintbasePayloadView::V2(data@),
        }
    }
}

/// The memo that `value` holds: an object with the strings `meta_id` and
/// `minter`. Other members are passed over.
pub open spec fn memo_of(value: JsonView) -> Option<MintbaseMemoView> {
    match (text_member(value, "meta_id"@), text_member(value, "minter"@)) {
        (Some(meta_id), Some(minter)) => Some(MintbaseMemoView { meta_id, minter }),
        _ => None,
    }
}

/// The record of the later scheme that `record` holds, given the value read
/// from the text of its `memo`: an object with a string `owner_id`, whose
/// memo was read and holds a memo.
pub open spec fn memo_event_data(record: JsonView, memo: Option<JsonView>) -> Option<
    MintbaseMemoEventDataView,
> {
    match (text_member(record, "owner_id"@), memo) {
        (Some(owner_id), Some(value)) => match memo_of(value) {
            Some(memo) => Some(MintbaseMemoEventDataView { owner_id, memo }),
            None => None,
        },
        _ => None,
    }
}

/// The record of Mintbase that `record` holds, given the value read from the
/// text of its `memo`: one of the later scheme where it has that shape, else
/// one of the earlier scheme where it has that one.
pub open spec fn mintbase_payload_with(record: JsonView, memo: Option<JsonView>) -> Option<
    MintbasePayloadView,
> {
    match memo_event_data(record, memo) {
        Some(data) => Some(MintbasePayloadView::V2(data)),
        None => match event_data(record) {
            Some(data) => Some(MintbasePayloadView::V1(data)),
            None => None,
        },
    }
}

/// The value read from the text of the string member `memo` of `record`.
pub open spec fn memo_value(record: JsonView) -> Option<JsonView> {
    match text_member(record, "memo"@) {
        Some(text) => json_text_value(text),
        None => None,
    }
}

/// The record of Mintbase that `record` holds.
pub open spec fn mintbase_payload(record: JsonView) -> Option<MintbasePayloadView> {
    mintbase_payload_with(record, memo_value(record))
}

/// The test that a value is a record of Mintbase.
pub open spec fn is_mintbase_record() -> spec_fn(JsonView) -> bool {
    |record: JsonView| mintbase_payload(record) is Some
}

/// The token that a record of Mintbase stands for, owned by the record's
/// owner: with the link to the thing that the memo names, or with the link to
/// the first of the token ids.
pub open spec fn mintbase_nft(record: MintbasePayloadView, receiver: Seq<char>) -> Result<
    NFTView,
    ParseError,
> {
    match record {
        MintbasePayloadView::V2(data) => Ok(
            NFTView {
                owner: data.owner_id,
                links: seq![mintbase_thing_link(receiver, data.memo.meta_id)],
            },
        ),
        MintbasePayloadView::V1(data) => if data.token_ids.len() == 0 {
            Err(ParseError::NoTokenIds)
        } else {
            Ok(
                NFTView {
                    owner: data.owner_id,
                    links: seq![mintbase_token_link(receiver, data.token_ids[0])],
                },
            )
        },
    }
}

/// What the Mintbase parser makes of a payload: nothing of an absent one, and
/// of a present one the token of its first record, once all its records are
/// found to be records of Mintbase.
pub open spec fn mintbase_outcome(payload: Option<JsonView>, receiver: Seq<char>) -> Result<
    Option<NFTView>,
    ParseError,
> {
    match payload {
        None => Ok(None),
        Some(json) => match records_of(json, is_mintbase_record()) {
            Err(error) => Err(error),
            Ok(records) => match mintbase_nft(mintbase_payload(records[0]).unwrap(), receiver) {
                Ok(nft) => Ok(Some(nft)),
                Err(error) => Err(error),
            },
        },
    }
}

impl MintbaseMemo {
    /// Reads a memo.
    pub fn from_json(value: &Json) -> (read: Option<MintbaseMemo>)
        ensures
            match read {
                Some(memo) => memo_of(value@) == Some(memo@),
                None => memo_of(value@) is None,
            },
    {
        let meta_id = match read_text_member(value, "meta_id") {
            Some(meta_id) => meta_id,
            None => {
                return None;
            },
        };
        match read_text_member(value, "minter") {
            Some(minter) => Some(MintbaseMemo { meta_id, minter }),
            None => None,
        }
    }
}

impl MintbaseEventData {
    /// Reads a record of the earlier scheme.
    pub fn from_json(record: &Json) -> (read: Option<MintbaseEventData>)
        ensures
            match read {
                Some(data) => event_data(record@) == Some(data@),
                None => event_data(record@) is None,
            },
    {
        match read_event_data(record) {
            Some((owner_id, token_ids)) => Some(MintbaseEventData { owner_id, token_ids }),
            None => None,
        }
    }
}

impl MintbaseMemoEventData {
    /// Reads a record of the later scheme, given the value read from the
    /// text of its memo.
    pub fn from_json(record: &Json, memo: &Option<Json>) -> (read: Option<MintbaseMemoEventData>)
        ensures
            match read {
                Some(data) => memo_event_data(record@, optional_view(*memo)) == Some(data@),
                None => memo_event_data(record@, optional_view(*memo)) is None,
            },
    {
        let owner_id = match read_text_member(record, "owner_id") {
            Some(owner_id) => owner_id,
            None => {
                return None;
            },
        };
        let value = match memo {
            Some(value) => value,
            None => {
                return None;
            },
        };
        match MintbaseMemo::from_json(value) {
            Some(memo) => Some(MintbaseMemoEventData { owner_id, memo }),
            None => None,
        }
    }
}

impl MintbasePayload {
    /// Reads a record of Mintbase, given the value read from the text of its
    /// memo: by the later scheme first, then by the earlier.
    pub fn from_json_with(record: &Json, memo: &Option<Json>) -> (read: Option<MintbasePayload>)
        ensures
            match read {
                Some(payload) => mintbase_payload_with(record@, optional_view(*memo)) == Some(
                    payload@,
                ),
                None => mintbase_payload_with(record@, optional_view(*memo)) is None,
            },
    {
        match MintbaseMemoEventData::from_json(record, memo) {
            Some(data) => Some(MintbasePayload::V2(data)),
            None => match MintbaseEventData::from_json(record) {
                Some(data) => Some(MintbasePayload::V1(data)),
                None => None,
            },
        }
    }

    /// Reads the text of the string member `memo` of a record.
    pub fn read_memo(record: &Json) -> (memo: Option<Json>)
        ensures
            optional_view(memo) == memo_value(record@),
    {
        match record.member("memo") {
            Some(value) => match value.as_text() {
                Some(text) => Json::parse(text),
                None => None,
            },
            None => None,
        }
    }

    /// Reads a record of Mintbase.
    pub fn from_json(record: &Json) -> (read: Option<MintbasePayload>)
        ensures
            match read {
                Some(payload) => mintbase_payload(record@) == Some(payload@),
                None => mintbase_payload(record@) is None,
            },
    {
        let memo = MintbasePayload::read_memo(record);
        MintbasePayload::from_json_with(record, &memo)
    }

    /// Reads the records of a payload of Mintbase and gives the first.
    pub fn first_of(payload: &Json) -> (read: Result<MintbasePayload, ParseError>)
        ensures
            match read {
                Ok(first) => records_of(payload@, is_mintbase_record()) matches Ok(records)
                    && mintbase_payload(records[0]) == Some(first@),
                Err(error) => records_of(payload@, is_mintbase_record()) == Err::<
                    Seq<JsonView>,
                    ParseError,
                >(error),
            },
    {
        let items = match payload.as_array() {
            Some(items) => items,
            None => {
                return Err(ParseError::NotASequence);
            },
        };
        if items.len() == 0 {
            return Err(ParseError::NoRecords);
        }
        let ghost views = views_of(items@);
        let first = match MintbasePayload::from_json(&items[0]) {
            Some(first) => first,
            None => {
                proof {
                    lemma_leading_at(views, is_mintbase_record(), 0);
                }
                return Err(ParseError::MalformedRecord(0));
            },
        };
        let mut i: usize = 1;
        while i < items.len()
            invariant
                1 <= i <= items.len(),
                views == views_of(items@),
                payload@.items() == Some(views),
                forall|j: int| 0 <= j < i ==> mintbase_payload(#[trigger] views[j]) is Some,
            decreases items.len() - i,
        {
            if MintbasePayload::from_json(&items[i]).is_none() {
                proof {
                    lemma_leading_at(views, is_mintbase_record(), i as int);
                }
                return Err(ParseError::MalformedRecord(i));
            }
            i += 1;
        }
        proof {
            lemma_leading_at(views, is_mintbase_record(), i as int);
        }
        Ok(first)
    }

    /// The token that this record stands for.
    pub fn to_nft(&self, receiver_id: &str) -> (nft: Result<NFT, ParseError>)
        ensures
            match nft {
                Ok(nft) => mintbase_nft(self@, receiver_id@) == Ok::<NFTView, ParseError>(nft@)
                    && nft@.well_formed(),
                Err(error) => mintbase_nft(self@, receiver_id@) == Err::<NFTView, ParseError>(
                    error,
                ),
            },
    {
        match self {
            MintbasePayload::V2(data) => {
                let link = format_mintbase_thing_link(receiver_id, data.memo.meta_id.as_str());
                let mut links: Vec<String> = Vec::new();
                links.push(link);
                assert(texts_of(links@) =~= seq![
                    mintbase_thing_link(receiver_id@, data.memo.meta_id@),
                ]);
                Ok(NFT { owner: data.owner_id.clone(), links })
            },
            MintbasePayload::V1(data) => {
                if data.token_ids.len() == 0 {
                    return Err(ParseError::NoTokenIds);
                }
                let link = format_mintbase_token_link(receiver_id, data.token_ids[0].as_str());
                let mut links: Vec<String> = Vec::new();
                links.push(link);
                assert(texts_of(links@) =~= seq![
                    mintbase_token_link(receiver_id@, data.token_ids@[0]@),
                ]);
                Ok(NFT { owner: data.owner_id.clone(), links })
            },
        }
    }
}

impl Marketplace {
    /// Reads a payload of Mintbase.
    pub fn mintbase(&self, event_data: Option<&Json>, receiver_id: &str) -> (outcome: Result<
        Option<NFT>,
        ParseError,
    >)
        ensures
            outcome_view(outcome) == mintbase_outcome(payload_view(event_data), receiver_id@),
            outcome matches Ok(Some(nft)) ==> nft@.well_formed(),
            event_data is None ==> outcome == Ok::<Option<NFT>, ParseError>(None),
    {
        let data = match event_data {
            Some(data) => data,
            None => {
                return Ok(None);
            },
        };
        let first = match MintbasePayload::first_of(data) {
            Ok(first) => first,
            Err(error) => {
                return Err(error);
            },
        };
        match first.to_nft(receiver_id) {
            Ok(nft) => Ok(Some(nft)),
            Err(error) => Err(error),
        }
    }
}

} // verus!
