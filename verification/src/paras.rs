//! The schema of Paras: records of an owner and token ids, and one link for
//! each token.

use vstd::prelude::*;
use vstd::string::StrSliceExecFns;
use vstd::string::StringExecFns;
use crate::json::{views_of, Json, JsonView};
use crate::marketplace::Marketplace;
use crate::nft::{outcome_view, texts_of, NFTView, ParseError, NFT};
use crate::record::{event_data, payload_view, read_event_data, records_of, EventDataView};
use crate::sequence::{lemma_leading, lemma_leading_at};
use crate::text::{chars_of, differs_from, find_char, first_index_of};

verus! {

/// The part of a token id before its first `:`, and the whole of one that
/// has none.
pub open spec fn series_of(token_id: Seq<char>) -> Seq<char> {
    token_id.take(first_index_of(token_id, ':'))
}

/// The link to a token on Paras.
pub open spec fn paras_link(receiver: Seq<char>, token_id: Seq<char>) -> Seq<char> {
    "https://paras.id/token/"@ + receiver + "::"@ + series_of(token_id) + "/"@ + token_id
}

/// Writes the link to a token on Paras.
pub fn format_paras_link(receiver_id: &str, token_id: &str) -> (link: String)
    ensures
        link@ == paras_link(receiver_id@, token_id@),
{
    let chars = chars_of(token_id);
    let cut = find_char(&chars, ':');
    proof {
        lemma_leading(token_id@, differs_from(':'));
    }
    let series = token_id.substring_char(0, cut);
    let mut link = "https://paras.id/token/".to_owned();
    link.append(receiver_id);
    link.append("::");
    link.append(series);
    link.append("/");
    link.append(token_id);
    link
}

/// A record of Paras: the owner of the minted tokens and their ids.
#[derive(Debug, PartialEq, Eq)]
pub struct ParasEventData {
    pub owner_id: String,
    pub token_ids: Vec<String>,
}

impl View for ParasEventData {
    type V = EventDataView;

    open spec fn view(&self) -> EventDataView {
        EventDataView { owner_id: self.owner_id@, token_ids: texts_of(self.token_ids@) }
    }
}

/// The test that a value is a record of Paras.
pub open spec fn is_paras_record() -> spec_fn(JsonView) -> bool {
    |record: JsonView| event_data(record) is Some
}

/// The links to the tokens `token_ids` on Paras.
pub open spec fn paras_links(receiver: Seq<char>, token_ids: Seq<Seq<char>>) -> Seq<Seq<char>> {
    token_ids.map_values(|token_id: Seq<char>| paras_link(receiver, token_id))
}

/// The token that a record of Paras stands for: owned by the record's owner,
/// with one link for each token id, in their order.
pub open spec fn paras_nft(record: EventDataView, receiver: Seq<char>) -> Result<
    NFTView,
    ParseError,
> {
    if record.token_ids.len() == 0 {
        Err(ParseError::NoTokenIds)
    } else {
        Ok(NFTView { owner: record.owner_id, links: paras_links(receiver, record.token_ids) })
    }
}

/// What the Paras parser makes of a payload: nothing of an absent one, and of
/// a present one the token of its first record, once all its records are
/// found to be records of Paras.
pub open spec fn paras_outcome(payload: Option<JsonView>, receiver: Seq<char>) -> Result<
    Option<NFTView>,
    ParseError,
> {
    match payload {
        None => Ok(None),
        Some(json) => match records_of(json, is_paras_record()) {
            Err(error) => Err(error),
            Ok(records) => match paras_nft(event_data(records[0]).unwrap(), receiver) {
                Ok(nft) => Ok(Some(nft)),
                Err(error) => Err(error),
            },
        },
    }
}

impl ParasEventData {
    /// Reads a record of Paras.
    pub fn from_json(record: &Json) -> (read: Option<ParasEventData>)
        ensures
            match read {
                Some(data) => event_data(record@) == Some(data@),
                None => event_data(record@) is None,
            },
    {
        match read_event_data(record) {
            Some((owner_id, token_ids)) => Some(ParasEventData { owner_id, token_ids }),
            None => None,
        }
    }

    /// Reads the records of a payload of Paras and gives the first.
    pub fn first_of(payload: &Json) -> (read: Result<ParasEventData, ParseError>)
        ensures
            match read {
                Ok(first) => records_of(payload@, is_paras_record()) matches Ok(records)
                    && event_data(records[0]) == Some(first@),
                Err(error) => records_of(payload@, is_paras_record()) == Err::<
                    Seq<JsonView>,
                    ParseError,
                >(error),
            },
    {
        let items = match payload.as_array() {
            Some(items) => items,
            None => {
                return Err(ParseError::NotASequence);
            },
        };
        if items.len() == 0 {
            return Err(ParseError::NoRecords);
        }
        let ghost views = views_of(items@);
        let first = match ParasEventData::from_json(&items[0]) {
            Some(first) => first,
            None => {
                proof {
                    lemma_leading_at(views, is_paras_record(), 0);
                }
                return Err(ParseError::MalformedRecord(0));
            },
        };
        let mut i: usize = 1;
        while i < items.len()
            invariant
                1 <= i <= items.len(),
                views == views_of(items@),
                payload@.items() == Some(views),
                forall|j: int| 0 <= j < i ==> event_data(#[trigger] views[j]) is Some,
            decreases items.len() - i,
        {
            if ParasEventData::from_json(&items[i]).is_none() {
                proof {
                    lemma_leading_at(views, is_paras_record(), i as int);
                }
                return Err(ParseError::MalformedRecord(i));
            }
            i += 1;
        }
        proof {
            lemma_leading_at(views, is_paras_record(), i as int);
        }
        Ok(first)
    }

    /// The token that this record stands for.
    pub fn to_nft(&self, receiver_id: &str) -> (nft: Result<NFT, ParseError>)
        ensures
            match nft {
                Ok(nft) => paras_nft(self@, receiver_id@) == Ok::<NFTView, ParseError>(nft@)
                    && nft@.well_formed(),
                Err(error) => paras_nft(self@, receiver_id@) == Err::<NFTView, ParseError>(error),
            },
    {
        if self.token_ids.len() == 0 {
            return Err(ParseError::NoTokenIds);
        }
        let ghost token_ids = texts_of(self.token_ids@);
        let mut links: Vec<String> = Vec::new();
        let mut i: usize = 0;
        while i < self.token_ids.len()
            invariant
                i <= self.token_ids.len(),
                token_ids == texts_of(self.token_ids@),
                links@.len() == i,
                forall|j: int|
                    0 <= j < i ==> (#[trigger] links@[j])@ == paras_link(
                        receiver_id@,
                        token_ids[j],
                    ),
            decreases self.token_ids.len() - i,
        {
            let link = format_paras_link(receiver_id, self.token_ids[i].as_str());
            links.push(link);
            i += 1;
        }
        assert(texts_of(links@) =~= paras_links(receiver_id@, token_ids));
        Ok(NFT { owner: self.owner_id.clone(), links })
    }
}

impl Marketplace {
    /// Reads a payload of Paras.
    pub fn paras(&self, event_data: Option<&Json>, receiver_id: &str) -> (outcome: Result<
        Option<NFT>,
        ParseError,
    >)
        ensures
            outcome_view(outcome) == paras_outcome(payload_view(event_data), receiver_id@),
            outcome matches Ok(Some(nft)) ==> nft@.well_formed(),
            event_data is None ==> outcome == Ok::<Option<NFT>, ParseError>(None),
    {
        let data = match event_data {
            Some(data) => data,
            None => {
                return Ok(None);
            },
        };
        let first = match ParasEventData::first_of(data) {
            Ok(first) => first,
            Err(error) => {
                return Err(error);
            },
        };
        match first.to_nft(receiver_id) {
            Ok(nft) => Ok(Some(nft)),
            Err(error) => Err(error),
        }
    }
}

} // verus!
