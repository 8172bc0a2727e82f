//! The parser of each marketplace, which reads the payload of a mint event
//! into the minted token.

use vstd::prelude::*;
use crate::json::{Json, JsonView};
use crate::marketplace::Marketplace;
use crate::mintbase::mintbase_outcome;
use crate::nft::{outcome_view, NFTView, ParseError, NFT};
use crate::paras::paras_outcome;
use crate::record::payload_view;

verus! {

/// What the parser of `marketplace` makes of a payload. No payload gives a
/// token for a marketplace that is not known.
pub open spec fn parse_outcome(
    marketplace: Marketplace,
    payload: Option<JsonView>,
    receiver: Seq<char>,
) -> Result<Option<NFTView>, ParseError> {
    match marketplace {
        Marketplace::Mintbase => mintbase_outcome(payload, receiver),
        Marketplace::Paras => paras_outcome(payload, receiver),
        Marketplace::Unknown => Ok(None),
    }
}

impl Marketplace {
    /// Reads the payload of a mint event by the schema of this marketplace.
    /// An absent payload gives no token and is no error; a present one that
    /// the schema does not fit gives the reason.
    pub fn convert_event_data_to_nfts(
        &self,
        event_data: Option<&Json>,
        receiver_id: &str,
    ) -> (outcome: Result<Option<NFT>, ParseError>)
        ensures
            outcome_view(outcome) == parse_outcome(*self, payload_view(event_data), receiver_id@),
            outcome matches Ok(Some(nft)) ==> nft@.well_formed(),
            event_data is None ==> outcome == Ok::<Option<NFT>, ParseError>(None),
            *self == Marketplace::Unknown ==> outcome == Ok::<Option<NFT>, ParseError>(None),
    {
        match self {
            Marketplace::Mintbase => self.mintbase(event_data, receiver_id),
            Marketplace::Paras => self.paras(event_data, receiver_id),
            Marketplace::Unknown => Ok(self.unknown(event_data)),
        }
    }

    /// Gives no token, whatever the payload.
    pub fn unknown(&self, _event_data: Option<&Json>) -> (nft: Option<NFT>)
        ensures
            nft is None,
    {
        None
    }
}

} // verus!
