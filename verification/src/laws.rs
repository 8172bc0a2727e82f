//! What holds of the resolver, the parsers and the block reader on every
//! input.

use vstd::prelude::*;
use crate::block::{
    block_records, is_mint_event, minted_tokens, minting, receipt_record, recording,
    token_of_event, EventView, NFTReceiptView, ReceiptView,
};
use crate::json::JsonView;
use crate::marketplace::{is_mintbase_account, marketplace_of, paras_account, Marketplace};
use crate::nft::{outcome_view, NFTView, ParseError, NFT};
use crate::paras::paras_outcome;
use crate::sequence::{lemma_filter_map_of_none, lemma_filter_map_skips};

verus! {

/// A receiver that neither follows the Mintbase naming rule nor is the Paras
/// account belongs to no known marketplace.
pub proof fn lemma_unrecognised_receiver_is_unknown(receiver: Seq<char>)
    requires
        !is_mintbase_account(receiver),
        receiver != paras_account(),
    ensures
        marketplace_of(receiver) == Marketplace::Unknown,
{
}

/// A receipt without a mint event minted no token.
pub proof fn lemma_no_mint_event_no_token(receipt: ReceiptView)
    requires
        forall|i: int|
            0 <= i < receipt.events.len() ==> !is_mint_event(#[trigger] receipt.events[i]),
    ensures
        minted_tokens(receipt) == Seq::<NFTView>::empty(),
        receipt_record(receipt) is None,
{
    lemma_filter_map_of_none(receipt.events, minting(receipt.receiver_id));
}

/// A receipt without a mint event is left out of the records of its block:
/// the block has the records that it has without that receipt.
pub proof fn lemma_receipt_without_mint_event_is_excluded(receipts: Seq<ReceiptView>, index: int)
    requires
        0 <= index < receipts.len(),
        forall|i: int|
            0 <= i < receipts[index].events.len() ==> !is_mint_event(
                #[trigger] receipts[index].events[i],
            ),
    ensures
        block_records(receipts) == block_records(receipts.remove(index)),
{
    lemma_no_mint_event_no_token(receipts[index]);
    lemma_filter_map_skips(receipts, recording(), index);
}

/// A receipt whose receiver belongs to no known marketplace minted no token,
/// whatever the payloads of its events, and is left out of the records of its
/// block.
pub proof fn lemma_unknown_receiver_is_excluded(receipts: Seq<ReceiptView>, index: int)
    requires
        0 <= index < receipts.len(),
        marketplace_of(receipts[index].receiver_id) == Marketplace::Unknown,
    ensures
        minted_tokens(receipts[index]) == Seq::<NFTView>::empty(),
        block_records(receipts) == block_records(receipts.remove(index)),
{
    let receipt = receipts[index];
    lemma_filter_map_of_none(receipt.events, minting(receipt.receiver_id));
    lemma_filter_map_skips(receipts, recording(), index);
}

/// An event that gives no token, be it that its payload cannot be read, does
/// not change what the other events of its receipt give: the receipt minted
/// the tokens that it minted without that event.
pub proof fn lemma_event_without_token_is_skipped(receipt: ReceiptView, index: int)
    requires
        0 <= index < receipt.events.len(),
        token_of_event(receipt.receiver_id, receipt.events[index]) is None,
    ensures
        minted_tokens(receipt) == minted_tokens(
            ReceiptView { events: receipt.events.remove(index), ..receipt },
        ),
{
    lemma_filter_map_skips(receipt.events, minting(receipt.receiver_id), index);
}

/// Every token that a receipt minted was read from one of its events: a mint
/// event whose payload the parser of the receipt's marketplace could read.
pub proof fn lemma_token_traces_to_event(receipt: ReceiptView, k: int)
    requires
        0 <= k < minted_tokens(receipt).len(),
    ensures
        exists|i: int|
            0 <= i < receipt.events.len() && is_mint_event(#[trigger] receipt.events[i])
                && token_of_event(receipt.receiver_id, receipt.events[i]) == Some(
                minted_tokens(receipt)[k],
            ),
{
    let f = minting(receipt.receiver_id);
    let token = minted_tokens(receipt)[k];
    receipt.events.lemma_filter_map_contains(f, token);
    let event = choose|event: EventView| #[trigger]
        receipt.events.contains(event) && f(event) == Some(token);
    let i = choose|i: int| 0 <= i < receipt.events.len() && receipt.events[i] == event;
    assert(token_of_event(receipt.receiver_id, receipt.events[i]) == Some(token));
}

/// Every record of a block is the record of one of its receipts, which
/// minted the tokens that the record holds.
pub proof fn lemma_record_traces_to_receipt(receipts: Seq<ReceiptView>, k: int)
    requires
        0 <= k < block_records(receipts).len(),
    ensures
        exists|i: int|
            0 <= i < receipts.len() && receipt_record(#[trigger] receipts[i]) == Some(
                block_records(receipts)[k],
            ),
        block_records(receipts)[k].nfts.len() > 0,
{
    let record = block_records(receipts)[k];
    receipts.lemma_filter_map_contains(recording(), record);
    let receipt = choose|receipt: ReceiptView| #[trigger]
        receipts.contains(receipt) && recording()(receipt) == Some(record);
    let i = choose|i: int| 0 <= i < receipts.len() && receipts[i] == receipt;
    assert(receipt_record(receipts[i]) == Some(record));
}

/// The Paras parser is a function of the payload and the receiver: two
/// results that it gives for the same payload and receiver hold the same
/// owner and the same links, character by character, or the same error.
pub proof fn lemma_paras_parsing_is_repeatable(
    payload: Option<JsonView>,
    receiver: Seq<char>,
    first: Result<Option<NFT>, ParseError>,
    second: Result<Option<NFT>, ParseError>,
)
    requires
        outcome_view(first) == paras_outcome(payload, receiver),
        outcome_view(second) == paras_outcome(payload, receiver),
    ensures
        outcome_view(first) == outcome_view(second),
        first matches Ok(Some(nft)) ==> second matches Ok(Some(again)) && nft@ == again@,
        first is Err ==> first == second,
        first == Ok::<Option<NFT>, ParseError>(None) ==> first == second,
{
}

/// A block without receipts has no records.
pub proof fn lemma_empty_block_has_no_records()
    ensures
        block_records(Seq::<ReceiptView>::empty()) == Seq::<NFTReceiptView>::empty(),
{
}

} // verus!
