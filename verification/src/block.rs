//! A block of receipts with the events they emitted, the mint events among
//! them, and the tokens that each receipt minted.

use vstd::prelude::*;
use crate::json::{optional_view, Json, JsonView};
use crate::marketplace::{marketplace_of, Marketplace};
use crate::nft::{NFTView, NFT};
use crate::payload::parse_outcome;
use crate::text::same_text;

verus! {

/// An event that a receipt emitted: its name and, if it has one, its payload.
#[derive(Debug, PartialEq, Eq)]
pub struct Event {
    pub event: String,
    pub data: Option<Json>,
}

/// The mathematical value of an [`Event`].
pub struct EventView {
    pub event: Seq<char>,
    pub data: Option<JsonView>,
}

impl View for Event {
    type V = EventView;

    open spec fn view(&self) -> EventView {
        EventView { event: self.event@, data: optional_view(self.data) }
    }
}

/// A receipt: its id, the account that executed it, and the events that it
/// emitted, in their order.
#[derive(Debug, PartialEq, Eq)]
pub struct Receipt {
    pub receipt_id: String,
    pub receiver_id: String,
    pub events: Vec<Event>,
}

/// The mathematical value of a [`Receipt`].
pub struct ReceiptView {
    pub receipt_id: Seq<char>,
    pub receiver_id: Seq<char>,
    pub events: Seq<EventView>,
}

impl View for Receipt {
    type V = ReceiptView;

    open spec fn view(&self) -> ReceiptView {
        ReceiptView {
            receipt_id: self.receipt_id@,
            receiver_id: self.receiver_id@,
            events: self.events@.map_values(|event: Event| event@),
        }
    }
}

/// A block: its height and its receipts, in their order.
#[derive(Debug, PartialEq, Eq)]
pub struct Block {
    pub height: u64,
    pub receipts: Vec<Receipt>,
}

/// The mathematical value of a [`Block`].
pub struct BlockView {
    pub height: u64,
    pub receipts: Seq<ReceiptView>,
}

impl View for Block {
    type V = BlockView;

    open spec fn view(&self) -> BlockView {
        BlockView {
            height: self.height,
            receipts: self.receipts@.map_values(|receipt: Receipt| receipt@),
        }
    }
}

/// The tokens that one receipt minted, with the receipt's id and the name of
/// its marketplace.
#[derive(Debug, PartialEq, Eq)]
pub struct NFTReceipt {
    pub receipt_id: String,
    pub marketplace_name: String,
    pub nfts: Vec<NFT>,
}

/// The mathematical value of an [`NFTReceipt`].
pub struct NFTReceiptView {
    pub receipt_id: Seq<char>,
    pub marketplace_name: Seq<char>,
    pub nfts: Seq<NFTView>,
}

/// The tokens `nfts`, each by its view.
pub open spec fn nft_views(nfts: Seq<NFT>) -> Seq<NFTView> {
    nfts.map_values(|nft: NFT| nft@)
}

impl View for NFTReceipt {
    type V = NFTReceiptView;

    open spec fn view(&self) -> NFTReceiptView {
        NFTReceiptView {
            receipt_id: self.receipt_id@,
            marketplace_name: self.marketplace_name@,
            nfts: nft_views(self.nfts@),
        }
    }
}

impl NFTReceiptView {
    /// A record is well formed when it names Mintbase or Paras and holds at
    /// least one token, each of them well formed.
    pub open spec fn well_formed(self) -> bool {
        &&& self.marketplace_name == Marketplace::Mintbase.display_name()
            || self.marketplace_name == Marketplace::Paras.display_name()
        &&& self.nfts.len() > 0
        &&& forall|i: int| 0 <= i < self.nfts.len() ==> (#[trigger] self.nfts[i]).well_formed()
    }
}

/// What the events of one receipt gave: the marketplace of the receipt; the
/// tokens minted, in the order of their events; for each token the position
/// of the event that it was read from; and the positions of the mint events,
/// which are the events that were consumed, whether they gave a token or not.
#[derive(Debug, PartialEq, Eq)]
pub struct Classification {
    pub marketplace: Marketplace,
    pub nfts: Vec<NFT>,
    pub sources: Vec<usize>,
    pub consumed: Vec<usize>,
}

/// The mathematical value of a [`Classification`].
pub struct ClassificationView {
    pub marketplace: Marketplace,
    pub nfts: Seq<NFTView>,
    pub sources: Seq<int>,
    pub consumed: Seq<int>,
}

/// The positions `indices` as integers.
pub open spec fn position_views(indices: Seq<usize>) -> Seq<int> {
    indices.map_values(|index: usize| index as int)
}

impl View for Classification {
    type V = ClassificationView;

    open spec fn view(&self) -> ClassificationView {
        ClassificationView {
            marketplace: self.marketplace,
            nfts: nft_views(self.nfts@),
            sources: position_views(self.sources@),
            consumed: position_views(self.consumed@),
        }
    }
}

/// A mint event is one called exactly `nft_mint`.
pub open spec fn is_mint_event(event: EventView) -> bool {
    event.event == "nft_mint"@
}

/// The token that `event` gives to a receipt executed by `receiver`: the one
/// that the parser of the receiver's marketplace reads from the payload of a
/// mint event. Any other event gives none, and so does a mint event whose
/// payload is absent or cannot be read.
pub open spec fn token_of_event(receiver: Seq<char>, event: EventView) -> Option<NFTView> {
    if is_mint_event(event) {
        match parse_outcome(marketplace_of(receiver), event.data, receiver) {
            Ok(Some(nft)) => Some(nft),
            _ => None,
        }
    } else {
        None
    }
}

/// `token_of_event` for the receiver `receiver`.
pub open spec fn minting(receiver: Seq<char>) -> spec_fn(EventView) -> Option<NFTView> {
    |event: EventView| token_of_event(receiver, event)
}

/// The tokens that a receipt minted, in the order of their events.
pub open spec fn minted_tokens(receipt: ReceiptView) -> Seq<NFTView> {
    receipt.events.filter_map(minting(receipt.receiver_id))
}

/// The positions `0` to `count - 1`.
pub open spec fn positions(count: nat) -> Seq<int> {
    Seq::new(count, |index: int| index)
}

/// The test that the event at a position of `receipt` gives a token.
pub open spec fn gives_token(receipt: ReceiptView) -> spec_fn(int) -> bool {
    |index: int| token_of_event(receipt.receiver_id, receipt.events[index]) is Some
}

/// The positions of the events of `receipt` that give a token, ascending.
pub open spec fn source_events(receipt: ReceiptView) -> Seq<int> {
    positions(receipt.events.len()).filter(gives_token(receipt))
}

/// The test that the event at a position of `receipt` is a mint event.
pub open spec fn is_mint_at(receipt: ReceiptView) -> spec_fn(int) -> bool {
    |index: int| is_mint_event(receipt.events[index])
}

/// The positions of the mint events of `receipt`, ascending.
pub open spec fn consumed_events(receipt: ReceiptView) -> Seq<int> {
    positions(receipt.events.len()).filter(is_mint_at(receipt))
}

/// What the events of `receipt` give.
pub open spec fn classification_of(receipt: ReceiptView) -> ClassificationView {
    ClassificationView {
        marketplace: marketplace_of(receipt.receiver_id),
        nfts: minted_tokens(receipt),
        sources: source_events(receipt),
        consumed: consumed_events(receipt),
    }
}

/// The record of a receipt in the output of its block: none for a receipt
/// that minted no token.
pub open spec fn receipt_record(receipt: ReceiptView) -> Option<NFTReceiptView> {
    if minted_tokens(receipt).len() > 0 {
        Some(
            NFTReceiptView {
                receipt_id: receipt.receipt_id,
                marketplace_name: marketplace_of(receipt.receiver_id).display_name(),
                nfts: minted_tokens(receipt),
            },
        )
    } else {
        None
    }
}

/// `receipt_record` as a value.
pub open spec fn recording() -> spec_fn(ReceiptView) -> Option<NFTReceiptView> {
    |receipt: ReceiptView| receipt_record(receipt)
}

/// The records of the receipts `receipts`, in the order of the receipts.
pub open spec fn block_records(receipts: Seq<ReceiptView>) -> Seq<NFTReceiptView> {
    receipts.filter_map(recording())
}

/// The records `records`, each by its view.
pub open spec fn record_views(records: Seq<NFTReceipt>) -> Seq<NFTReceiptView> {
    records.map_values(|record: NFTReceipt| record@)
}

impl Event {
    /// Tests whether this is a mint event.
    pub fn is_mint(&self) -> (mint: bool)
        ensures
            mint == is_mint_event(self@),
    {
        same_text(self.event.as_str(), "nft_mint")
    }
}

impl Receipt {
    /// Reads the mint events of this receipt: resolves the marketplace of the
    /// receiver and lets its parser read each mint event's payload. An event
    /// whose payload cannot be read gives no token and does not keep the
    /// events after it from being read.
    pub fn classify(&self) -> (found: Classification)
        ensures
            found@ == classification_of(self@),
            found.sources@.len() == found.nfts@.len(),
            forall|k: int|
                0 <= k < found.nfts@.len() ==> {
                    &&& (#[trigger] found.sources@[k]) < self.events@.len()
                    &&& is_mint_event(self@.events[found.sources@[k] as int])
                    &&& token_of_event(self@.receiver_id, self@.events[found.sources@[k] as int])
                        == Some(found.nfts@[k]@)
                    &&& found.nfts@[k]@.well_formed()
                },
            forall|j: int, k: int|
                0 <= j < k < found.sources@.len() ==> found.sources@[j] < found.sources@[k],
            forall|k: int|
                0 <= k < found.consumed@.len() ==> {
                    &&& (#[trigger] found.consumed@[k]) < self.events@.len()
                    &&& is_mint_event(self@.events[found.consumed@[k] as int])
                },
            forall|j: int, k: int|
                0 <= j < k < found.consumed@.len() ==> found.consumed@[j] < found.consumed@[k],
            found.consumed@.len() == 0 ==> found.nfts@.len() == 0,
            (forall|i: int|
                0 <= i < self@.events.len() ==> !is_mint_event(#[trigger] self@.events[i]))
                ==> found.consumed@.len() == 0,
            found.marketplace == Marketplace::Unknown ==> found.nfts@.len() == 0,
    {
        let marketplace = Marketplace::resolve(self.receiver_id.as_str());
        let ghost receipt = self@;
        let ghost events = receipt.events;
        let ghost minted_by = minting(receipt.receiver_id);
        let ghost gives = gives_token(receipt);
        let ghost mints = is_mint_at(receipt);
        let mut nfts: Vec<NFT> = Vec::new();
        let mut sources: Vec<usize> = Vec::new();
        let mut consumed: Vec<usize> = Vec::new();
        let mut i: usize = 0;
        proof {
            reveal(Seq::filter);
        }
        while i < self.events.len()
            invariant
                i <= self.events.len(),
                receipt == self@,
                events == receipt.events,
                events.len() == self.events@.len(),
                minted_by == minting(receipt.receiver_id),
                gives == gives_token(receipt),
                mints == is_mint_at(receipt),
                marketplace == marketplace_of(receipt.receiver_id),
                nft_views(nfts@) == events.take(i as int).filter_map(minted_by),
                position_views(sources@) == positions(i as nat).filter(gives),
                position_views(consumed@) == positions(i as nat).filter(mints),
                sources@.len() == nfts@.len(),
                forall|k: int|
                    0 <= k < nfts@.len() ==> {
                        &&& (#[trigger] sources@[k]) < i
                        &&& is_mint_event(events[sources@[k] as int])
                        &&& token_of_event(receipt.receiver_id, events[sources@[k] as int])
                            == Some(nfts@[k]@)
                        &&& nfts@[k]@.well_formed()
                    },
                forall|j: int, k: int| 0 <= j < k < sources@.len() ==> sources@[j] < sources@[k],
                forall|k: int|
                    0 <= k < consumed@.len() ==> {
                        &&& (#[trigger] consumed@[k]) < i
                        &&& is_mint_event(events[consumed@[k] as int])
                    },
                forall|j: int, k: int|
                    0 <= j < k < consumed@.len() ==> consumed@[j] < consumed@[k],
                consumed@.len() == 0 ==> nfts@.len() == 0,
                (forall|j: int| 0 <= j < i ==> !is_mint_event(#[trigger] events[j]))
                    ==> consumed@.len() == 0,
                marketplace == Marketplace::Unknown ==> nfts@.len() == 0,
            decreases self.events.len() - i,
        {
            let event = &self.events[i];
            proof {
                events.lemma_filter_map_take_succ(minted_by, i as int);
                assert(positions((i + 1) as nat) =~= positions(i as nat).push(i as int));
                positions(i as nat).lemma_filter_push(i as int, gives);
                positions(i as nat).lemma_filter_push(i as int, mints);
            }
            if event.is_mint() {
                consumed.push(i);
                let data = match &event.data {
                    Some(json) => Some(json),
                    None => None,
                };
                match marketplace.convert_event_data_to_nfts(data, self.receiver_id.as_str()) {
                    Ok(Some(nft)) => {
                        nfts.push(nft);
                        sources.push(i);
                    },
                    _ => {},
                }
            }
            i += 1;
        }
        proof {
            assert(events.take(i as int) =~= events);
        }
        Classification { marketplace, nfts, sources, consumed }
    }
}

/// Reads one block: gives, for each receipt that minted at least one token,
/// its record, in the order of the receipts.
pub fn handle_block(block: &Block) -> (records: Vec<NFTReceipt>)
    ensures
        record_views(records@) == block_records(block@.receipts),
        forall|k: int| 0 <= k < records@.len() ==> (#[trigger] records@[k])@.well_formed(),
        block.receipts@.len() == 0 ==> records@.len() == 0,
{
    let ghost receipts = block@.receipts;
    let ghost f = recording();
    let mut records: Vec<NFTReceipt> = Vec::new();
    let mut i: usize = 0;
    while i < block.receipts.len()
        invariant
            i <= block.receipts.len(),
            receipts == block@.receipts,
            receipts.len() == block.receipts@.len(),
            f == recording(),
            record_views(records@) == receipts.take(i as int).filter_map(f),
            forall|k: int| 0 <= k < records@.len() ==> (#[trigger] records@[k])@.well_formed(),
            i == 0 ==> records@.len() == 0,
        decreases block.receipts.len() - i,
    {
        let receipt = &block.receipts[i];
        proof {
            receipts.lemma_filter_map_take_succ(f, i as int);
        }
        let found = receipt.classify();
        if found.nfts.len() > 0 {
            let record = NFTReceipt {
                receipt_id: receipt.receipt_id.clone(),
                marketplace_name: found.marketplace.name(),
                nfts: found.nfts,
            };
            assert forall|k: int| 0 <= k < record@.nfts.len() implies (
            #[trigger] record@.nfts[k]).well_formed() by {
                assert(found.sources@[k] < receipt.events@.len());
            }
            records.push(record);
        }
        i += 1;
    }
    proof {
        assert(receipts.take(i as int) =~= receipts);
    }
    records
}

} // verus!
