//! Classifies the NFT mint events of a block and extracts, for each newly
//! minted token, its owner and the links under which a marketplace shows it.
//!
//! A [`block::Block`] holds receipts, each with the account that executed it
//! and the events that it emitted. [`block::handle_block`] reads one block:
//! for every receipt it resolves the marketplace of the receiver
//! ([`marketplace::Marketplace::resolve`]), lets the parser of that
//! marketplace read the payload of each `nft_mint` event
//! ([`marketplace::Marketplace::convert_event_data_to_nfts`]), and gives one
//! record for each receipt that minted a token. Nothing is kept from one block
//! to the next.
//!
//! Every function states what it returns over the views of its arguments, and
//! [`laws`] holds what follows for every input.

pub mod block;
pub mod json;
pub mod laws;
pub mod log;
pub mod marketplace;
pub mod mintbase;
pub mod nft;
pub mod paras;
pub mod payload;
pub mod record;
pub mod sequence;
pub mod text;
