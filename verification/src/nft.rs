//! The token that a mint event gives, and why an event may give none.

use vstd::prelude::*;

verus! {

/// A minted token: the account that owns it and the links under which its
/// marketplace shows it. One that a parser gives has at least one link.
#[derive(Debug, PartialEq, Eq)]
pub struct NFT {
    pub owner: String,
    pub links: Vec<String>,
}

/// The mathematical value of an [`NFT`].
pub struct NFTView {
    pub owner: Seq<char>,
    pub links: Seq<Seq<char>>,
}

/// The characters of each string of `strings`.
pub open spec fn texts_of(strings: Seq<String>) -> Seq<Seq<char>> {
    strings.map_values(|text: String| text@)
}

impl View for NFT {
    type V = NFTView;

    open spec fn view(&self) -> NFTView {
        NFTView { owner: self.owner@, links: texts_of(self.links@) }
    }
}

impl NFTView {
    /// A token record is well formed when it has a link.
    pub open spec fn well_formed(self) -> bool {
        self.links.len() > 0
    }
}

/// Why a payload gives no token though it is present.
#[derive(Clone, Copy, Debug, PartialEq, Eq, Structural)]
pub enum ParseError {
    /// The payload is not an array.
    NotASequence,
    /// The payload is an array without a record.
    NoRecords,
    /// The record at this position, the first such, has not the shape that
    /// the marketplace gives its records.
    MalformedRecord(usize),
    /// The first record names no token.
    NoTokenIds,
}

/// What a parser makes of one event: a token, nothing, or the reason why the
/// payload could not be read.
pub open spec fn outcome_view(outcome: Result<Option<NFT>, ParseError>) -> Result<
    Option<NFTView>,
    ParseError,
> {
    match outcome {
        Ok(Some(nft)) => Ok(Some(nft@)),
        Ok(None) => Ok(None),
        Err(error) => Err(error),
    }
}

} // verus!
