//! The marketplaces whose mint events are understood, and the rule that tells
//! from a receiver account which of them emitted an event.

use vstd::prelude::*;
use crate::text::{chars_of, matches_at, occurs_at, same_text};

verus! {

/// A marketplace contract family.
#[derive(Clone, Copy, Debug, PartialEq, Eq, Structural)]
pub enum Marketplace {
    Mintbase,
    Paras,
    Unknown,
}

/// Whether `c` is one of the decimal digits `0` to `9`.
pub open spec fn is_decimal_digit(c: char) -> bool {
    '0' <= c && c <= '9'
}

/// Whether every character of `chars` is a decimal digit.
pub open spec fn all_decimal_digits(chars: Seq<char>) -> bool {
    forall|i: int| 0 <= i < chars.len() ==> is_decimal_digit(#[trigger] chars[i])
}

/// The account `<prefix>mintbase<number>.near`.
pub open spec fn mintbase_account(prefix: Seq<char>, number: Seq<char>) -> Seq<char> {
    prefix + "mintbase"@ + number + ".near"@
}

/// The Mintbase naming rule: the account ends with `mintbase`, a number of at
/// least one decimal digit, and `.near`.
pub open spec fn is_mintbase_account(account: Seq<char>) -> bool {
    exists|prefix: Seq<char>, number: Seq<char>|
        number.len() > 0 && all_decimal_digits(number) && account == #[trigger] mintbase_account(
            prefix,
            number,
        )
}

/// The account of the Paras marketplace.
pub open spec fn paras_account() -> Seq<char> {
    "x.paras.near"@
}

/// The marketplace that an account belongs to: Mintbase by its naming rule,
/// else Paras by its one account, else none that is known.
pub open spec fn marketplace_of(account: Seq<char>) -> Marketplace {
    if is_mintbase_account(account) {
        Marketplace::Mintbase
    } else if account == paras_account() {
        Marketplace::Paras
    } else {
        Marketplace::Unknown
    }
}

/// Tests whether `c` is a decimal digit.
fn is_digit(c: char) -> (digit: bool)
    ensures
        digit == is_decimal_digit(c),
{
    '0' <= c && c <= '9'
}

/// An account that has, from `start`, a number of decimal digits up to a
/// final `.near`, with no digit just before `start`, follows the Mintbase rule
/// exactly when the number is not empty and `mintbase` stands just before it.
pub proof fn lemma_mintbase_rule(account: Seq<char>, start: int)
    requires
        0 <= start <= account.len() - ".near"@.len(),
        occurs_at(account, account.len() - ".near"@.len(), ".near"@),
        all_decimal_digits(account.subrange(start, account.len() - ".near"@.len())),
        start > 0 ==> !is_decimal_digit(account[start - 1]),
    ensures
        is_mintbase_account(account) <==> (start < account.len() - ".near"@.len() && occurs_at(
            account,
            start - "mintbase"@.len(),
            "mintbase"@,
        )),
{
    reveal_strlit("mintbase");
    let mint = "mintbase"@;
    let near = ".near"@;
    let end = account.len() - near.len();
    if start < end && occurs_at(account, start - mint.len(), mint) {
        let prefix = account.take(start - mint.len());
        let number = account.subrange(start, end);
        assert(account =~= mintbase_account(prefix, number));
    }
    if is_mintbase_account(account) {
        let (prefix, number) = choose|prefix: Seq<char>, number: Seq<char>|
            number.len() > 0 && all_decimal_digits(number) && account == #[trigger] mintbase_account(
                prefix,
                number,
            );
        let first = prefix.len() + mint.len();
        if start < first {
            let digits = account.subrange(start, end);
            assert(digits[first - 1 - start] == account[first - 1]);
        }
        assert(account.subrange(start - mint.len(), start) =~= mint);
    }
}

/// An account that follows the Mintbase rule ends with `.near`.
pub proof fn lemma_mintbase_account_ends_with_near(account: Seq<char>)
    requires
        is_mintbase_account(account),
    ensures
        occurs_at(account, account.len() - ".near"@.len(), ".near"@),
{
    let near = ".near"@;
    let (prefix, number) = choose|prefix: Seq<char>, number: Seq<char>|
        number.len() > 0 && all_decimal_digits(number) && account == #[trigger] mintbase_account(
            prefix,
            number,
        );
    assert(account.subrange(account.len() - near.len(), account.len() as int) =~= near);
}

/// Tests whether `account` follows the Mintbase naming rule.
pub fn follows_mintbase_rule(account: &str) -> (follows: bool)
    ensures
        follows == is_mintbase_account(account@),
{
    let id = chars_of(account);
    let mint = chars_of("mintbase");
    let near = chars_of(".near");
    if id.len() < near.len() || !matches_at(&id, id.len() - near.len(), &near) {
        proof {
            if is_mintbase_account(id@) {
                lemma_mintbase_account_ends_with_near(id@);
            }
        }
        return false;
    }
    let end = id.len() - near.len();
    let mut start = end;
    while start > 0 && is_digit(id[start - 1])
        invariant
            start <= end,
            end <= id.len(),
            forall|i: int| start <= i < end ==> is_decimal_digit(id@[i]),
        decreases start,
    {
        start -= 1;
    }
    proof {
        lemma_mintbase_rule(id@, start as int);
    }
    start < end && start >= mint.len() && matches_at(&id, start - mint.len(), &mint)
}

impl Marketplace {
    /// The display name of the marketplace, as a sequence of characters.
    pub open spec fn display_name(self) -> Seq<char> {
        match self {
            Marketplace::Mintbase => "Mintbase"@,
            Marketplace::Paras => "Paras"@,
            Marketplace::Unknown => "Unknown"@,
        }
    }

    /// The display name of the marketplace.
    pub fn name(&self) -> (name: String)
        ensures
            name@ == self.display_name(),
    {
        match self {
            Marketplace::Mintbase => "Mintbase".to_owned(),
            Marketplace::Paras => "Paras".to_owned(),
            Marketplace::Unknown => "Unknown".to_owned(),
        }
    }

    /// Resolves the marketplace of a receiver account. Every account resolves
    /// to one marketplace; one that neither follows the Mintbase rule nor is
    /// the Paras account resolves to `Unknown`.
    pub fn resolve(receiver_id: &str) -> (marketplace: Marketplace)
        ensures
            marketplace == marketplace_of(receiver_id@),
            !is_mintbase_account(receiver_id@) && receiver_id@ != paras_account()
                ==> marketplace == Marketplace::Unknown,
    {
        if follows_mintbase_rule(receiver_id) {
            Marketplace::Mintbase
        } else if same_text(receiver_id, "x.paras.near") {
            Marketplace::Paras
        } else {
            Marketplace::Unknown
        }
    }
}

} // verus!
