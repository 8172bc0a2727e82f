use nft_indexer::marketplace::{follows_mintbase_rule, Marketplace};
use nft_indexer::text::{chars_of, find_char, matches_at, same_text};

#[test]
fn names_of_the_marketplaces() {
    assert_eq!(Marketplace::Mintbase.name(), "Mintbase");
    assert_eq!(Marketplace::Paras.name(), "Paras");
    assert_eq!(Marketplace::Unknown.name(), "Unknown");
}

#[test]
fn mintbase_store_resolves_to_mintbase() {
    assert_eq!(Marketplace::resolve("factory.mintbase1.near"), Marketplace::Mintbase);
    assert_eq!(Marketplace::resolve("nearcon2.mintbase17.near"), Marketplace::Mintbase);
}

#[test]
fn paras_account_resolves_to_paras() {
    assert_eq!(Marketplace::resolve("x.paras.near"), Marketplace::Paras);
}

#[test]
fn other_accounts_resolve_to_unknown() {
    assert_eq!(Marketplace::resolve("unknown.near"), Marketplace::Unknown);
    assert_eq!(Marketplace::resolve(""), Marketplace::Unknown);
    assert_eq!(Marketplace::resolve("paras.near"), Marketplace::Unknown);
    assert_eq!(Marketplace::resolve("y.x.paras.near"), Marketplace::Unknown);
    assert_eq!(Marketplace::resolve("x.paras.near "), Marketplace::Unknown);
    assert_eq!(Marketplace::resolve("X.PARAS.NEAR"), Marketplace::Unknown);
}

#[test]
fn mintbase_rule_needs_no_prefix() {
    assert!(follows_mintbase_rule("mintbase1.near"));
    assert!(follows_mintbase_rule("xmintbase1.near"));
    assert!(follows_mintbase_rule("mintbase0123456789.near"));
}

#[test]
fn mintbase_rule_needs_a_digit() {
    assert!(!follows_mintbase_rule("factory.mintbase.near"));
    assert!(!follows_mintbase_rule("mintbase.near"));
}

#[test]
fn mintbase_rule_takes_only_decimal_digits() {
    assert!(!follows_mintbase_rule("factory.mintbase1x.near"));
    assert!(!follows_mintbase_rule("factory.mintbasex1.near"));
    assert!(!follows_mintbase_rule("factory.mintbase-1.near"));
    assert!(!follows_mintbase_rule("factory.mintbase\u{661}.near"));
    assert!(!follows_mintbase_rule("factory.mintbase/.near"));
    assert!(!follows_mintbase_rule("factory.mintbase:.near"));
}

#[test]
fn mintbase_rule_needs_the_literal_ending() {
    assert!(!follows_mintbase_rule("factory.mintbase1xnear"));
    assert!(!follows_mintbase_rule("factory.mintbase1.near.x"));
    assert!(!follows_mintbase_rule("factory.mintbase1.nea"));
    assert!(!follows_mintbase_rule("factory.mintbase1.NEAR"));
    assert!(!follows_mintbase_rule("factory.Mintbase1.near"));
    assert!(!follows_mintbase_rule("factory.mintbas1.near"));
    assert!(!follows_mintbase_rule("1.near"));
    assert!(!follows_mintbase_rule(".near"));
    assert!(!follows_mintbase_rule("near"));
    assert!(!follows_mintbase_rule(""));
}

#[test]
fn mintbase_rule_comes_before_the_paras_account() {
    assert_eq!(Marketplace::resolve("x.paras.mintbase1.near"), Marketplace::Mintbase);
}

#[test]
fn resolving_twice_gives_the_same() {
    let first = Marketplace::resolve("factory.mintbase1.near");
    let second = Marketplace::resolve("factory.mintbase1.near");
    assert_eq!(first, second);
}

#[test]
fn chars_of_a_string() {
    assert_eq!(chars_of(""), Vec::<char>::new());
    assert_eq!(chars_of("a:b"), vec!['a', ':', 'b']);
    assert_eq!(chars_of("\u{e9}t\u{e9}"), vec!['\u{e9}', 't', '\u{e9}']);
}

#[test]
fn matching_at_a_position() {
    let hay = chars_of("x.paras.near");
    assert!(matches_at(&hay, 0, &chars_of("x.")));
    assert!(matches_at(&hay, 7, &chars_of(".near")));
    assert!(matches_at(&hay, 12, &chars_of("")));
    assert!(!matches_at(&hay, 8, &chars_of(".near")));
    assert!(!matches_at(&hay, 6, &chars_of(".near")));
    assert!(!matches_at(&hay, 13, &chars_of("")));
    assert!(!matches_at(&hay, usize::MAX, &chars_of("ab")));
}

#[test]
fn same_text_compares_characters() {
    assert!(same_text("nft_mint", "nft_mint"));
    assert!(same_text("", ""));
    assert!(!same_text("nft_mint", "nft_mint "));
    assert!(!same_text("nft_mint", "NFT_MINT"));
    assert!(!same_text("nft_mint", "nft_min"));
}

#[test]
fn finding_the_first_occurrence() {
    assert_eq!(find_char(&chars_of("42:7"), ':'), 2);
    assert_eq!(find_char(&chars_of("a:b:c"), ':'), 1);
    assert_eq!(find_char(&chars_of(":7"), ':'), 0);
    assert_eq!(find_char(&chars_of("427"), ':'), 3);
    assert_eq!(find_char(&chars_of(""), ':'), 0);
}
