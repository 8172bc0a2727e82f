use nft_indexer::json::Json;
use nft_indexer::marketplace::Marketplace;
use nft_indexer::mintbase::{
    format_mintbase_thing_link, format_mintbase_token_link, MintbaseEventData, MintbaseMemo,
    MintbaseMemoEventData, MintbasePayload,
};
use nft_indexer::nft::{ParseError, NFT};
use nft_indexer::paras::{format_paras_link, ParasEventData};
use nft_indexer::record::{has_text_member, read_event_data, read_text_list, read_text_member};

fn json(text: &str) -> Json {
    Json::parse(text).expect("the text of a test is JSON")
}

fn nft(owner: &str, links: &[&str]) -> NFT {
    NFT { owner: owner.to_string(), links: links.iter().map(|link| link.to_string()).collect() }
}

#[test]
fn paras_example() {
    let payload = json(r#"[{"owner_id":"alice.near","token_ids":["42:7"]}]"#);
    let outcome = Marketplace::resolve("x.paras.near")
        .convert_event_data_to_nfts(Some(&payload), "x.paras.near");
    assert_eq!(
        outcome,
        Ok(Some(nft("alice.near", &["https://paras.id/token/x.paras.near::42/42:7"])))
    );
}

#[test]
fn mintbase_example() {
    let payload = json(r#"[{"owner_id":"bob.near","token_ids":["99"]}]"#);
    let outcome = Marketplace::resolve("factory.mintbase1.near")
        .convert_event_data_to_nfts(Some(&payload), "factory.mintbase1.near");
    assert_eq!(
        outcome,
        Ok(Some(nft(
            "bob.near",
            &["https://mintbase.io/contract/factory.mintbase1.near/token/99"]
        )))
    );
}

#[test]
fn unknown_marketplace_gives_no_token() {
    let payloads = [
        r#"[{"owner_id":"alice.near","token_ids":["42:7"]}]"#,
        r#"[{"owner_id":"bob.near","memo":"{\"meta_id\":\"m\",\"minter\":\"c.near\"}"}]"#,
        "[]",
        "null",
        "\"text\"",
    ];
    let marketplace = Marketplace::resolve("unknown.near");
    assert_eq!(marketplace, Marketplace::Unknown);
    for text in payloads {
        let payload = json(text);
        assert_eq!(marketplace.convert_event_data_to_nfts(Some(&payload), "unknown.near"), Ok(None));
        assert_eq!(marketplace.unknown(Some(&payload)), None);
    }
    assert_eq!(marketplace.convert_event_data_to_nfts(None, "unknown.near"), Ok(None));
    assert_eq!(marketplace.unknown(None), None);
}

#[test]
fn absent_payload_gives_no_token_and_no_error() {
    assert_eq!(Marketplace::Paras.paras(None, "x.paras.near"), Ok(None));
    assert_eq!(Marketplace::Mintbase.mintbase(None, "factory.mintbase1.near"), Ok(None));
    assert_eq!(Marketplace::Paras.convert_event_data_to_nfts(None, "x.paras.near"), Ok(None));
    assert_eq!(Marketplace::Mintbase.convert_event_data_to_nfts(None, "a.mintbase1.near"), Ok(None));
}

#[test]
fn paras_parsing_twice_gives_the_same() {
    let payload = json(r#"[{"owner_id":"alice.near","token_ids":["42:7","42:8"]}]"#);
    let first = Marketplace::Paras.paras(Some(&payload), "x.paras.near");
    let second = Marketplace::Paras.paras(Some(&payload), "x.paras.near");
    assert_eq!(first, second);
    let first = first.unwrap().unwrap();
    let second = second.unwrap().unwrap();
    assert_eq!(first.owner.as_bytes(), second.owner.as_bytes());
    assert_eq!(first.links.len(), second.links.len());
    for (a, b) in first.links.iter().zip(second.links.iter()) {
        assert_eq!(a.as_bytes(), b.as_bytes());
    }
    let malformed = json(r#"[{"owner_id":"alice.near"}]"#);
    assert_eq!(
        Marketplace::Paras.paras(Some(&malformed), "x.paras.near"),
        Marketplace::Paras.paras(Some(&malformed), "x.paras.near")
    );
}

#[test]
fn paras_gives_one_link_for_each_token_id() {
    let payload = json(r#"[{"owner_id":"alice.near","token_ids":["42:7","43:1","44"]}]"#);
    assert_eq!(
        Marketplace::Paras.paras(Some(&payload), "x.paras.near"),
        Ok(Some(nft(
            "alice.near",
            &[
                "https://paras.id/token/x.paras.near::42/42:7",
                "https://paras.id/token/x.paras.near::43/43:1",
                "https://paras.id/token/x.paras.near::44/44",
            ]
        )))
    );
}

#[test]
fn paras_uses_only_the_first_record() {
    let payload = json(
        r#"[{"owner_id":"alice.near","token_ids":["1:1"]},{"owner_id":"bob.near","token_ids":["2:2"]}]"#,
    );
    assert_eq!(
        Marketplace::Paras.paras(Some(&payload), "x.paras.near"),
        Ok(Some(nft("alice.near", &["https://paras.id/token/x.paras.near::1/1:1"])))
    );
}

#[test]
fn paras_passes_over_other_members() {
    let payload = json(r#"[{"memo":7,"token_ids":["1:1"],"owner_id":"alice.near","x":null}]"#);
    assert_eq!(
        Marketplace::Paras.paras(Some(&payload), "x.paras.near"),
        Ok(Some(nft("alice.near", &["https://paras.id/token/x.paras.near::1/1:1"])))
    );
}

#[test]
fn paras_link_takes_the_series_before_the_first_colon() {
    assert_eq!(format_paras_link("x.paras.near", "42:7"), "https://paras.id/token/x.paras.near::42/42:7");
    assert_eq!(format_paras_link("x.paras.near", "a:b:c"), "https://paras.id/token/x.paras.near::a/a:b:c");
    assert_eq!(format_paras_link("x.paras.near", "427"), "https://paras.id/token/x.paras.near::427/427");
    assert_eq!(format_paras_link("x.paras.near", ":7"), "https://paras.id/token/x.paras.near::/:7");
    assert_eq!(format_paras_link("x.paras.near", "42:"), "https://paras.id/token/x.paras.near::42/42:");
    assert_eq!(format_paras_link("x.paras.near", ""), "https://paras.id/token/x.paras.near::/");
    assert_eq!(format_paras_link("", "s\u{e9}rie:1"), "https://paras.id/token/::s\u{e9}rie/s\u{e9}rie:1");
}

#[test]
fn mintbase_links() {
    assert_eq!(
        format_mintbase_token_link("factory.mintbase1.near", "99"),
        "https://mintbase.io/contract/factory.mintbase1.near/token/99"
    );
    assert_eq!(format_mintbase_token_link("", ""), "https://mintbase.io/contract//token/");
    assert_eq!(
        format_mintbase_thing_link("factory.mintbase1.near", "abc"),
        "https://mintbase.io/thing/abc:factory.mintbase1.near"
    );
    assert_eq!(format_mintbase_thing_link("", ""), "https://mintbase.io/thing/:");
}

#[test]
fn payload_that_is_no_array_is_not_a_sequence() {
    for text in ["null", "true", "7", "\"[]\"", r#"{"owner_id":"alice.near","token_ids":["1:1"]}"#] {
        let payload = json(text);
        assert_eq!(Marketplace::Paras.paras(Some(&payload), "x.paras.near"), Err(ParseError::NotASequence));
        assert_eq!(
            Marketplace::Mintbase.mintbase(Some(&payload), "a.mintbase1.near"),
            Err(ParseError::NotASequence)
        );
    }
}

#[test]
fn payload_without_a_record_has_no_records() {
    let payload = json("[]");
    assert_eq!(Marketplace::Paras.paras(Some(&payload), "x.paras.near"), Err(ParseError::NoRecords));
    assert_eq!(
        Marketplace::Mintbase.mintbase(Some(&payload), "a.mintbase1.near"),
        Err(ParseError::NoRecords)
    );
}

#[test]
fn first_record_of_another_shape_is_malformed() {
    let texts = [
        r#"[{"token_ids":["1:1"]}]"#,
        r#"[{"owner_id":"alice.near"}]"#,
        r#"[{"owner_id":7,"token_ids":["1:1"]}]"#,
        r#"[{"owner_id":"alice.near","token_ids":"1:1"}]"#,
        r#"[{"owner_id":"alice.near","token_ids":["1:1",7]}]"#,
        r#"[{"owner_id":"alice.near","token_ids":[["1:1"]]}]"#,
        r#"[{"OWNER_ID":"alice.near","token_ids":["1:1"]}]"#,
        r#"[["alice.near",["1:1"]]]"#,
        r#"["alice.near"]"#,
        r#"[null]"#,
    ];
    for text in texts {
        let payload = json(text);
        assert_eq!(
            Marketplace::Paras.paras(Some(&payload), "x.paras.near"),
            Err(ParseError::MalformedRecord(0))
        );
        assert_eq!(
            Marketplace::Mintbase.mintbase(Some(&payload), "a.mintbase1.near"),
            Err(ParseError::MalformedRecord(0))
        );
    }
}

#[test]
fn later_record_of_another_shape_is_malformed() {
    let payload = json(
        r#"[{"owner_id":"a.near","token_ids":["1:1"]},{"owner_id":"b.near","token_ids":[]},{"owner_id":"c.near"},{"x":1}]"#,
    );
    assert_eq!(
        Marketplace::Paras.paras(Some(&payload), "x.paras.near"),
        Err(ParseError::MalformedRecord(2))
    );
    assert_eq!(
        Marketplace::Mintbase.mintbase(Some(&payload), "a.mintbase1.near"),
        Err(ParseError::MalformedRecord(2))
    );
}

#[test]
fn first_record_without_a_token_id_names_no_token() {
    let payload = json(r#"[{"owner_id":"alice.near","token_ids":[]}]"#);
    assert_eq!(Marketplace::Paras.paras(Some(&payload), "x.paras.near"), Err(ParseError::NoTokenIds));
    assert_eq!(
        Marketplace::Mintbase.mintbase(Some(&payload), "a.mintbase1.near"),
        Err(ParseError::NoTokenIds)
    );
}

#[test]
fn malformed_record_comes_before_missing_token_ids() {
    let payload = json(r#"[{"owner_id":"alice.near","token_ids":[]},{"owner_id":"b.near"}]"#);
    assert_eq!(
        Marketplace::Paras.paras(Some(&payload), "x.paras.near"),
        Err(ParseError::MalformedRecord(1))
    );
}

#[test]
fn mintbase_uses_only_the_first_token_id() {
    let payload = json(r#"[{"owner_id":"bob.near","token_ids":["99","100"]},{"owner_id":"c.near","token_ids":["1"]}]"#);
    assert_eq!(
        Marketplace::Mintbase.mintbase(Some(&payload), "factory.mintbase1.near"),
        Ok(Some(nft(
            "bob.near",
            &["https://mintbase.io/contract/factory.mintbase1.near/token/99"]
        )))
    );
}

#[test]
fn mintbase_memo_gives_the_link_to_the_thing() {
    let payload = json(
        r#"[{"owner_id":"bob.near","memo":"{\"meta_id\":\"abc\",\"minter\":\"carol.near\"}"}]"#,
    );
    assert_eq!(
        Marketplace::Mintbase.mintbase(Some(&payload), "factory.mintbase1.near"),
        Ok(Some(nft("bob.near", &["https://mintbase.io/thing/abc:factory.mintbase1.near"])))
    );
}

#[test]
fn mintbase_reads_the_memo_before_the_token_ids() {
    let payload = json(
        r#"[{"owner_id":"bob.near","token_ids":["99"],"memo":"{\"royalty\":null,\"meta_id\":\"abc\",\"minter\":\"carol.near\"}"}]"#,
    );
    assert_eq!(
        Marketplace::Mintbase.mintbase(Some(&payload), "factory.mintbase1.near"),
        Ok(Some(nft("bob.near", &["https://mintbase.io/thing/abc:factory.mintbase1.near"])))
    );
}

#[test]
fn mintbase_falls_back_to_the_token_ids() {
    let texts = [
        r#"[{"owner_id":"bob.near","token_ids":["99"],"memo":"not json"}]"#,
        r#"[{"owner_id":"bob.near","token_ids":["99"],"memo":"{\"meta_id\":\"abc\"}"}]"#,
        r#"[{"owner_id":"bob.near","token_ids":["99"],"memo":"{\"minter\":\"carol.near\"}"}]"#,
        r#"[{"owner_id":"bob.near","token_ids":["99"],"memo":"{\"meta_id\":7,\"minter\":\"carol.near\"}"}]"#,
        r#"[{"owner_id":"bob.near","token_ids":["99"],"memo":"[\"abc\",\"carol.near\"]"}]"#,
        r#"[{"owner_id":"bob.near","token_ids":["99"],"memo":{"meta_id":"abc","minter":"carol.near"}}]"#,
        r#"[{"owner_id":"bob.near","token_ids":["99"],"memo":null}]"#,
    ];
    for text in texts {
        let payload = json(text);
        assert_eq!(
            Marketplace::Mintbase.mintbase(Some(&payload), "factory.mintbase1.near"),
            Ok(Some(nft(
                "bob.near",
                &["https://mintbase.io/contract/factory.mintbase1.near/token/99"]
            )))
        );
    }
}

#[test]
fn mintbase_record_of_neither_scheme_is_malformed() {
    let texts = [
        r#"[{"owner_id":"bob.near","memo":"not json"}]"#,
        r#"[{"owner_id":"bob.near","memo":"{\"meta_id\":\"abc\"}"}]"#,
        r#"[{"memo":"{\"meta_id\":\"abc\",\"minter\":\"carol.near\"}"}]"#,
        r#"[{"owner_id":7,"memo":"{\"meta_id\":\"abc\",\"minter\":\"carol.near\"}"}]"#,
    ];
    for text in texts {
        let payload = json(text);
        assert_eq!(
            Marketplace::Mintbase.mintbase(Some(&payload), "factory.mintbase1.near"),
            Err(ParseError::MalformedRecord(0))
        );
    }
}

#[test]
fn mintbase_memo_record_needs_no_token_id() {
    let payload = json(
        r#"[{"owner_id":"bob.near","token_ids":[],"memo":"{\"meta_id\":\"abc\",\"minter\":\"carol.near\"}"}]"#,
    );
    assert_eq!(
        Marketplace::Mintbase.mintbase(Some(&payload), "factory.mintbase1.near"),
        Ok(Some(nft("bob.near", &["https://mintbase.io/thing/abc:factory.mintbase1.near"])))
    );
}

#[test]
fn paras_does_not_read_a_memo() {
    let payload = json(
        r#"[{"owner_id":"bob.near","memo":"{\"meta_id\":\"abc\",\"minter\":\"carol.near\"}"}]"#,
    );
    assert_eq!(
        Marketplace::Paras.paras(Some(&payload), "x.paras.near"),
        Err(ParseError::MalformedRecord(0))
    );
}

#[test]
fn parsers_do_not_depend_on_the_marketplace_they_are_called_on() {
    let payload = json(r#"[{"owner_id":"alice.near","token_ids":["42:7"]}]"#);
    assert_eq!(
        Marketplace::Unknown.paras(Some(&payload), "x.paras.near"),
        Marketplace::Paras.paras(Some(&payload), "x.paras.near")
    );
    assert_eq!(
        Marketplace::Unknown.mintbase(Some(&payload), "a.mintbase1.near"),
        Marketplace::Mintbase.mintbase(Some(&payload), "a.mintbase1.near")
    );
}

#[test]
fn reading_a_list_of_strings() {
    assert_eq!(read_text_list(&json(r#"["a","","b"]"#)), Some(vec!["a".to_string(), String::new(), "b".to_string()]));
    assert_eq!(read_text_list(&json("[]")), Some(vec![]));
    assert_eq!(read_text_list(&json(r#"["a",1]"#)), None);
    assert_eq!(read_text_list(&json(r#"[null,"a"]"#)), None);
    assert_eq!(read_text_list(&json(r#""a""#)), None);
    assert_eq!(read_text_list(&json(r#"{"0":"a"}"#)), None);
}

#[test]
fn reading_a_string_member() {
    let record = json(r#"{"owner_id":"alice.near","n":1}"#);
    assert_eq!(read_text_member(&record, "owner_id"), Some("alice.near".to_string()));
    assert_eq!(read_text_member(&record, "n"), None);
    assert_eq!(read_text_member(&record, "memo"), None);
    assert_eq!(read_text_member(&json("[]"), "owner_id"), None);
    assert!(has_text_member(&record, "owner_id"));
    assert!(!has_text_member(&record, "n"));
    assert!(!has_text_member(&record, "memo"));
    assert!(!has_text_member(&json("\"owner_id\""), "owner_id"));
}

#[test]
fn reading_the_owner_and_the_token_ids() {
    let record = json(r#"{"token_ids":["1:1"],"owner_id":"alice.near","memo":"m"}"#);
    assert_eq!(
        read_event_data(&record),
        Some(("alice.near".to_string(), vec!["1:1".to_string()]))
    );
    assert_eq!(read_event_data(&json(r#"{"owner_id":"alice.near","token_ids":{}}"#)), None);
    assert_eq!(read_event_data(&json(r#"{"owner_id":null,"token_ids":[]}"#)), None);
    assert_eq!(read_event_data(&json(r#""alice.near""#)), None);
}

#[test]
fn reading_records() {
    let record = json(r#"{"owner_id":"alice.near","token_ids":["1:1","2"]}"#);
    assert_eq!(
        ParasEventData::from_json(&record),
        Some(ParasEventData {
            owner_id: "alice.near".to_string(),
            token_ids: vec!["1:1".to_string(), "2".to_string()],
        })
    );
    assert_eq!(
        MintbaseEventData::from_json(&record),
        Some(MintbaseEventData {
            owner_id: "alice.near".to_string(),
            token_ids: vec!["1:1".to_string(), "2".to_string()],
        })
    );
    assert_eq!(ParasEventData::from_json(&json(r#"{"owner_id":"alice.near"}"#)), None);
    assert_eq!(MintbaseEventData::from_json(&json("null")), None);
}

#[test]
fn reading_a_memo() {
    assert_eq!(
        MintbaseMemo::from_json(&json(r#"{"meta_id":"abc","minter":"carol.near","x":1}"#)),
        Some(MintbaseMemo { meta_id: "abc".to_string(), minter: "carol.near".to_string() })
    );
    assert_eq!(MintbaseMemo::from_json(&json(r#"{"meta_id":"abc"}"#)), None);
    assert_eq!(MintbaseMemo::from_json(&json(r#"{"minter":"carol.near"}"#)), None);
    assert_eq!(MintbaseMemo::from_json(&json(r#"{"meta_id":"abc","minter":null}"#)), None);
    assert_eq!(MintbaseMemo::from_json(&json(r#"["abc","carol.near"]"#)), None);
}

#[test]
fn reading_the_text_of_a_memo() {
    let record = json(r#"{"owner_id":"bob.near","memo":"{\"meta_id\":\"abc\"}"}"#);
    assert_eq!(MintbasePayload::read_memo(&record), Some(json(r#"{"meta_id":"abc"}"#)));
    assert_eq!(MintbasePayload::read_memo(&json(r#"{"memo":"{"}"#)), None);
    assert_eq!(MintbasePayload::read_memo(&json(r#"{"memo":["{}"]}"#)), None);
    assert_eq!(MintbasePayload::read_memo(&json(r#"{"owner_id":"bob.near"}"#)), None);
    assert_eq!(
        MintbasePayload::read_memo(&json(r#"{"memo":"7"}"#)),
        Some(Json::Number("7".to_string()))
    );
}

#[test]
fn reading_a_record_with_its_memo_given() {
    let record = json(r#"{"owner_id":"bob.near","token_ids":["99"]}"#);
    let memo = Some(json(r#"{"meta_id":"abc","minter":"carol.near"}"#));
    assert_eq!(
        MintbasePayload::from_json_with(&record, &memo),
        Some(MintbasePayload::V2(MintbaseMemoEventData {
            owner_id: "bob.near".to_string(),
            memo: MintbaseMemo { meta_id: "abc".to_string(), minter: "carol.near".to_string() },
        }))
    );
    assert_eq!(
        MintbasePayload::from_json_with(&record, &None),
        Some(MintbasePayload::V1(MintbaseEventData {
            owner_id: "bob.near".to_string(),
            token_ids: vec!["99".to_string()],
        }))
    );
    assert_eq!(
        MintbasePayload::from_json_with(&record, &Some(json(r#"{"meta_id":"abc"}"#))),
        Some(MintbasePayload::V1(MintbaseEventData {
            owner_id: "bob.near".to_string(),
            token_ids: vec!["99".to_string()],
        }))
    );
    let bare = json(r#"{"owner_id":"bob.near"}"#);
    assert_eq!(MintbasePayload::from_json_with(&bare, &None), None);
    assert_eq!(
        MintbaseMemoEventData::from_json(&bare, &memo),
        Some(MintbaseMemoEventData {
            owner_id: "bob.near".to_string(),
            memo: MintbaseMemo { meta_id: "abc".to_string(), minter: "carol.near".to_string() },
        })
    );
    assert_eq!(MintbaseMemoEventData::from_json(&bare, &None), None);
    assert_eq!(MintbaseMemoEventData::from_json(&json("{}"), &memo), None);
}

#[test]
fn first_record_of_a_payload() {
    let payload = json(r#"[{"owner_id":"a.near","token_ids":["1:1"]},{"owner_id":"b.near","token_ids":[]}]"#);
    assert_eq!(
        ParasEventData::first_of(&payload),
        Ok(ParasEventData { owner_id: "a.near".to_string(), token_ids: vec!["1:1".to_string()] })
    );
    assert_eq!(
        MintbasePayload::first_of(&payload),
        Ok(MintbasePayload::V1(MintbaseEventData {
            owner_id: "a.near".to_string(),
            token_ids: vec!["1:1".to_string()],
        }))
    );
    assert_eq!(ParasEventData::first_of(&json("[]")), Err(ParseError::NoRecords));
    assert_eq!(MintbasePayload::first_of(&json("{}")), Err(ParseError::NotASequence));
}

#[test]
fn token_of_a_record() {
    let record = ParasEventData { owner_id: "a.near".to_string(), token_ids: vec!["1:1".to_string()] };
    assert_eq!(
        record.to_nft("x.paras.near"),
        Ok(nft("a.near", &["https://paras.id/token/x.paras.near::1/1:1"]))
    );
    let empty = ParasEventData { owner_id: "a.near".to_string(), token_ids: vec![] };
    assert_eq!(empty.to_nft("x.paras.near"), Err(ParseError::NoTokenIds));
    let earlier = MintbasePayload::V1(MintbaseEventData { owner_id: "a.near".to_string(), token_ids: vec![] });
    assert_eq!(earlier.to_nft("a.mintbase1.near"), Err(ParseError::NoTokenIds));
}
