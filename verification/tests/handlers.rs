use events_api_redis_to_db::amount::Amount;
use events_api_redis_to_db::consumer::{step_for, verdict, FailurePolicy, Outcome, Step};
use events_api_redis_to_db::events::{
    deserialize_balance_changes, NftEventContext, NftMintEvent, NftTransferEvent,
    PotlockDonationEvent, RawPoolSwap, TradeBalanceChangeSwapEvent, TradePoolChangeEvent,
    TradeRawPoolSwapEvent,
};
use events_api_redis_to_db::handlers::{
    HandleError, NftBurnHandler, NftMintHandler, NftMintRow, NftTransferHandler,
    PotlockDonationHandler, PotlockPotDonationHandler, PotlockPotProjectDonationHandler,
    TradeBalanceChangeSwapHandler, TradePoolChangeHandler, TradeRawPoolSwapHandler,
};
use events_api_redis_to_db::json::{take_member, Json};
use events_api_redis_to_db::record::{DecodeError, Field, Record};
use events_api_redis_to_db::registry::{EventKind, Row};
use events_api_redis_to_db::time::Timestamp;

fn record(fields: &[(&str, &str)]) -> Record {
    let mut r = Record::new();
    for (name, text) in fields {
        r.push(name.to_string(), Some(text.to_string()));
    }
    r
}

fn nft_context() -> &'static str {
    r#"{"transaction_id":"tx1","receipt_id":"rc1","block_height":105,"block_timestamp_nanosec":"1700000000500000000","contract_id":"nft.near"}"#
}

fn potlock_context() -> &'static str {
    r#"{"transaction_id":"tx2","receipt_id":"rc2","block_height":7,"block_timestamp_nanosec":"1700000001000000001"}"#
}

fn trade_context() -> &'static str {
    r#"{"trader":"carol","block_height":9,"block_timestamp_nanosec":"1700000002000000000","transaction_id":"tx3","receipt_id":"rc3"}"#
}

fn amount(units: u128) -> Amount {
    Amount { units, text: units.to_string() }
}

#[test]
fn json_text_becomes_a_tree() {
    let j = Json::parse(r#"{"b":[1,"x",null,true],"a":{"n":-2.5e3}}"#).unwrap();
    assert_eq!(
        j.get("b"),
        Some(&Json::Array(vec![
            Json::Number("1".to_string()),
            Json::Text("x".to_string()),
            Json::Null,
            Json::Bool(true),
        ]))
    );
    assert_eq!(
        j.get("a"),
        Some(&Json::Object(vec![("n".to_string(), Json::Number("-2.5e+3".to_string()))]))
    );
    assert_eq!(j.get("c"), None);
    assert_eq!(Json::parse("{"), None);
    assert_eq!(Json::parse(""), None);
    assert_eq!(Json::parse("\"{}\""), Some(Json::Text("{}".to_string())));
}

#[test]
fn a_wide_number_keeps_its_digits() {
    let j = Json::parse(r#"{"fee":340282366920938463463374607431768211455}"#).unwrap();
    assert_eq!(
        j.get("fee"),
        Some(&Json::Number("340282366920938463463374607431768211455".to_string()))
    );
}

#[test]
fn a_member_is_taken_out_whole() {
    let j = Json::parse(r#"{"pool":{"k":[1]},"x":1}"#).unwrap();
    assert_eq!(
        take_member(j, "pool"),
        Some(Json::Object(vec![("k".to_string(), Json::Array(vec![Json::Number("1".to_string())]))]))
    );
    assert_eq!(take_member(Json::Null, "pool"), None);
}

#[test]
fn a_record_hands_out_its_first_field_of_a_name() {
    let mut r = Record::new();
    r.push("mint".to_string(), Some("1".to_string()));
    r.push("mint".to_string(), Some("2".to_string()));
    r.push("raw".to_string(), None);
    assert_eq!(r.get("mint"), Some(&Field { name: "mint".to_string(), value: Some("1".to_string()) }));
    assert_eq!(r.get("burn"), None);
    assert_eq!(r.read_payload("mint"), Ok(Json::Number("1".to_string())));
    assert_eq!(r.read_payload("burn"), Err(DecodeError::MissingField));
    assert_eq!(r.read_payload("raw"), Err(DecodeError::NotText));
}

#[test]
fn a_context_is_read_member_by_member() {
    let j = Json::parse(nft_context()).unwrap();
    assert_eq!(
        NftEventContext::decode(&j),
        Some(NftEventContext {
            transaction_id: "tx1".to_string(),
            receipt_id: "rc1".to_string(),
            block_height: 105,
            block_timestamp_nanosec: 1_700_000_000_500_000_000,
            contract_id: "nft.near".to_string(),
        })
    );
}

#[test]
fn a_mint_is_stored_with_its_tokens() {
    let r = record(&[
        ("context", nft_context()),
        ("mint", r#"{"owner_id":"alice","token_ids":["t1","t2"],"memo":null}"#),
    ]);
    assert_eq!(
        NftMintHandler.handle(&r),
        Ok(NftMintRow {
            timestamp: Some(Timestamp { seconds: 1_700_000_000, nanos: 500_000_000 }),
            transaction_id: "tx1".to_string(),
            receipt_id: "rc1".to_string(),
            block_height: 105,
            contract_id: "nft.near".to_string(),
            owner_id: "alice".to_string(),
            token_ids: vec!["t1".to_string(), "t2".to_string()],
            memo: None,
        })
    );
}

#[test]
fn a_transfer_is_stored_with_zero_for_a_missing_price() {
    let r = record(&[
        ("context", nft_context()),
        (
            "transfer",
            r#"{"old_owner_id":"alice","new_owner_id":"bob","token_ids":["t1","t2"],"memo":"gift","token_prices_near":[null,"1.5"]}"#,
        ),
    ]);
    let row = NftTransferHandler.handle(&r).unwrap();
    assert_eq!(row.timestamp, Some(Timestamp { seconds: 1_700_000_000, nanos: 500_000_000 }));
    assert_eq!(row.old_owner_id, "alice");
    assert_eq!(row.new_owner_id, "bob");
    assert_eq!(row.token_ids, vec!["t1".to_string(), "t2".to_string()]);
    assert_eq!(row.memo, Some("gift".to_string()));
    assert_eq!(row.token_prices_near, vec!["0".to_string(), "1.5".to_string()]);
    assert_eq!(row.transaction_id, "tx1");
    assert_eq!(row.block_height, 105);
}

#[test]
fn a_transfer_reads_its_prices_as_they_are_written() {
    let j = Json::parse(
        r#"{"old_owner_id":"a","new_owner_id":"b","token_ids":[],"token_prices_near":["1000000000000000000000000",3,null]}"#,
    )
    .unwrap();
    let e = NftTransferEvent::decode(&j).unwrap();
    assert_eq!(
        e.token_prices_near,
        vec![Some("1000000000000000000000000".to_string()), Some("3".to_string()), None]
    );
    assert_eq!(e.memo, None);
    let bad = Json::parse(
        r#"{"old_owner_id":"a","new_owner_id":"b","token_ids":[],"token_prices_near":["1e5"]}"#,
    )
    .unwrap();
    assert_eq!(NftTransferEvent::decode(&bad), None);
}

#[test]
fn a_mint_without_its_field_is_a_poison_pill() {
    let r = record(&[("context", nft_context())]);
    let handled = NftMintHandler.handle(&r);
    assert_eq!(handled, Err(HandleError::Decode(DecodeError::MissingField)));
    assert_eq!(step_for(&handled), Step::Discard);
    for policy in [FailurePolicy::Retry, FailurePolicy::Stop] {
        let v = verdict(policy, Outcome::Undecodable);
        assert!(v.log);
        assert!(v.acknowledge);
    }
    assert_eq!(
        EventKind::of_stream("nft_mint").unwrap().dispatch(&r),
        Err(HandleError::Decode(DecodeError::MissingField))
    );
}

#[test]
fn each_way_of_being_malformed_has_its_error() {
    let mut not_text = Record::new();
    not_text.push("context".to_string(), None);
    not_text.push("burn".to_string(), Some("{}".to_string()));
    assert_eq!(NftBurnHandler.handle(&not_text), Err(HandleError::Decode(DecodeError::NotText)));
    let not_json = record(&[("context", nft_context()), ("burn", "{owner")]);
    assert_eq!(NftBurnHandler.handle(&not_json), Err(HandleError::Decode(DecodeError::NotJson)));
    let wrong = record(&[("context", nft_context()), ("burn", r#"{"owner_id":5,"token_ids":[]}"#)]);
    assert_eq!(NftBurnHandler.handle(&wrong), Err(HandleError::Decode(DecodeError::WrongShape)));
    let bad_number = record(&[
        (
            "context",
            r#"{"transaction_id":"tx1","receipt_id":"rc1","block_height":105,"block_timestamp_nanosec":"17x","contract_id":"c"}"#,
        ),
        ("burn", r#"{"owner_id":"a","token_ids":[]}"#),
    ]);
    assert_eq!(
        NftBurnHandler.handle(&bad_number),
        Err(HandleError::Decode(DecodeError::WrongShape))
    );
    let missing = record(&[("burn", "{}")]);
    assert_eq!(NftBurnHandler.handle(&missing), Err(HandleError::Decode(DecodeError::MissingField)));
}

#[test]
fn a_price_that_the_store_writes_otherwise_is_fatal() {
    let r = record(&[
        ("context", nft_context()),
        (
            "transfer",
            r#"{"old_owner_id":"a","new_owner_id":"b","token_ids":["t"],"token_prices_near":["0.0000000000001"]}"#,
        ),
    ]);
    let handled = NftTransferHandler.handle(&r);
    assert_eq!(handled, Err(HandleError::Precision));
    assert_eq!(step_for(&handled), Step::Abort);
}

#[test]
fn a_burn_is_stored() {
    let r = record(&[
        ("context", nft_context()),
        ("burn", r#"{"owner_id":"alice","token_ids":["t9"],"memo":"bye"}"#),
    ]);
    let row = NftBurnHandler.handle(&r).unwrap();
    assert_eq!(row.owner_id, "alice");
    assert_eq!(row.token_ids, vec!["t9".to_string()]);
    assert_eq!(row.memo, Some("bye".to_string()));
    assert_eq!(row.contract_id, "nft.near");
}

#[test]
fn a_donation_keeps_its_amounts_to_the_last_digit() {
    let r = record(&[
        ("context", potlock_context()),
        (
            "donation",
            r#"{"donation_id":12,"donor_id":"dan","total_amount":"340282366920938463463374607431768211455","ft_id":"near","message":null,"donated_at":1700000000123,"project_id":"proj.near","protocol_fee":"25","referrer_id":"ref.near","referrer_fee":340282366920938463463374607431768211455}"#,
        ),
    ]);
    let row = PotlockDonationHandler.handle(&r).unwrap();
    assert_eq!(row.timestamp, Some(Timestamp { seconds: 1_700_000_001, nanos: 1 }));
    assert_eq!(row.donation_id, 12);
    assert_eq!(row.donor_id, "dan");
    assert_eq!(row.total_amount, amount(u128::MAX));
    assert_eq!(row.total_amount.text, "340282366920938463463374607431768211455");
    assert_eq!(row.message, None);
    assert_eq!(row.donated_at, 1_700_000_000_123);
    assert_eq!(row.project_id, "proj.near");
    assert_eq!(row.protocol_fee, amount(25));
    assert_eq!(row.referrer_id, Some("ref.near".to_string()));
    assert_eq!(row.referrer_fee, Some(amount(u128::MAX)));
}

#[test]
fn a_donation_reads_its_optional_members() {
    let j = Json::parse(
        r#"{"donation_id":1,"donor_id":"d","total_amount":5,"ft_id":"near","donated_at":0,"project_id":"p","protocol_fee":"0"}"#,
    )
    .unwrap();
    let e = PotlockDonationEvent::decode(&j).unwrap();
    assert_eq!(e.total_amount, 5);
    assert_eq!(e.message, None);
    assert_eq!(e.referrer_id, None);
    assert_eq!(e.referrer_fee, None);
    assert_eq!(e.donated_at, 0);
    let out_of_calendar = Json::parse(
        r#"{"donation_id":1,"donor_id":"d","total_amount":5,"ft_id":"near","donated_at":9223372036854775807,"project_id":"p","protocol_fee":"0"}"#,
    )
    .unwrap();
    assert_eq!(PotlockDonationEvent::decode(&out_of_calendar), None);
}

#[test]
fn a_pot_project_donation_is_stored() {
    let r = record(&[
        ("context", potlock_context()),
        (
            "pot_project_donation",
            r#"{"donation_id":3,"pot_id":"pot.near","donor_id":"dan","total_amount":"100","net_amount":"90","message":"hi","donated_at":1700000000000,"project_id":"proj.near","referrer_id":null,"referrer_fee":null,"protocol_fee":"4","chef_id":"chef.near","chef_fee":6}"#,
        ),
    ]);
    let row = PotlockPotProjectDonationHandler.handle(&r).unwrap();
    assert_eq!(row.pot_id, "pot.near");
    assert_eq!(row.total_amount, amount(100));
    assert_eq!(row.net_amount, amount(90));
    assert_eq!(row.message, Some("hi".to_string()));
    assert_eq!(row.project_id, "proj.near");
    assert_eq!(row.referrer_id, None);
    assert_eq!(row.referrer_fee, None);
    assert_eq!(row.protocol_fee, amount(4));
    assert_eq!(row.chef_id, Some("chef.near".to_string()));
    assert_eq!(row.chef_fee, Some(amount(6)));
}

#[test]
fn a_pot_donation_is_stored() {
    let r = record(&[
        ("context", potlock_context()),
        (
            "pot_donation",
            r#"{"donation_id":4,"pot_id":"pot.near","donor_id":"dan","total_amount":"100","net_amount":"95","donated_at":-1,"protocol_fee":"5"}"#,
        ),
    ]);
    let row = PotlockPotDonationHandler.handle(&r).unwrap();
    assert_eq!(row.donation_id, 4);
    assert_eq!(row.net_amount, amount(95));
    assert_eq!(row.donated_at, -1);
    assert_eq!(row.chef_fee, None);
    assert_eq!(row.block_height, 7);
}

#[test]
fn a_pool_swap_is_stored() {
    let r = record(&[
        ("context", trade_context()),
        (
            "swap",
            r#"{"pool":"REF-1","token_in":"wrap.near","token_out":"usdt.near","amount_in":"1000","amount_out":"42"}"#,
        ),
    ]);
    let row = TradeRawPoolSwapHandler.handle(&r).unwrap();
    assert_eq!(row.trader, "carol");
    assert_eq!(row.timestamp, Some(Timestamp { seconds: 1_700_000_002, nanos: 0 }));
    assert_eq!(row.pool, "REF-1");
    assert_eq!(row.token_in, "wrap.near");
    assert_eq!(row.token_out, "usdt.near");
    assert_eq!(row.amount_in, amount(1000));
    assert_eq!(row.amount_out, amount(42));
    let j = Json::parse(r#"{"pool":"p","token_in":"a","token_out":"b","amount_in":"1","amount_out":"2"}"#).unwrap();
    assert_eq!(
        TradeRawPoolSwapEvent::decode(&j),
        Some(TradeRawPoolSwapEvent(RawPoolSwap {
            pool: "p".to_string(),
            token_in: "a".to_string(),
            token_out: "b".to_string(),
            amount_in: 1,
            amount_out: 2,
        }))
    );
}

#[test]
fn balance_changes_are_stored_as_text() {
    let r = record(&[
        ("context", trade_context()),
        (
            "balance_change",
            r#"{"balance_changes":{"usdt.near":"42","wrap.near":"-1000"},"pool_swaps":[{"pool":"REF-1","token_in":"wrap.near","token_out":"usdt.near","amount_in":"1000","amount_out":"42"}]}"#,
        ),
    ]);
    let row = TradeBalanceChangeSwapHandler.handle(&r).unwrap();
    assert_eq!(row.trader, "carol");
    assert_eq!(
        row.balance_changes,
        vec![
            ("usdt.near".to_string(), "42".to_string()),
            ("wrap.near".to_string(), "-1000".to_string()),
        ]
    );
}

#[test]
fn balance_changes_must_write_integers() {
    let good = vec![("a".to_string(), Json::Text("-7".to_string()))];
    assert_eq!(deserialize_balance_changes(&good), Some(vec![("a".to_string(), -7i128)]));
    let number = vec![("a".to_string(), Json::Number("7".to_string()))];
    assert_eq!(deserialize_balance_changes(&number), None);
    let text = vec![("a".to_string(), Json::Text("seven".to_string()))];
    assert_eq!(deserialize_balance_changes(&text), None);
    let j = Json::parse(r#"{"balance_changes":{"a":"1"},"pool_swaps":[{"pool":"p"}]}"#).unwrap();
    assert_eq!(TradeBalanceChangeSwapEvent::decode(&j), None);
}

#[test]
fn a_pool_change_keeps_the_pool_as_it_came() {
    let r = record(&[(
        "pool_change",
        r#"{"pool_id":"REF-1","receipt_id":"rc4","block_timestamp_nanosec":"1700000003000000000","block_height":11,"pool":{"fee":30,"tokens":["a","b"]}}"#,
    )]);
    let row = TradePoolChangeHandler.handle(&r).unwrap();
    assert_eq!(row.timestamp, Some(Timestamp { seconds: 1_700_000_003, nanos: 0 }));
    assert_eq!(row.receipt_id, "rc4");
    assert_eq!(row.block_height, 11);
    assert_eq!(row.pool_id, "REF-1");
    assert_eq!(
        row.pool,
        Json::Object(vec![
            ("fee".to_string(), Json::Number("30".to_string())),
            ("tokens".to_string(), Json::Array(vec![Json::Text("a".to_string()), Json::Text("b".to_string())])),
        ])
    );
    let no_pool = Json::parse(
        r#"{"pool_id":"REF-1","receipt_id":"rc4","block_timestamp_nanosec":"1","block_height":11}"#,
    )
    .unwrap();
    assert_eq!(TradePoolChangeEvent::decode(no_pool), None);
}

#[test]
fn a_timestamp_outside_the_calendar_is_stored_as_none() {
    let r = record(&[
        (
            "context",
            r#"{"transaction_id":"tx1","receipt_id":"rc1","block_height":1,"block_timestamp_nanosec":"340282366920938463463374607431768211455","contract_id":"c"}"#,
        ),
        ("mint", r#"{"owner_id":"alice","token_ids":[]}"#),
    ]);
    let row = NftMintHandler.handle(&r).unwrap();
    assert_eq!(row.timestamp, None);
}

#[test]
fn dispatch_goes_to_the_handler_of_the_kind() {
    let r = record(&[
        ("context", nft_context()),
        ("mint", r#"{"owner_id":"alice","token_ids":["t1"]}"#),
    ]);
    match EventKind::NftMint.dispatch(&r) {
        Ok(Row::NftMint(row)) => assert_eq!(row.owner_id, "alice"),
        other => panic!("{:?}", other),
    }
    assert_eq!(
        EventKind::NftBurn.dispatch(&r),
        Err(HandleError::Decode(DecodeError::MissingField))
    );
    let decoded = NftMintEvent::decode(&Json::parse(r#"{"owner_id":"alice","token_ids":["t1"]}"#).unwrap());
    assert_eq!(
        decoded,
        Some(NftMintEvent { owner_id: "alice".to_string(), token_ids: vec!["t1".to_string()], memo: None })
    );
}
