use events_api_redis_to_db::consumer::{
    step_for, verdict, Action, Consumer, FailurePolicy, Next, Outcome, Step, Verdict,
};
use events_api_redis_to_db::handlers::HandleError;
use events_api_redis_to_db::record::DecodeError;
use events_api_redis_to_db::registry::EventKind;

#[test]
fn an_undecodable_record_is_logged_and_acknowledged() {
    for policy in [FailurePolicy::Retry, FailurePolicy::Stop] {
        assert_eq!(
            verdict(policy, Outcome::Undecodable),
            Verdict { log: true, acknowledge: true, next: Next::Advance }
        );
    }
}

#[test]
fn a_stored_record_is_acknowledged_without_a_log_line() {
    for policy in [FailurePolicy::Retry, FailurePolicy::Stop] {
        assert_eq!(
            verdict(policy, Outcome::Stored),
            Verdict { log: false, acknowledge: true, next: Next::Advance }
        );
    }
}

#[test]
fn a_failed_store_is_never_acknowledged() {
    assert_eq!(
        verdict(FailurePolicy::Retry, Outcome::StoreFailed),
        Verdict { log: true, acknowledge: false, next: Next::Repeat }
    );
    assert_eq!(
        verdict(FailurePolicy::Stop, Outcome::StoreFailed),
        Verdict { log: true, acknowledge: false, next: Next::Stop }
    );
}

#[test]
fn what_a_handler_returns_decides_the_step() {
    assert_eq!(step_for::<u8>(&Ok(1)), Step::Insert);
    assert_eq!(step_for::<u8>(&Err(HandleError::Decode(DecodeError::MissingField))), Step::Discard);
    assert_eq!(step_for::<u8>(&Err(HandleError::Decode(DecodeError::NotText))), Step::Discard);
    assert_eq!(step_for::<u8>(&Err(HandleError::Decode(DecodeError::NotJson))), Step::Discard);
    assert_eq!(step_for::<u8>(&Err(HandleError::Decode(DecodeError::WrongShape))), Step::Discard);
    assert_eq!(step_for::<u8>(&Err(HandleError::Precision)), Step::Abort);
}

#[test]
fn a_new_consumer_asks_for_a_batch() {
    let mut c = Consumer::new(FailurePolicy::Retry);
    assert_eq!(c.next(), Action::Fetch);
    assert_eq!(c.settle(Outcome::Stored), None);
    assert_eq!(c, Consumer::new(FailurePolicy::Retry));
    assert!(c.begin_batch(0));
    assert_eq!(c.next(), Action::Fetch);
}

#[test]
fn records_are_handled_in_the_order_of_the_batch() {
    let mut c = Consumer::new(FailurePolicy::Retry);
    assert!(c.begin_batch(3));
    assert_eq!(c.next(), Action::Handle(0));
    assert!(!c.begin_batch(5));
    assert_eq!(c.len, 3);
    let v = c.settle(Outcome::Undecodable).unwrap();
    assert!(v.log && v.acknowledge);
    assert_eq!(c.next(), Action::Handle(1));
    let v = c.settle(Outcome::StoreFailed).unwrap();
    assert!(v.log && !v.acknowledge);
    assert_eq!(v.next, Next::Repeat);
    assert_eq!(c.next(), Action::Handle(1));
    let v = c.settle(Outcome::Stored).unwrap();
    assert!(!v.log && v.acknowledge);
    assert_eq!(c.next(), Action::Handle(2));
    c.settle(Outcome::Stored).unwrap();
    assert_eq!(c.next(), Action::Fetch);
    assert!(c.begin_batch(1));
    assert_eq!(c.next(), Action::Handle(0));
}

#[test]
fn a_stopped_consumer_handles_nothing_more() {
    let mut c = Consumer::new(FailurePolicy::Stop);
    assert!(c.begin_batch(2));
    let v = c.settle(Outcome::StoreFailed).unwrap();
    assert_eq!(v, Verdict { log: true, acknowledge: false, next: Next::Stop });
    assert_eq!(c.next(), Action::Halt);
    assert_eq!(c.cursor, 0);
    assert_eq!(c.settle(Outcome::Stored), None);
    assert!(!c.begin_batch(4));
    assert_eq!(c.next(), Action::Halt);
}

#[test]
fn every_stream_has_its_kind() {
    let all = [
        (EventKind::NftMint, "nft_mint"),
        (EventKind::NftTransfer, "nft_transfer"),
        (EventKind::NftBurn, "nft_burn"),
        (EventKind::PotlockDonation, "potlock_donation"),
        (EventKind::PotlockPotProjectDonation, "potlock_pot_project_donation"),
        (EventKind::PotlockPotDonation, "potlock_pot_donation"),
        (EventKind::TradeRawPoolSwap, "trade_pool"),
        (EventKind::TradeBalanceChangeSwap, "trade_swap"),
        (EventKind::TradePoolChange, "trade_pool_change"),
    ];
    for (kind, name) in all {
        assert_eq!(kind.stream(), name);
        assert_eq!(EventKind::of_stream(name), Some(kind));
    }
}

#[test]
fn a_stream_without_a_handler_has_no_kind() {
    assert_eq!(EventKind::of_stream("nft_mints"), None);
    assert_eq!(EventKind::of_stream(""), None);
    assert_eq!(EventKind::of_stream("NFT_MINT"), None);
}
