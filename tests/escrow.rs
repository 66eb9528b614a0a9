use trading_booth::error::LedgerError;
use trading_booth::escrow::{SecureTradingBooth, Trade, TradeStatus};
use trading_booth::identity::Identity;

fn seller() -> Identity {
    Identity::from_bytes(b"GSELLER".to_vec())
}

fn buyer() -> Identity {
    Identity::from_bytes(b"GBUYER".to_vec())
}

fn stranger() -> Identity {
    Identity::from_bytes(b"GOTHER".to_vec())
}

fn booth_with_trade(id: u64) -> SecureTradingBooth {
    let mut booth = SecureTradingBooth::new();
    booth
        .create_trade(id, seller(), buyer(), String::from("widget"), 100)
        .unwrap();
    booth
}

fn status_of(booth: &SecureTradingBooth, id: u64) -> TradeStatus {
    booth.get_trade(id).unwrap().status
}

#[test]
fn end_to_end_widget_trade() {
    let mut booth = booth_with_trade(1);
    assert_eq!(booth.mark_funded(1, &buyer()), Ok(()));
    assert_eq!(booth.mark_funded(1, &seller()), Err(LedgerError::Unauthorized));
    assert_eq!(booth.confirm_delivery(1, &seller()), Ok(()));
    assert_eq!(booth.cancel_trade(1, &seller()), Err(LedgerError::InvalidState));
    assert_eq!(status_of(&booth, 1), TradeStatus::Completed);
}

#[test]
fn created_trade_keeps_its_fields() {
    let booth = booth_with_trade(7);
    let t: Trade = booth.get_trade(7).unwrap();
    assert_eq!(t.trade_id, 7);
    assert_eq!(t.seller.as_bytes(), &b"GSELLER".to_vec());
    assert_eq!(t.buyer.as_bytes(), &b"GBUYER".to_vec());
    assert_eq!(t.asset_desc, "widget");
    assert_eq!(t.price, 100);
    assert_eq!(t.status, TradeStatus::Created);
}

#[test]
fn create_rejects_non_positive_price() {
    let mut booth = SecureTradingBooth::new();
    let r = booth.create_trade(1, seller(), buyer(), String::from("x"), 0);
    assert_eq!(r, Err(LedgerError::InvalidArgument));
    let r = booth.create_trade(1, seller(), buyer(), String::from("x"), -5);
    assert_eq!(r, Err(LedgerError::InvalidArgument));
    assert!(booth.get_trade(1).is_none());
}

#[test]
fn create_rejects_duplicate_id() {
    let mut booth = booth_with_trade(3);
    let r = booth.create_trade(3, buyer(), seller(), String::from("other"), 5);
    assert_eq!(r, Err(LedgerError::DuplicateId));
    assert_eq!(booth.get_trade(3).unwrap().price, 100);
}

#[test]
fn operations_on_missing_trade_fail_not_found() {
    let mut booth = booth_with_trade(1);
    assert_eq!(booth.mark_funded(2, &buyer()), Err(LedgerError::NotFound));
    assert_eq!(booth.confirm_delivery(2, &seller()), Err(LedgerError::NotFound));
    assert_eq!(booth.cancel_trade(2, &seller()), Err(LedgerError::NotFound));
    assert!(booth.get_trade(2).is_none());
}

#[test]
fn only_buyer_can_fund_in_any_state() {
    let mut booth = booth_with_trade(1);
    assert_eq!(booth.mark_funded(1, &stranger()), Err(LedgerError::Unauthorized));
    assert_eq!(booth.mark_funded(1, &seller()), Err(LedgerError::Unauthorized));
    assert_eq!(status_of(&booth, 1), TradeStatus::Created);
    booth.mark_funded(1, &buyer()).unwrap();
    assert_eq!(booth.mark_funded(1, &stranger()), Err(LedgerError::Unauthorized));
    assert_eq!(booth.mark_funded(1, &buyer()), Err(LedgerError::InvalidState));
}

#[test]
fn delivery_needs_funding_whoever_calls() {
    let mut booth = booth_with_trade(1);
    assert_eq!(booth.confirm_delivery(1, &seller()), Err(LedgerError::InvalidState));
    assert_eq!(booth.confirm_delivery(1, &buyer()), Err(LedgerError::InvalidState));
    assert_eq!(booth.confirm_delivery(1, &stranger()), Err(LedgerError::InvalidState));
    booth.mark_funded(1, &buyer()).unwrap();
    assert_eq!(booth.confirm_delivery(1, &buyer()), Err(LedgerError::Unauthorized));
    assert_eq!(status_of(&booth, 1), TradeStatus::Funded);
    booth.confirm_delivery(1, &seller()).unwrap();
    assert_eq!(booth.confirm_delivery(1, &seller()), Err(LedgerError::InvalidState));
}

#[test]
fn seller_cancels_before_funding() {
    let mut booth = booth_with_trade(1);
    assert_eq!(booth.cancel_trade(1, &buyer()), Err(LedgerError::Unauthorized));
    assert_eq!(booth.cancel_trade(1, &seller()), Ok(()));
    assert_eq!(status_of(&booth, 1), TradeStatus::Cancelled);
    assert_eq!(booth.cancel_trade(1, &seller()), Err(LedgerError::InvalidState));
    assert_eq!(booth.mark_funded(1, &buyer()), Err(LedgerError::InvalidState));
    assert_eq!(booth.confirm_delivery(1, &seller()), Err(LedgerError::InvalidState));
    assert_eq!(status_of(&booth, 1), TradeStatus::Cancelled);
}

#[test]
fn funded_trade_cannot_be_cancelled() {
    let mut booth = booth_with_trade(1);
    booth.mark_funded(1, &buyer()).unwrap();
    assert_eq!(booth.cancel_trade(1, &seller()), Err(LedgerError::InvalidState));
    assert_eq!(status_of(&booth, 1), TradeStatus::Funded);
}

#[test]
fn trades_do_not_interfere() {
    let mut booth = booth_with_trade(1);
    booth
        .create_trade(2, seller(), buyer(), String::from("gadget"), 50)
        .unwrap();
    booth.cancel_trade(2, &seller()).unwrap();
    assert_eq!(status_of(&booth, 1), TradeStatus::Created);
    assert_eq!(status_of(&booth, 2), TradeStatus::Cancelled);
}

#[test]
fn trade_transitions_as_values() {
    let t = Trade::new(9, seller(), buyer(), String::from("w"), 1).unwrap();
    assert_eq!(t.funding(&buyer()), Ok(TradeStatus::Funded));
    assert_eq!(t.funding(&seller()), Err(LedgerError::Unauthorized));
    assert_eq!(t.delivery(&seller()), Err(LedgerError::InvalidState));
    assert_eq!(t.cancellation(&seller()), Ok(TradeStatus::Cancelled));
    assert_eq!(t.cancellation(&buyer()), Err(LedgerError::Unauthorized));
    assert!(Trade::new(9, seller(), buyer(), String::from("w"), 0).is_err());
}

#[test]
fn identity_comparison_is_bytewise() {
    assert!(seller().same_as(&seller()));
    assert!(!seller().same_as(&buyer()));
    let short = Identity::from_bytes(b"GSELLE".to_vec());
    assert!(!seller().same_as(&short));
    assert_eq!(seller().duplicate().as_bytes(), &b"GSELLER".to_vec());
}
