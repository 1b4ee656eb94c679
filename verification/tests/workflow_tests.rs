use regtest_flow::amount::{fee_abs, COIN_SAT};
use regtest_flow::workflow::{
    accept_send_result, confirm_mempool_presence, fund_should_stop, provision_outcome,
    MempoolEntry, PaymentError, ProvisionOutcome,
};

#[test]
fn provisioning_outcome_follows_the_two_call_results() {
    assert_eq!(provision_outcome(true, false), ProvisionOutcome::Created);
    assert_eq!(provision_outcome(true, true), ProvisionOutcome::Created);
    assert_eq!(provision_outcome(false, true), ProvisionOutcome::Loaded);
    assert_eq!(provision_outcome(false, false), ProvisionOutcome::Unavailable);
}

#[test]
fn funding_loop_stops_on_positive_balance_or_ceiling() {
    assert!(!fund_should_stop(0, 0, 150));
    assert!(!fund_should_stop(0, 149, 150));
    assert!(fund_should_stop(0, 150, 150));
    assert!(fund_should_stop(1, 0, 150));
    assert!(fund_should_stop(5_000_000_000, 101, 150));
}

#[test]
fn send_reply_is_accepted_only_when_complete() {
    assert_eq!(accept_send_result(true, "txid_payment".to_string()).unwrap(), "txid_payment");
    assert_eq!(
        accept_send_result(false, "txid_payment".to_string()).unwrap_err(),
        PaymentError::SendIncomplete
    );
}

#[test]
fn missing_mempool_entry_is_a_hard_error() {
    let entry = MempoolEntry {
        vsize: 141,
        fee_sat: 10_000,
        time: 0,
        height: 101,
        ancestor_count: 1,
        descendant_count: 1,
    };
    assert_eq!(confirm_mempool_presence(Some(entry)), Ok(entry));
    assert_eq!(confirm_mempool_presence(None).unwrap_err(), PaymentError::MempoolEntryMissing);
}

#[test]
fn fee_magnitude_is_exact() {
    assert_eq!(fee_abs(-10_000), 10_000);
    assert_eq!(fee_abs(10_000), 10_000);
    assert_eq!(fee_abs(0), 0);
    assert_eq!(fee_abs(i64::MIN), 9_223_372_036_854_775_808u64);
    assert_eq!(COIN_SAT, 100_000_000);
}
