use regtest_flow::reconstruct::{
    classify_outputs, first_input_ref, reconstruct, resolve_prev_output, RawTx, ReconstructError,
    TransactionRecord, TxIn, TxOut, WalletTxInfo,
};

fn addressed(addr: &str, value_sat: u64) -> TxOut {
    TxOut { address: Some(addr.to_string()), value_sat }
}

fn unaddressed(value_sat: u64) -> TxOut {
    TxOut { address: None, value_sat }
}

fn confirmed_info(fee_sat: i64) -> WalletTxInfo {
    WalletTxInfo {
        fee_sat: Some(fee_sat),
        block_height: Some(102),
        block_hash: Some("confirmblockhash".to_string()),
    }
}

fn payment_tx() -> RawTx {
    RawTx {
        txid: "txid_payment".to_string(),
        inputs: vec![TxIn {
            prev_txid: Some("txid_coinbase".to_string()),
            prev_vout: Some(0),
        }],
        outputs: vec![
            addressed("addr_change", 2_999_990_000),
            addressed("addr_trader", 2_000_000_000),
        ],
    }
}

fn coinbase_outputs() -> Vec<TxOut> {
    vec![addressed("addr_miner", 5_000_000_000)]
}

#[test]
fn reconstruction_recovers_all_roles_and_balances() {
    let info = confirmed_info(-10_000);
    let tx = payment_tx();
    let prev = coinbase_outputs();
    let pay = "addr_trader".to_string();
    let rec: TransactionRecord = reconstruct(&info, &tx, &prev, &pay).unwrap();
    assert_eq!(rec.txid, "txid_payment");
    assert_eq!(rec.miner_input_address, "addr_miner");
    assert_eq!(rec.miner_input_amount_sat, 5_000_000_000);
    assert_eq!(rec.trader_output_address, "addr_trader");
    assert_eq!(rec.trader_output_amount_sat, 2_000_000_000);
    assert_eq!(rec.miner_change_address, "addr_change");
    assert_eq!(rec.miner_change_amount_sat, 2_999_990_000);
    assert_eq!(rec.fee_sat, 10_000);
    assert_eq!(rec.block_height, 102);
    assert_eq!(rec.block_hash, "confirmblockhash");
    // The satoshi-exact balance identity: payment + change + |fee| == input.
    assert_eq!(
        rec.trader_output_amount_sat + rec.miner_change_amount_sat + rec.fee_sat,
        rec.miner_input_amount_sat
    );
}

#[test]
fn two_non_payment_outputs_keep_the_last_as_change() {
    let info = confirmed_info(-10_000);
    let tx = RawTx {
        txid: "txid_payment".to_string(),
        inputs: vec![TxIn {
            prev_txid: Some("txid_coinbase".to_string()),
            prev_vout: Some(0),
        }],
        outputs: vec![addressed("addr_first", 1_000), addressed("addr_second", 2_000)],
    };
    let prev = coinbase_outputs();
    let pay = "addr_trader".to_string();
    let rec = reconstruct(&info, &tx, &prev, &pay).unwrap();
    // Neither output matches the payment address: the last one wins as change,
    // the payment role stays empty.
    assert_eq!(rec.miner_change_address, "addr_second");
    assert_eq!(rec.miner_change_amount_sat, 2_000);
    assert_eq!(rec.trader_output_address, "");
    assert_eq!(rec.trader_output_amount_sat, 0);
}

#[test]
fn classification_ignores_unaddressed_outputs() {
    let outs = vec![
        addressed("addr_trader", 10),
        unaddressed(99),
        addressed("addr_change", 20),
        unaddressed(77),
    ];
    let pay = "addr_trader".to_string();
    let (payment, change) = classify_outputs(&outs, &pay);
    let payment = payment.unwrap();
    let change = change.unwrap();
    assert_eq!(payment.0, "addr_trader");
    assert_eq!(payment.1, 10);
    assert_eq!(change.0, "addr_change");
    assert_eq!(change.1, 20);
}

#[test]
fn classification_of_empty_output_list_finds_nothing() {
    let outs: Vec<TxOut> = Vec::new();
    let pay = "addr_trader".to_string();
    let (payment, change) = classify_outputs(&outs, &pay);
    assert!(payment.is_none());
    assert!(change.is_none());
}

#[test]
fn unconfirmed_transaction_is_rejected() {
    let info = WalletTxInfo { fee_sat: Some(-10_000), block_height: None, block_hash: None };
    let tx = payment_tx();
    let prev = coinbase_outputs();
    let pay = "addr_trader".to_string();
    assert_eq!(reconstruct(&info, &tx, &prev, &pay).unwrap_err(), ReconstructError::Unconfirmed);
}

#[test]
fn transaction_without_inputs_is_rejected() {
    let info = confirmed_info(-10_000);
    let tx = RawTx {
        txid: "txid_payment".to_string(),
        inputs: Vec::new(),
        outputs: vec![addressed("addr_trader", 2_000_000_000)],
    };
    let prev = coinbase_outputs();
    let pay = "addr_trader".to_string();
    assert_eq!(reconstruct(&info, &tx, &prev, &pay).unwrap_err(), ReconstructError::NoInput);
}

#[test]
fn coinbase_style_input_is_rejected() {
    let info = confirmed_info(-10_000);
    let tx = RawTx {
        txid: "txid_payment".to_string(),
        inputs: vec![TxIn { prev_txid: None, prev_vout: None }],
        outputs: vec![addressed("addr_trader", 2_000_000_000)],
    };
    let prev = coinbase_outputs();
    let pay = "addr_trader".to_string();
    assert_eq!(
        reconstruct(&info, &tx, &prev, &pay).unwrap_err(),
        ReconstructError::UnresolvedPrevOutput
    );
}

#[test]
fn out_of_range_previous_output_is_rejected() {
    let info = confirmed_info(-10_000);
    let mut tx = payment_tx();
    tx.inputs[0].prev_vout = Some(7);
    let prev = coinbase_outputs();
    let pay = "addr_trader".to_string();
    assert_eq!(
        reconstruct(&info, &tx, &prev, &pay).unwrap_err(),
        ReconstructError::UnresolvedPrevOutput
    );
}

#[test]
fn unaddressed_previous_output_is_rejected() {
    let info = confirmed_info(-10_000);
    let tx = payment_tx();
    let prev = vec![unaddressed(5_000_000_000)];
    let pay = "addr_trader".to_string();
    assert_eq!(
        reconstruct(&info, &tx, &prev, &pay).unwrap_err(),
        ReconstructError::UnresolvedPrevOutput
    );
}

#[test]
fn missing_fee_is_rejected() {
    let info = WalletTxInfo {
        fee_sat: None,
        block_height: Some(102),
        block_hash: Some("confirmblockhash".to_string()),
    };
    let tx = payment_tx();
    let prev = coinbase_outputs();
    let pay = "addr_trader".to_string();
    assert_eq!(reconstruct(&info, &tx, &prev, &pay).unwrap_err(), ReconstructError::FeeUnavailable);
}

#[test]
fn first_input_reference_is_reported() {
    let tx = payment_tx();
    let (prev_txid, vout) = first_input_ref(&tx).unwrap();
    assert_eq!(prev_txid, "txid_coinbase");
    assert_eq!(vout, 0);
}

#[test]
fn previous_output_resolution_reports_address_and_value() {
    let prev = coinbase_outputs();
    let (addr, value) = resolve_prev_output(&prev, 0).unwrap();
    assert_eq!(addr, "addr_miner");
    assert_eq!(value, 5_000_000_000);
}
