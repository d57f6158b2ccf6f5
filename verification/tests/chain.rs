use disn::chain::{
    confirm_decision, confirm_tx, ConfirmStep, PollOutcome, TxLedger, TxReceipt,
    SEND_STATUS_CONFIRMED, SEND_STATUS_FAILED, SEND_STATUS_PENDING,
};
use disn::error::Error;

fn receipt_ok(block: i64) -> PollOutcome {
    PollOutcome::Receipt(TxReceipt { status_ok: true, block_number: Some(block) })
}

fn receipt_failed() -> PollOutcome {
    PollOutcome::Receipt(TxReceipt { status_ok: false, block_number: Some(7) })
}

#[test]
fn track_then_confirm_success() {
    let mut ledger = TxLedger::new();
    ledger.create("0xabc", 100).unwrap();
    let pending = ledger.find_by_send_status(SEND_STATUS_PENDING);
    assert_eq!(pending.len(), 1);
    assert_eq!(pending[0].tx_hash, "0xabc");
    assert_eq!(pending[0].block_number, None);

    let outcomes = vec![PollOutcome::NotFound, PollOutcome::RpcError, receipt_ok(42)];
    let done = confirm_tx(&mut ledger, "0xabc", &outcomes, 200).unwrap();
    assert!(done);

    let confirmed = ledger.find_by_send_status(SEND_STATUS_CONFIRMED);
    assert_eq!(confirmed.len(), 1);
    assert_eq!(confirmed[0].tx_hash, "0xabc");
    assert_eq!(confirmed[0].block_number, Some(42));
    assert_eq!(confirmed[0].updated_at, 200);
    assert!(ledger.find_by_send_status(SEND_STATUS_PENDING).is_empty());
}

#[test]
fn failed_receipt_writes_failure_without_block() {
    let mut ledger = TxLedger::new();
    ledger.create("0xdead", 1).unwrap();
    let done = confirm_tx(&mut ledger, "0xdead", &vec![receipt_failed()], 2).unwrap();
    assert!(done);
    let failed = ledger.find_by_send_status(SEND_STATUS_FAILED);
    assert_eq!(failed.len(), 1);
    assert_eq!(failed[0].block_number, None);
}

#[test]
fn transient_outcomes_write_nothing() {
    let mut ledger = TxLedger::new();
    ledger.create("0x1", 1).unwrap();
    let done =
        confirm_tx(&mut ledger, "0x1", &vec![PollOutcome::NotFound, PollOutcome::RpcError], 2)
            .unwrap();
    assert!(!done);
    assert_eq!(ledger.find_by_send_status(SEND_STATUS_PENDING).len(), 1);
}

#[test]
fn confirm_twice_is_idempotent() {
    let mut ledger = TxLedger::new();
    ledger.create("0xsame", 10).unwrap();
    let outcomes = vec![receipt_ok(9)];
    assert!(confirm_tx(&mut ledger, "0xsame", &outcomes, 20).unwrap());
    let after_first = ledger.find_by_send_status(SEND_STATUS_CONFIRMED);
    assert!(confirm_tx(&mut ledger, "0xsame", &outcomes, 20).unwrap());
    let after_second = ledger.find_by_send_status(SEND_STATUS_CONFIRMED);

    assert_eq!(after_first.len(), 1);
    assert_eq!(after_second.len(), 1);
    assert_eq!(after_first[0].tx_hash, after_second[0].tx_hash);
    assert_eq!(after_first[0].send_status, after_second[0].send_status);
    assert_eq!(after_first[0].block_number, after_second[0].block_number);
    assert_eq!(after_first[0].updated_at, after_second[0].updated_at);
}

#[test]
fn three_pending_records_all_recover() {
    let mut ledger = TxLedger::new();
    ledger.create("0xa", 1).unwrap();
    ledger.create("0xb", 1).unwrap();
    ledger.create("0xc", 1).unwrap();
    assert!(confirm_tx(&mut ledger, "0xb", &vec![receipt_failed()], 2).unwrap());

    // Boot: the sweep picks up exactly the records still pending.
    let work = ledger.confirm_pending_txs();
    assert_eq!(work.len(), 2);
    assert_eq!(work[0].tx_hash, "0xa");
    assert_eq!(work[1].tx_hash, "0xc");

    for record in &work {
        assert!(confirm_tx(&mut ledger, &record.tx_hash, &vec![receipt_ok(5)], 3).unwrap());
    }
    assert!(ledger.confirm_pending_txs().is_empty());
    assert_eq!(ledger.find_by_send_status(SEND_STATUS_CONFIRMED).len(), 2);
    assert_eq!(ledger.find_by_send_status(SEND_STATUS_FAILED).len(), 1);
}

#[test]
fn duplicate_hash_is_rejected() {
    let mut ledger = TxLedger::new();
    ledger.create("0xa", 1).unwrap();
    assert_eq!(ledger.create("0xa", 2).unwrap_err(), Error::DuplicateRecord);
}

#[test]
fn confirm_unknown_hash_reports_not_found() {
    let mut ledger = TxLedger::new();
    assert_eq!(
        confirm_tx(&mut ledger, "0xmissing", &vec![receipt_ok(1)], 2).unwrap_err(),
        Error::RecordNotFound
    );
}

#[test]
fn decision_matches_receipt() {
    assert_eq!(
        confirm_decision(&receipt_ok(3)),
        ConfirmStep::Finalize { send_status: SEND_STATUS_CONFIRMED, block_number: Some(3) }
    );
    assert_eq!(
        confirm_decision(&receipt_failed()),
        ConfirmStep::Finalize { send_status: SEND_STATUS_FAILED, block_number: None }
    );
    assert_eq!(confirm_decision(&PollOutcome::NotFound), ConfirmStep::Retry);
    assert_eq!(confirm_decision(&PollOutcome::RpcError), ConfirmStep::Retry);
}
