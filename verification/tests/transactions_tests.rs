use cdk::error::Error;
use cdk::transactions::{
    legacy_proofs_to_check, merge_pending_failed, require_transaction, revert_plan, sort_transactions,
    RevertPlan,
};
use cdk::types::{Proof, Transaction, TransactionDirection, TransactionKind, TransactionStatus};

fn tx(timestamp: u64, memo: &str) -> Transaction {
    Transaction {
        mint_url: "https://mint.example".to_string(),
        direction: TransactionDirection::Outgoing,
        kind: TransactionKind::Cashu,
        amount: 10,
        fee: 0,
        unit: "sat".to_string(),
        ys: vec!["02aa".to_string()],
        token: String::new(),
        status: TransactionStatus::Pending,
        timestamp,
        memo: Some(memo.to_string()),
        metadata: vec![],
        quote_id: None,
        payment_request: None,
        payment_proof: None,
        payment_method: None,
        saga_id: None,
    }
}

fn memos(txs: &[Transaction]) -> Vec<String> {
    txs.iter().map(|t| t.memo.clone().unwrap()).collect()
}

fn mk_proof(amount: u64, y: Option<&str>) -> Proof {
    Proof { amount, secret: format!("secret-{amount}"), y: y.map(|s| s.to_string()), conditional: false }
}

#[test]
fn sort_lists_newest_first() {
    let sorted = sort_transactions(vec![tx(1, "a"), tx(3, "b"), tx(2, "c")]);
    assert_eq!(memos(&sorted), vec!["b", "c", "a"]);
}

#[test]
fn sort_keeps_order_of_same_time() {
    let sorted = sort_transactions(vec![tx(5, "a"), tx(7, "b"), tx(5, "c"), tx(7, "d"), tx(5, "e")]);
    assert_eq!(memos(&sorted), vec!["b", "d", "a", "c", "e"]);
}

#[test]
fn sort_of_empty_list_is_empty() {
    assert!(sort_transactions(vec![]).is_empty());
}

#[test]
fn sorting_a_sorted_listing_keeps_it() {
    let once = sort_transactions(vec![tx(2, "a"), tx(9, "b"), tx(2, "c"), tx(4, "d")]);
    let twice = sort_transactions(once.clone());
    assert_eq!(memos(&once), memos(&twice));
    assert_eq!(memos(&once), vec!["b", "d", "a", "c"]);
}

#[test]
fn pending_then_failed() {
    let merged = merge_pending_failed(vec![tx(1, "p1"), tx(2, "p2")], vec![tx(3, "f1")]);
    assert_eq!(memos(&merged), vec!["p1", "p2", "f1"]);
}

#[test]
fn missing_transaction_is_not_found() {
    assert_eq!(require_transaction(None).unwrap_err(), Error::TransactionNotFound);
    assert_eq!(require_transaction(Some(tx(1, "x"))).unwrap().timestamp, 1);
}

#[test]
fn revert_of_missing_transaction_fails() {
    assert!(matches!(revert_plan(None), Err(Error::TransactionNotFound)));
}

#[test]
fn revert_of_incoming_transaction_fails() {
    let mut t = tx(1, "in");
    t.direction = TransactionDirection::Incoming;
    assert!(matches!(revert_plan(Some(t)), Err(Error::InvalidTransactionDirection)));
}

#[test]
fn revert_of_saga_transaction_revokes_the_saga() {
    let mut t = tx(1, "saga");
    t.direction = TransactionDirection::Split;
    t.saga_id = Some("saga-1".to_string());
    match revert_plan(Some(t)) {
        Ok(RevertPlan::RevokeSaga(id)) => assert_eq!(id, "saga-1"),
        _ => panic!("expected the saga to be revoked"),
    }
}

#[test]
fn revert_of_legacy_transaction_checks_its_points() {
    let mut t = tx(1, "legacy");
    t.ys = vec!["02aa".to_string(), "03bb".to_string()];
    match revert_plan(Some(t)) {
        Ok(RevertPlan::CheckLegacyProofs(ys)) => assert_eq!(ys, vec!["02aa", "03bb"]),
        _ => panic!("expected a legacy check"),
    }
}

#[test]
fn legacy_revert_checks_only_proofs_of_the_transaction() {
    let pending = vec![mk_proof(1, Some("02aa")), mk_proof(2, None), mk_proof(4, Some("03cc")), mk_proof(8, Some("03bb"))];
    let ys = vec!["02aa".to_string(), "03bb".to_string()];
    let selected = legacy_proofs_to_check(pending, &ys);
    let amounts: Vec<u64> = selected.iter().map(|p| p.amount).collect();
    assert_eq!(amounts, vec![1, 8]);
}

#[test]
fn legacy_revert_with_no_matching_proofs_checks_nothing() {
    let selected = legacy_proofs_to_check(vec![mk_proof(1, Some("02ff"))], &vec!["02aa".to_string()]);
    assert!(selected.is_empty());
}
