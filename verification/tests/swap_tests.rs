use cdk::error::Error;
use cdk::swap::{
    advance_counter, denomination_change_amount, denomination_include_redeem_fee, denomination_secrets_needed,
    denomination_swap_transaction, derived_secret_count, first_reserved_counter, include_redeem_fee,
    reclaim_action, select_denomination_proofs, select_unspent, settle_denomination_swap,
    swap_change_amount, swap_secrets_needed, ReclaimAction,
};
use cdk::types::{Proof, ProofState, TransactionDirection, TransactionKind, TransactionStatus};

fn mk_proof(amount: u64, y: &str) -> Proof {
    Proof { amount, secret: format!("s-{y}"), y: Some(y.to_string()), conditional: false }
}

fn locked(amount: u64, y: &str) -> Proof {
    Proof { amount, secret: format!("s-{y}"), y: Some(y.to_string()), conditional: true }
}

fn ys(ps: &[Proof]) -> Vec<String> {
    ps.iter().map(|p| p.y.clone().unwrap()).collect()
}

#[test]
fn swap_change_is_total_less_amount_and_fee() {
    assert_eq!(swap_change_amount(100, Some(60), 2), Ok(38));
    assert_eq!(swap_change_amount(100, None, 2), Ok(98));
    assert_eq!(swap_change_amount(62, Some(60), 2), Ok(0));
}

#[test]
fn swap_change_insufficient_funds() {
    assert_eq!(swap_change_amount(61, Some(60), 2), Err(Error::InsufficientFunds));
}

#[test]
fn swap_change_amount_overflow() {
    assert_eq!(swap_change_amount(u64::MAX, Some(u64::MAX), 1), Err(Error::AmountOverflow));
}

#[test]
fn redeem_fee_moves_from_change_to_amount() {
    assert_eq!(include_redeem_fee(Some(60), 38, 3), Ok((Some(63), 35)));
    assert_eq!(include_redeem_fee(None, 38, 0), Ok((None, 38)));
}

#[test]
fn redeem_fee_errors() {
    assert_eq!(include_redeem_fee(Some(u64::MAX), 38, 1), Err(Error::AmountOverflow));
    assert_eq!(include_redeem_fee(Some(60), 2, 3), Err(Error::InsufficientFunds));
}

#[test]
fn swap_conserves_value_on_example() {
    let total = 1000;
    let fee = 4;
    let change = swap_change_amount(total, Some(300), fee).unwrap();
    let (send, change) = include_redeem_fee(Some(300), change, 2).unwrap();
    assert_eq!(send.unwrap() + change + fee, total);
}

#[test]
fn secrets_needed_for_a_swap() {
    assert_eq!(swap_secrets_needed(true, 5, 3), 3);
    assert_eq!(swap_secrets_needed(false, 5, 3), 8);
}

#[test]
fn first_counter_of_reserved_range() {
    assert_eq!(first_reserved_counter(8, 20), 12);
    assert_eq!(first_reserved_counter(0, 20), 0);
}

#[test]
fn counters_and_derived_counts() {
    assert_eq!(advance_counter(12, 5), 17);
    assert_eq!(derived_secret_count(true, 5, 3), 3);
    assert_eq!(derived_secret_count(false, 5, 3), 8);
}

#[test]
fn denomination_amounts() {
    assert_eq!(denomination_change_amount(100, Some(40), 2), 58);
    assert_eq!(denomination_change_amount(100, None, 2), 98);
    assert_eq!(denomination_include_redeem_fee(Some(40), 58, 3), (Some(43), 55));
    assert_eq!(denomination_include_redeem_fee(None, 58, 0), (None, 58));
}

#[test]
fn denomination_conserves_value_on_example() {
    let change = denomination_change_amount(500, Some(64), 3);
    let (send, change) = denomination_include_redeem_fee(Some(64), change, 1);
    assert_eq!(send.unwrap() + change + 3, 500);
}

#[test]
fn denomination_secrets_count_the_amount() {
    assert_eq!(denomination_secrets_needed(Some(16), 4), 20);
    assert_eq!(denomination_secrets_needed(None, 4), 4);
    // the amount is taken as a 32-bit count
    assert_eq!(denomination_secrets_needed(Some((1u64 << 32) + 1), 4), 5);
}

#[test]
fn selection_walks_from_last_and_drops_locked_proofs() {
    let post = vec![mk_proof(4, "a"), mk_proof(4, "b"), locked(4, "c"), mk_proof(2, "d"), mk_proof(4, "e")];
    let (send, keep) = select_denomination_proofs(post, vec![4, 4]);
    assert_eq!(ys(&send), vec!["e", "b"]);
    assert_eq!(ys(&keep), vec!["d", "a"]);
}

#[test]
fn selection_with_nothing_wanted_keeps_all() {
    let (send, keep) = select_denomination_proofs(vec![mk_proof(1, "a"), mk_proof(2, "b")], vec![]);
    assert!(send.is_empty());
    assert_eq!(ys(&keep), vec!["b", "a"]);
}

#[test]
fn selection_sends_each_wanted_amount_once() {
    let post = vec![mk_proof(8, "a"), mk_proof(8, "b"), mk_proof(8, "c")];
    let (send, keep) = select_denomination_proofs(post, vec![8, 2]);
    assert_eq!(ys(&send), vec!["c"]);
    assert_eq!(ys(&keep), vec!["b", "a"]);
}

#[test]
fn unspent_selection_pairs_positions() {
    let ps = vec![mk_proof(1, "a"), mk_proof(2, "b"), mk_proof(4, "c"), mk_proof(8, "d")];
    let states = vec![ProofState::Unspent, ProofState::Spent, ProofState::Unspent];
    assert_eq!(ys(&select_unspent(ps, &states)), vec!["a", "c"]);
}

#[test]
fn reclaim_actions() {
    let ps = vec![mk_proof(1, "a"), mk_proof(2, "b")];
    match reclaim_action(ps.clone(), Ok(vec![ProofState::Spent, ProofState::Unspent])) {
        ReclaimAction::SwapBack(u) => assert_eq!(ys(&u), vec!["b"]),
        _ => panic!("expected a swap back"),
    }
    assert!(matches!(
        reclaim_action(ps.clone(), Ok(vec![ProofState::Spent, ProofState::Pending])),
        ReclaimAction::NothingToReclaim
    ));
    match reclaim_action(ps, Err(Error::Timeout)) {
        ReclaimAction::RecordAndFail(e) => assert_eq!(e, Error::Timeout),
        _ => panic!("expected the transaction to be recorded"),
    }
}

#[test]
fn denomination_swap_record() {
    let t = denomination_swap_transaction(
        "https://mint.example".to_string(),
        "sat".to_string(),
        3,
        vec!["02aa".to_string()],
        "cashuB...".to_string(),
        1_700_000_000,
    );
    assert_eq!(t.direction, TransactionDirection::Split);
    assert_eq!(t.kind, TransactionKind::Cashu);
    assert_eq!(t.amount, 32);
    assert_eq!(t.fee, 3);
    assert_eq!(t.status, TransactionStatus::Failed);
    assert_eq!(t.timestamp, 1_700_000_000);
    assert_eq!(t.ys, vec!["02aa"]);
    assert!(t.metadata.is_empty());
}

#[test]
fn settle_with_amount_splits_send_and_change() {
    let post = vec![mk_proof(2, "a"), mk_proof(4, "b"), locked(4, "c"), mk_proof(4, "d")];
    let input = vec![mk_proof(16, "x")];
    let out = settle_denomination_swap(Some(8), post, vec![4, 4], &input).unwrap();
    assert_eq!(ys(&out.send.unwrap()), vec!["d", "b"]);
    assert_eq!(ys(&out.added), vec!["d", "b", "a"]);
    assert_eq!(out.deleted_ys, vec!["x"]);
}

#[test]
fn settle_without_amount_keeps_everything() {
    let post = vec![mk_proof(2, "a"), locked(4, "c")];
    let input = vec![mk_proof(6, "x")];
    let out = settle_denomination_swap(None, post, vec![], &input).unwrap();
    assert!(out.send.is_none());
    assert_eq!(ys(&out.added), vec!["a", "c"]);
}

#[test]
fn settle_needs_known_points() {
    let mut bad = mk_proof(6, "x");
    bad.y = None;
    let r = settle_denomination_swap(None, vec![mk_proof(2, "a")], vec![], &vec![bad]);
    assert!(matches!(r, Err(Error::NoValidPoint)));
}
