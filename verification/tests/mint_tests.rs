use cdk::error::{Error, ErrorResponse};
use cdk::mint::{
    add_minted, check_description_support, complete_mint_transaction, dleq_verdict, fail_mint_transaction,
    find_mint_transaction, get_settings, mint_counter_increment, mint_quote_transaction, new_mint_quote,
    next_counter, quote_action, refresh_quote_state, require_quote, DleqCheck, MintQuoteAction,
};
use cdk::proofs::{proofs_ys, request_failure_error, require_points, total_amount, with_status};
use cdk::types::{
    MintInfo, MintMethodOptions, MintMethodSettings, MintQuote, MintQuoteResponse, MintQuoteState,
    PaymentMethod, Proof, RequestFailure, Transaction, TransactionDirection, TransactionKind, TransactionStatus,
};

fn settings(method: PaymentMethod, unit: &str, options: Option<MintMethodOptions>) -> MintMethodSettings {
    MintMethodSettings { method, unit: unit.to_string(), min_amount: None, max_amount: None, options }
}

fn info(methods: Vec<MintMethodSettings>) -> MintInfo {
    MintInfo { nut04_methods: methods, nut04_disabled: false }
}

fn response(expiry: Option<u64>, pubkey: Option<&str>) -> MintQuoteResponse {
    MintQuoteResponse {
        quote: "q1".to_string(),
        request: "lnbc100n1...".to_string(),
        state: MintQuoteState::Unpaid,
        expiry,
        pubkey: pubkey.map(|s| s.to_string()),
    }
}

fn quote(state: MintQuoteState) -> MintQuote {
    MintQuote {
        mint_url: "https://mint.example".to_string(),
        id: "q1".to_string(),
        amount: 100,
        unit: "sat".to_string(),
        request: "lnbc".to_string(),
        state,
        expiry: 50,
        secret_key: None,
    }
}

fn ln_tx(quote_id: &str, memo: &str) -> Transaction {
    Transaction {
        mint_url: "https://mint.example".to_string(),
        direction: TransactionDirection::Incoming,
        kind: TransactionKind::LN,
        amount: 100,
        fee: 0,
        unit: "sat".to_string(),
        ys: vec!["02aa".to_string()],
        token: "lnbc".to_string(),
        status: TransactionStatus::Pending,
        timestamp: 10,
        memo: Some(memo.to_string()),
        metadata: vec![("quote_id".to_string(), quote_id.to_string())],
        quote_id: None,
        payment_request: None,
        payment_proof: None,
        payment_method: None,
        saga_id: None,
    }
}

fn mk_proof(amount: u64) -> Proof {
    Proof { amount, secret: format!("s{amount}"), y: Some(format!("02{amount:02x}")), conditional: false }
}

#[test]
fn error_response_kept_when_read() {
    let parsed = ErrorResponse { code: 11001, error: Some("Token already spent".to_string()), detail: None };
    let r = ErrorResponse::from_json("{...}", Some(parsed.clone()));
    assert_eq!(r, parsed);
}

#[test]
fn error_response_fallback_for_unreadable_reply() {
    let r = ErrorResponse::from_json("not json", None);
    assert_eq!(r, ErrorResponse { code: 999, error: Some("not json".to_string()), detail: None });
}

#[test]
fn settings_lookup_takes_first_match() {
    let methods = vec![
        settings(PaymentMethod::Bolt12, "sat", None),
        settings(PaymentMethod::Bolt11, "usd", None),
        settings(PaymentMethod::Bolt11, "sat", Some(MintMethodOptions::Bolt11 { description: true })),
        settings(PaymentMethod::Bolt11, "sat", None),
    ];
    let found = get_settings(&methods, &"sat".to_string(), PaymentMethod::Bolt11).unwrap();
    assert_eq!(found.options, Some(MintMethodOptions::Bolt11 { description: true }));
    assert!(get_settings(&methods, &"eur".to_string(), PaymentMethod::Bolt11).is_none());
}

#[test]
fn description_checks() {
    let sat = "sat".to_string();
    assert_eq!(check_description_support(false, None, &sat), Ok(()));
    assert_eq!(check_description_support(true, None, &sat), Err(Error::IncorrectMint));
    let other_unit = info(vec![settings(PaymentMethod::Bolt11, "usd", None)]);
    assert_eq!(check_description_support(true, Some(other_unit), &sat), Err(Error::UnsupportedUnit));
    let no_desc = info(vec![settings(PaymentMethod::Bolt11, "sat", Some(MintMethodOptions::Bolt11 { description: false }))]);
    assert_eq!(check_description_support(true, Some(no_desc), &sat), Err(Error::InvoiceDescriptionUnsupported));
    let no_options = info(vec![settings(PaymentMethod::Bolt11, "sat", None)]);
    assert_eq!(check_description_support(true, Some(no_options), &sat), Err(Error::InvoiceDescriptionUnsupported));
    let ok = info(vec![settings(PaymentMethod::Bolt11, "sat", Some(MintMethodOptions::Bolt11 { description: true }))]);
    assert_eq!(check_description_support(true, Some(ok), &sat), Ok(()));
}

#[test]
fn new_quote_defaults_expiry_to_zero() {
    let q = new_mint_quote("https://m".to_string(), 100, "sat".to_string(), &response(None, Some("02aa")), "sk".to_string());
    assert_eq!(q.expiry, 0);
    assert_eq!(q.id, "q1");
    assert_eq!(q.secret_key.as_deref(), Some("sk"));
    let q = new_mint_quote("https://m".to_string(), 100, "sat".to_string(), &response(Some(77), None), "sk".to_string());
    assert_eq!(q.expiry, 77);
}

#[test]
fn quote_transaction_is_pending_incoming_lightning() {
    let t = mint_quote_transaction("https://m".to_string(), 100, "sat".to_string(), response(None, Some("02aa")), 123);
    assert_eq!(t.direction, TransactionDirection::Incoming);
    assert_eq!(t.kind, TransactionKind::LN);
    assert_eq!(t.status, TransactionStatus::Pending);
    assert_eq!(t.fee, 0);
    assert_eq!(t.ys, vec!["02aa"]);
    assert_eq!(t.token, "lnbc100n1...");
    assert_eq!(t.timestamp, 123);
    assert_eq!(t.metadata, vec![("quote_id".to_string(), "q1".to_string())]);
}

#[test]
fn quote_state_refresh() {
    let q = refresh_quote_state(Some(quote(MintQuoteState::Unpaid)), MintQuoteState::Paid).unwrap();
    assert_eq!(q.state, MintQuoteState::Paid);
    assert_eq!(q.id, "q1");
    assert!(refresh_quote_state(None, MintQuoteState::Paid).is_none());
}

#[test]
fn quote_actions() {
    assert_eq!(quote_action(MintQuoteState::Paid, 10, 100), MintQuoteAction::Mint);
    assert_eq!(quote_action(MintQuoteState::Unpaid, 100, 100), MintQuoteAction::Remove);
    assert_eq!(quote_action(MintQuoteState::Issued, 10, 100), MintQuoteAction::Remove);
    assert_eq!(quote_action(MintQuoteState::Unpaid, 101, 100), MintQuoteAction::Keep);
}

#[test]
fn minted_total_adds_up() {
    let mut total = 0;
    for minted in [64u64, 32, 4] {
        total = add_minted(total, minted);
    }
    assert_eq!(total, 100);
}

#[test]
fn counters() {
    assert_eq!(next_counter(None), 0);
    assert_eq!(next_counter(Some(41)), 42);
    assert_eq!(mint_counter_increment(false, 7), Some(7));
    assert_eq!(mint_counter_increment(true, 7), None);
}

#[test]
fn missing_quote_is_unknown() {
    assert!(matches!(require_quote(None), Err(Error::UnknownQuote)));
    assert_eq!(require_quote(Some(quote(MintQuoteState::Paid))).unwrap().id, "q1");
}

#[test]
fn finds_first_transaction_of_the_quote() {
    let mut outgoing = ln_tx("q1", "out");
    outgoing.direction = TransactionDirection::Outgoing;
    let mut cashu = ln_tx("q1", "cashu");
    cashu.kind = TransactionKind::Cashu;
    let pending = vec![outgoing, ln_tx("q2", "other"), cashu, ln_tx("q1", "first"), ln_tx("q1", "second")];
    let t = find_mint_transaction(pending, &"q1".to_string()).unwrap();
    assert_eq!(t.memo.as_deref(), Some("first"));
}

#[test]
fn no_transaction_for_the_quote() {
    let r = find_mint_transaction(vec![ln_tx("q2", "other")], &"q1".to_string());
    assert!(matches!(r, Err(Error::TransactionNotFound)));
}

#[test]
fn failed_mint_request_marks_transaction_failed() {
    let (t, e) = fail_mint_transaction(ln_tx("q1", "m"), RequestFailure::TimedOut);
    assert_eq!(t.status, TransactionStatus::Failed);
    assert_eq!(e, Error::Timeout);
    let (t, e) = fail_mint_transaction(ln_tx("q1", "m"), RequestFailure::Rejected(Error::TokenSpent));
    assert_eq!(t.status, TransactionStatus::Failed);
    assert_eq!(t.memo.as_deref(), Some("m"));
    assert_eq!(e, Error::TokenSpent);
}

#[test]
fn dleq_verdicts() {
    assert_eq!(dleq_verdict(DleqCheck::Valid), Ok(()));
    assert_eq!(dleq_verdict(DleqCheck::MissingProof), Ok(()));
    assert_eq!(dleq_verdict(DleqCheck::KeyMissing), Err(Error::AmountKey));
    assert_eq!(dleq_verdict(DleqCheck::Invalid), Err(Error::CouldNotVerifyDleq));
}

#[test]
fn completed_mint_transaction() {
    let t = complete_mint_transaction(ln_tx("q1", "m"), &vec![mk_proof(64), mk_proof(32), mk_proof(4)], 999).unwrap();
    assert_eq!(t.amount, 100);
    assert_eq!(t.timestamp, 999);
    assert_eq!(t.status, TransactionStatus::Success);
    let r = complete_mint_transaction(ln_tx("q1", "m"), &vec![mk_proof(u64::MAX), mk_proof(1)], 999);
    assert!(matches!(r, Err(Error::AmountOverflow)));
}

#[test]
fn totals_and_points() {
    assert_eq!(total_amount(&vec![]), Ok(0));
    assert_eq!(total_amount(&vec![mk_proof(1), mk_proof(2)]), Ok(3));
    assert_eq!(total_amount(&vec![mk_proof(u64::MAX), mk_proof(1)]), Err(Error::AmountOverflow));
    assert_eq!(proofs_ys(&vec![mk_proof(1), mk_proof(2)]).unwrap(), vec!["0201", "0202"]);
    let mut unknown = mk_proof(4);
    unknown.y = None;
    assert_eq!(proofs_ys(&vec![mk_proof(1), unknown.clone()]), Err(Error::NoValidPoint));
    assert_eq!(require_points(&vec![mk_proof(1)]), Ok(()));
    assert_eq!(require_points(&vec![unknown]), Err(Error::NoValidPoint));
}

#[test]
fn request_failures_and_status() {
    assert_eq!(request_failure_error(RequestFailure::TimedOut), Error::Timeout);
    assert_eq!(request_failure_error(RequestFailure::Rejected(Error::UnknownQuote)), Error::UnknownQuote);
    assert_eq!(with_status(ln_tx("q1", "m"), TransactionStatus::Success).status, TransactionStatus::Success);
}
