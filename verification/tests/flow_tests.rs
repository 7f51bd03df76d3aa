use cdk::error::Error;
use cdk::mint::DleqCheck;
use cdk::mint_flow::{MintAction, MintEvent, MintFlow, MintStage};
use cdk::quote_flow::{
    MintQuoteFlow, QuoteAction, QuoteEvent, QuoteStateAction, QuoteStateEvent, QuoteStateFlow, QuoteSweep,
    SweepAction, SweepEvent,
};
use cdk::swap_flow::{
    CreateSwapAction, CreateSwapEvent, CreateSwapFlow, DenomAction, DenomEvent, DenomStage, DenominationPlan,
    DenominationPlanFlow,
    DenominationSwapFlow, PlanAction, PlanEvent, ReclaimEvent, ReclaimFlow, ReclaimFlowAction,
};
use cdk::transactions::{RevertAction, RevertEvent, RevertFlow};
use cdk::types::{
    MintInfo, MintMethodOptions, MintMethodSettings, MintQuote, MintQuoteResponse, MintQuoteState, PaymentMethod,
    Proof, ProofState, RequestFailure, Transaction, TransactionDirection, TransactionKind, TransactionStatus,
};

fn mk_proof(amount: u64, y: &str) -> Proof {
    Proof { amount, secret: format!("s-{y}"), y: Some(y.to_string()), conditional: false }
}

fn quote(expiry: u64) -> MintQuote {
    MintQuote {
        mint_url: "https://mint.example".to_string(),
        id: "q1".to_string(),
        amount: 100,
        unit: "sat".to_string(),
        request: "lnbc".to_string(),
        state: MintQuoteState::Unpaid,
        expiry,
        secret_key: Some("sk".to_string()),
    }
}

fn pending_tx(quote_id: &str) -> Transaction {
    Transaction {
        mint_url: "https://mint.example".to_string(),
        direction: TransactionDirection::Incoming,
        kind: TransactionKind::LN,
        amount: 100,
        fee: 0,
        unit: "sat".to_string(),
        ys: vec!["02aa".to_string()],
        token: "lnbc".to_string(),
        status: TransactionStatus::Pending,
        timestamp: 5,
        memo: None,
        metadata: vec![("quote_id".to_string(), quote_id.to_string())],
        quote_id: None,
        payment_request: None,
        payment_proof: None,
        payment_method: None,
        saga_id: None,
    }
}

fn mint_until_post() -> MintFlow {
    let (f, a) = MintFlow::new("https://m".to_string(), "q1".to_string(), false, 1000);
    assert!(matches!(a, MintAction::GetMint));
    let (f, a) = f.step(MintEvent::MintFound(true));
    assert!(matches!(a, MintAction::GetQuote(ref id) if id == "q1"));
    let (f, a) = f.step(MintEvent::Quote(Some(quote(50))));
    assert!(matches!(a, MintAction::GetActiveKeyset));
    let (f, a) = f.step(MintEvent::ActiveKeyset("ks".to_string()));
    assert!(matches!(a, MintAction::GetCounter(ref k) if k == "ks"));
    let (f, a) = f.step(MintEvent::Counter(Some(4)));
    assert!(matches!(a, MintAction::BuildSecretsFromSeed { ref keyset_id, counter: 5, amount: 100 } if keyset_id == "ks"));
    let (f, a) = f.step(MintEvent::SecretsBuilt(2));
    assert!(matches!(a, MintAction::BuildRequest { ref quote_id, sign_with: Some(ref k) } if quote_id == "q1" && k == "sk"));
    let (f, a) = f.step(MintEvent::RequestBuilt);
    assert!(matches!(a, MintAction::ListPending));
    let (f, a) = f.step(MintEvent::Pending(vec![pending_tx("q0"), pending_tx("q1")]));
    assert!(matches!(a, MintAction::PostMint));
    f
}

#[test]
fn mint_flow_settles_a_paid_quote() {
    let f = mint_until_post();
    let (f, a) = f.step(MintEvent::Signed(2));
    assert!(matches!(a, MintAction::GetKeys(ref k) if k == "ks"));
    let (f, a) = f.step(MintEvent::KeysLoaded);
    assert!(matches!(a, MintAction::CheckDleq(0)));
    let (f, a) = f.step(MintEvent::Dleq(DleqCheck::Valid));
    assert!(matches!(a, MintAction::CheckDleq(1)));
    let (f, a) = f.step(MintEvent::Dleq(DleqCheck::MissingProof));
    assert!(matches!(a, MintAction::ConstructProofs(ref k) if k == "ks"));
    let (f, a) = f.step(MintEvent::ProofsConstructed(vec![mk_proof(64, "a"), mk_proof(36, "b")]));
    assert!(matches!(a, MintAction::RemoveQuote(ref id) if id == "q1"));
    let (f, a) = f.step(MintEvent::QuoteRemoved);
    assert!(matches!(a, MintAction::IncrementCounter { by: 2, .. }));
    let (f, a) = f.step(MintEvent::CounterIncremented);
    match a {
        MintAction::StoreProofs { proofs, mint_url, unit, state } => {
            assert_eq!(proofs.len(), 2);
            assert_eq!(mint_url, "https://m");
            assert_eq!(unit, "sat");
            assert_eq!(state, ProofState::Unspent);
        }
        _ => panic!("expected the proofs to be stored"),
    }
    let (f, a) = f.step(MintEvent::ProofsStored);
    assert_eq!(f.stage, MintStage::Finished);
    match a {
        MintAction::Finish(Ok((proofs, tx))) => {
            assert_eq!(proofs.len(), 2);
            assert_eq!(tx.amount, 100);
            assert_eq!(tx.status, TransactionStatus::Success);
            assert_eq!(tx.timestamp, 1000);
            assert_eq!(tx.metadata[0].1, "q1");
        }
        _ => panic!("expected the mint to succeed"),
    }
}

#[test]
fn mint_flow_records_a_timed_out_request() {
    let f = mint_until_post();
    let (f, a) = f.step(MintEvent::PostFailed(RequestFailure::TimedOut));
    match a {
        MintAction::RecordTransaction(tx) => {
            assert_eq!(tx.status, TransactionStatus::Failed);
            assert_eq!(tx.metadata[0].1, "q1");
        }
        _ => panic!("expected the transaction to be recorded"),
    }
    let (_, a) = f.step(MintEvent::Recorded);
    assert!(matches!(a, MintAction::Finish(Err(Error::Timeout))));
}

#[test]
fn mint_flow_stops_on_a_bad_dleq_proof() {
    let (f, _) = mint_until_post().step(MintEvent::Signed(3));
    let (f, _) = f.step(MintEvent::KeysLoaded);
    let (_, a) = f.step(MintEvent::Dleq(DleqCheck::Invalid));
    assert!(matches!(a, MintAction::Finish(Err(Error::CouldNotVerifyDleq))));
}

#[test]
fn mint_flow_with_conditions_keeps_the_counter() {
    let (f, _) = MintFlow::new("https://m".to_string(), "q1".to_string(), true, 7);
    let (f, a) = f.step(MintEvent::MintFound(false));
    assert!(matches!(a, MintAction::FetchMintInfo));
    let (f, _) = f.step(MintEvent::MintInfoFetched);
    let (f, _) = f.step(MintEvent::Quote(Some(quote(50))));
    let (f, _) = f.step(MintEvent::ActiveKeyset("ks".to_string()));
    let (f, a) = f.step(MintEvent::Counter(None));
    assert!(matches!(a, MintAction::BuildSecretsWithConditions { amount: 100, .. }));
    let (f, _) = f.step(MintEvent::SecretsBuilt(1));
    let (f, _) = f.step(MintEvent::RequestBuilt);
    let (f, _) = f.step(MintEvent::Pending(vec![pending_tx("q1")]));
    let (f, a) = f.step(MintEvent::Signed(0));
    assert!(matches!(a, MintAction::GetKeys(_)));
    let (f, a) = f.step(MintEvent::KeysLoaded);
    assert!(matches!(a, MintAction::ConstructProofs(_)));
    let (f, _) = f.step(MintEvent::ProofsConstructed(vec![mk_proof(100, "a")]));
    let (_, a) = f.step(MintEvent::QuoteRemoved);
    assert!(matches!(a, MintAction::StoreProofs { .. }));
}

#[test]
fn mint_flow_errors() {
    let (f, _) = MintFlow::new("https://m".to_string(), "q1".to_string(), false, 7);
    let (f, _) = f.step(MintEvent::MintFound(true));
    let (_, a) = f.step(MintEvent::Quote(None));
    assert!(matches!(a, MintAction::Finish(Err(Error::UnknownQuote))));

    let mut f = mint_until_post();
    f.stage = MintStage::ListPending;
    let (_, a) = f.step(MintEvent::Pending(vec![pending_tx("other")]));
    assert!(matches!(a, MintAction::Finish(Err(Error::TransactionNotFound))));

    let (f, _) = MintFlow::new("https://m".to_string(), "q1".to_string(), false, 7);
    let (f, a) = f.step(MintEvent::Failed(Error::IncorrectMint));
    assert_eq!(f.stage, MintStage::Finished);
    assert!(matches!(a, MintAction::Finish(Err(Error::IncorrectMint))));
}

#[test]
fn mint_flow_fails_on_missing_keys_before_any_dleq_check() {
    let (f, a) = mint_until_post().step(MintEvent::Signed(3));
    assert!(matches!(a, MintAction::GetKeys(_)));
    let (f, a) = f.step(MintEvent::Failed(Error::NoActiveKeyset));
    assert_eq!(f.stage, MintStage::Finished);
    assert!(matches!(a, MintAction::Finish(Err(Error::NoActiveKeyset))));
}

#[test]
fn events_of_another_stage_change_nothing() {
    let (f, _) = MintFlow::new("https://m".to_string(), "q1".to_string(), false, 7);
    let (f, a) = f.step(MintEvent::ProofsStored);
    assert!(matches!(a, MintAction::Unexpected));
    assert_eq!(f.stage, MintStage::CheckMint);
}

#[test]
fn quote_flow_asks_and_records() {
    let (f, a) = MintQuoteFlow::new("https://m".to_string(), "sat".to_string(), 100, None, 123);
    assert!(matches!(a, QuoteAction::NewSecretKey));
    let (f, a) = f.step(QuoteEvent::SecretKey { secret: "sk".to_string(), pubkey: "02pk".to_string() });
    assert!(matches!(a, QuoteAction::PostQuote { amount: 100, ref pubkey, .. } if pubkey == "02pk"));
    let response = MintQuoteResponse {
        quote: "q9".to_string(),
        request: "lnbc1".to_string(),
        state: MintQuoteState::Unpaid,
        expiry: Some(999),
        pubkey: Some("02pk".to_string()),
    };
    let (f, a) = f.step(QuoteEvent::Quoted(response));
    match a {
        QuoteAction::StoreQuote(q) => {
            assert_eq!(q.id, "q9");
            assert_eq!(q.expiry, 999);
            assert_eq!(q.secret_key.as_deref(), Some("sk"));
        }
        _ => panic!("expected the quote to be stored"),
    }
    let (f, a) = f.step(QuoteEvent::QuoteStored);
    match a {
        QuoteAction::RecordTransaction(tx) => {
            assert_eq!(tx.status, TransactionStatus::Pending);
            assert_eq!(tx.timestamp, 123);
        }
        _ => panic!("expected the transaction to be recorded"),
    }
    let (_, a) = f.step(QuoteEvent::Recorded);
    match a {
        QuoteAction::Finish(Ok((q, tx))) => {
            assert_eq!(q.id, "q9");
            assert_eq!(tx.ys, vec!["02pk"]);
        }
        _ => panic!("expected the quote"),
    }
}

#[test]
fn quote_flow_with_unsupported_description() {
    let (f, a) = MintQuoteFlow::new("https://m".to_string(), "sat".to_string(), 100, Some("coffee".to_string()), 1);
    assert!(matches!(a, QuoteAction::GetMint));
    let info = MintInfo {
        nut04_methods: vec![MintMethodSettings {
            method: PaymentMethod::Bolt11,
            unit: "sat".to_string(),
            min_amount: None,
            max_amount: None,
            options: Some(MintMethodOptions::Bolt11 { description: false }),
        }],
        nut04_disabled: false,
    };
    let (_, a) = f.step(QuoteEvent::Mint(Some(info)));
    assert!(matches!(a, QuoteAction::Finish(Err(Error::InvoiceDescriptionUnsupported))));
}

#[test]
fn quote_state_flow_updates_the_stored_quote() {
    let (f, a) = QuoteStateFlow::new("q1".to_string());
    assert!(matches!(a, QuoteStateAction::GetStatus(ref id) if id == "q1"));
    let response = MintQuoteResponse {
        quote: "q1".to_string(),
        request: "lnbc".to_string(),
        state: MintQuoteState::Paid,
        expiry: None,
        pubkey: None,
    };
    let (f, a) = f.step(QuoteStateEvent::Status(response));
    assert!(matches!(a, QuoteStateAction::GetQuote(_)));
    let (f, a) = f.step(QuoteStateEvent::Quote(Some(quote(5))));
    match a {
        QuoteStateAction::StoreQuote(q) => assert_eq!(q.state, MintQuoteState::Paid),
        _ => panic!("expected the quote to be stored"),
    }
    let (_, a) = f.step(QuoteStateEvent::QuoteStored);
    assert!(matches!(a, QuoteStateAction::Finish(Ok(ref r)) if r.state == MintQuoteState::Paid));
}

#[test]
fn sweep_mints_paid_and_removes_expired_quotes() {
    let mut second = quote(10);
    second.id = "q2".to_string();
    let (f, a) = QuoteSweep::new();
    assert!(matches!(a, SweepAction::ListQuotes));
    let (f, a) = f.step(SweepEvent::Quotes(vec![quote(500), second]));
    assert!(matches!(a, SweepAction::AskState(ref id) if id == "q1"));
    let (f, a) = f.step(SweepEvent::State { state: MintQuoteState::Paid, now: 100 });
    assert!(matches!(a, SweepAction::Mint(ref id) if id == "q1"));
    let (f, a) = f.step(SweepEvent::Minted(vec![mk_proof(64, "a"), mk_proof(32, "b")]));
    assert!(matches!(a, SweepAction::AskState(ref id) if id == "q2"));
    let (f, a) = f.step(SweepEvent::State { state: MintQuoteState::Unpaid, now: 100 });
    assert!(matches!(a, SweepAction::Remove(ref id) if id == "q2"));
    let (_, a) = f.step(SweepEvent::Removed);
    assert!(matches!(a, SweepAction::Finish(Ok(96))));
}

#[test]
fn sweep_of_no_quotes_mints_nothing() {
    let (f, _) = QuoteSweep::new();
    let (_, a) = f.step(SweepEvent::Quotes(vec![]));
    assert!(matches!(a, SweepAction::Finish(Ok(0))));
}

#[test]
fn create_swap_flow_plans_send_and_change() {
    let proofs = vec![mk_proof(64, "a"), mk_proof(32, "b"), mk_proof(4, "c")];
    let (f, a) = CreateSwapFlow::new(Some(60), false, false, true, &proofs, 2);
    assert!(matches!(a, CreateSwapAction::ReserveProofs(ref ys) if ys == &vec!["a", "b", "c"]));
    let (f, a) = f.step(CreateSwapEvent::Reserved);
    assert!(matches!(a, CreateSwapAction::CountSplits { send: Some(60), change: 38 }));
    let (f, a) = f.step(CreateSwapEvent::SplitsCounted { send: 4, change: 3 });
    assert!(matches!(a, CreateSwapAction::ReserveCounter(7)));
    let (f, a) = f.step(CreateSwapEvent::CounterReserved(17));
    assert!(matches!(a, CreateSwapAction::BuildSendSecrets { counter: 10, amount: 60 }));
    let (f, a) = f.step(CreateSwapEvent::SendBuilt(4));
    assert!(matches!(a, CreateSwapAction::BuildChangeSecrets { counter: 14, amount: 38 }));
    let (_, a) = f.step(CreateSwapEvent::ChangeBuilt(3));
    match a {
        CreateSwapAction::Finish(Ok(plan)) => {
            assert_eq!(plan.derived_secret_count, 7);
            assert_eq!(plan.fee, 2);
            assert_eq!(plan.send_amount, Some(60));
            assert_eq!(plan.change_amount, 38);
            assert_eq!(plan.send_amount.unwrap() + plan.change_amount + plan.fee, 100);
        }
        _ => panic!("expected a plan"),
    }
}

#[test]
fn create_swap_flow_with_fees_and_conditions() {
    let proofs = vec![mk_proof(64, "a"), mk_proof(32, "b"), mk_proof(4, "c")];
    let (f, _) = CreateSwapFlow::new(Some(60), true, true, false, &proofs, 2);
    let (f, a) = f.step(CreateSwapEvent::Reserved);
    assert!(matches!(a, CreateSwapAction::CountSplit(60)));
    let (f, a) = f.step(CreateSwapEvent::SplitCounted(4));
    assert!(matches!(a, CreateSwapAction::RedeemFee(4)));
    let (f, a) = f.step(CreateSwapEvent::RedeemFeeIs(1));
    assert!(matches!(a, CreateSwapAction::DetermineChangeTarget(37)));
    let (f, a) = f.step(CreateSwapEvent::ChangeTargetSet);
    assert!(matches!(a, CreateSwapAction::CountSplits { send: None, change: 37 }));
    let (f, a) = f.step(CreateSwapEvent::SplitsCounted { send: 0, change: 3 });
    assert!(matches!(a, CreateSwapAction::ReserveCounter(3)));
    let (f, a) = f.step(CreateSwapEvent::CounterReserved(3));
    assert!(matches!(a, CreateSwapAction::BuildChangeSecrets { counter: 0, amount: 37 }));
    let (f, a) = f.step(CreateSwapEvent::ChangeBuilt(3));
    assert!(matches!(a, CreateSwapAction::BuildConditionedSecrets(61)));
    let (_, a) = f.step(CreateSwapEvent::ConditionedBuilt);
    assert!(matches!(a, CreateSwapAction::Finish(Ok(ref p)) if p.derived_secret_count == 3 && p.send_amount == Some(61)));
}

#[test]
fn create_swap_flow_with_nothing_to_derive_reserves_nothing() {
    let proofs = vec![mk_proof(2, "a")];
    let (f, _) = CreateSwapFlow::new(None, false, false, true, &proofs, 2);
    let (f, a) = f.step(CreateSwapEvent::Reserved);
    assert!(matches!(a, CreateSwapAction::CountSplits { send: Some(0), change: 0 }));
    let (f, a) = f.step(CreateSwapEvent::SplitsCounted { send: 0, change: 0 });
    assert!(matches!(a, CreateSwapAction::BuildSendSecrets { counter: 0, amount: 0 }));
    let (f, a) = f.step(CreateSwapEvent::SendBuilt(0));
    assert!(matches!(a, CreateSwapAction::BuildChangeSecrets { counter: 0, amount: 0 }));
    let (_, a) = f.step(CreateSwapEvent::ChangeBuilt(0));
    assert!(matches!(a, CreateSwapAction::Finish(Ok(ref p)) if p.derived_secret_count == 0));
}

#[test]
fn create_swap_flow_insufficient_funds() {
    let proofs = vec![mk_proof(8, "a")];
    let (f, _) = CreateSwapFlow::new(Some(8), false, false, true, &proofs, 1);
    let (_, a) = f.step(CreateSwapEvent::Reserved);
    assert!(matches!(a, CreateSwapAction::Finish(Err(Error::InsufficientFunds))));
    let mut unknown = mk_proof(8, "a");
    unknown.y = None;
    let (_, a) = CreateSwapFlow::new(None, false, false, true, &vec![unknown], 0);
    assert!(matches!(a, CreateSwapAction::Finish(Err(Error::NoValidPoint))));
}

#[test]
fn denomination_plan_flow() {
    let proofs = vec![mk_proof(64, "a"), mk_proof(36, "b")];
    let (f, a) = DenominationPlanFlow::new(4, Some(8), false, proofs);
    assert!(matches!(a, PlanAction::GetActiveKeyset));
    let (f, a) = f.step(PlanEvent::ActiveKeyset("ks".to_string()));
    assert!(matches!(a, PlanAction::GetFeeAndAmounts(ref k) if k == "ks"));
    let (f, a) = f.step(PlanEvent::FeesLoaded);
    assert!(matches!(a, PlanAction::ReserveProofs(ref ys) if ys.len() == 2));
    let (f, a) = f.step(PlanEvent::Reserved);
    assert!(matches!(a, PlanAction::GetProofsFee));
    let (f, a) = f.step(PlanEvent::ProofsFee(2));
    assert!(matches!(a, PlanAction::DetermineChangeTarget(90)));
    let (f, a) = f.step(PlanEvent::ChangeTargetSet);
    assert!(matches!(a, PlanAction::CountChange(90)));
    let (f, a) = f.step(PlanEvent::ChangeCounted(4));
    assert!(matches!(a, PlanAction::ReserveCounter(12)));
    let (f, a) = f.step(PlanEvent::CounterReserved(20));
    assert!(matches!(a, PlanAction::BuildDenominationSecrets { counter: 8, amount: 8, denomination: 4 }));
    let (f, a) = f.step(PlanEvent::SendBuilt(2));
    assert!(matches!(a, PlanAction::BuildChangeSecrets { counter: 10, amount: 90 }));
    let (_, a) = f.step(PlanEvent::ChangeBuilt(4));
    match a {
        PlanAction::Finish(Ok(plan)) => {
            assert_eq!(plan.keyset_id, "ks");
            assert_eq!(plan.derived_secret_count, 6);
            assert_eq!(plan.fee, 2);
            assert_eq!(plan.proofs.len(), 2);
            assert_eq!(plan.send_amount.unwrap() + plan.change_amount + plan.fee, 100);
        }
        _ => panic!("expected a plan"),
    }
}

fn denomination_swap(amount: Option<u64>) -> (DenominationSwapFlow, DenomAction) {
    DenominationSwapFlow::new(
        "https://m".to_string(),
        "sat".to_string(),
        amount,
        4,
        "ks".to_string(),
        1,
        3,
        vec![mk_proof(16, "in")],
        "token".to_string(),
        77,
    )
}

#[test]
fn denomination_swap_flow_settles() {
    let (f, a) = denomination_swap(Some(8));
    assert!(matches!(a, DenomAction::PostSwap));
    assert_eq!(f.tx.as_ref().unwrap().amount, 32);
    let (f, a) = f.step(DenomEvent::Swapped);
    assert!(matches!(a, DenomAction::GetKeys(_)));
    let (f, a) = f.step(DenomEvent::KeysFound(true));
    assert!(matches!(a, DenomAction::ConstructProofs(_)));
    let (f, a) = f.step(DenomEvent::ProofsConstructed(vec![mk_proof(4, "a"), mk_proof(2, "b"), mk_proof(4, "c"), mk_proof(4, "d")]));
    assert!(matches!(a, DenomAction::IncrementCounter { by: 3, .. }));
    let (f, a) = f.step(DenomEvent::CounterIncremented);
    match &a {
        DenomAction::SplitAmount { amount, target, amounts } => {
            assert_eq!(*amount, 8);
            assert_eq!(target, &vec![4; 8]);
            assert_eq!(amounts.len(), 32);
            assert_eq!(amounts[31], 1 << 31);
        }
        _ => panic!("expected the amount to be split"),
    }
    let (f, a) = f.step(DenomEvent::AmountSplit(vec![4, 4]));
    match a {
        DenomAction::UpdateProofs { added, deleted_ys, mint_url, unit, state } => {
            let ys: Vec<String> = added.iter().map(|p| p.y.clone().unwrap()).collect();
            assert_eq!(ys, vec!["d", "c", "b", "a"]);
            assert_eq!(deleted_ys, vec!["in"]);
            assert_eq!(mint_url, "https://m");
            assert_eq!(unit, "sat");
            assert_eq!(state, ProofState::Unspent);
        }
        _ => panic!("expected the proofs to be updated"),
    }
    let (f, a) = f.step(DenomEvent::ProofsUpdated);
    assert!(matches!(a, DenomAction::RecordTransaction(ref t) if t.status == TransactionStatus::Success));
    let (_, a) = f.step(DenomEvent::Recorded);
    match a {
        DenomAction::Finish(Ok(Some(send))) => assert_eq!(send.len(), 2),
        _ => panic!("expected proofs to send"),
    }
}

#[test]
fn denomination_swap_starts_only_from_a_prepared_plan() {
    let (f, a) = DenominationSwapFlow::start(
        Err(Error::InsufficientFunds),
        "https://m".to_string(),
        "sat".to_string(),
        Some(8),
        4,
        "token".to_string(),
        77,
    );
    assert_eq!(f.stage, DenomStage::Finished);
    assert!(matches!(a, DenomAction::Finish(Err(Error::InsufficientFunds))));

    let plan = DenominationPlan {
        keyset_id: "ks".to_string(),
        derived_secret_count: 3,
        fee: 1,
        send_amount: Some(8),
        change_amount: 7,
        proofs: vec![mk_proof(16, "in")],
    };
    let (f, a) = DenominationSwapFlow::start(
        Ok(plan),
        "https://m".to_string(),
        "sat".to_string(),
        Some(8),
        4,
        "token".to_string(),
        77,
    );
    assert!(matches!(a, DenomAction::PostSwap));
    assert_eq!(f.stage, DenomStage::PostSwap);
    assert_eq!(f.keyset_id, "ks");
    assert_eq!(f.derived, 3);
    let tx = f.tx.as_ref().unwrap();
    assert_eq!(tx.fee, 1);
    assert_eq!(tx.ys, vec!["in"]);
    assert_eq!(tx.timestamp, 77);
}

#[test]
fn denomination_swap_flow_reclaims_after_a_failed_request() {
    let (f, _) = denomination_swap(None);
    let (f, a) = f.step(DenomEvent::PostFailed(RequestFailure::Rejected(Error::TokenSpent)));
    match a {
        DenomAction::Reclaim { inputs, tx } => {
            assert_eq!(inputs.len(), 1);
            assert_eq!(tx.status, TransactionStatus::Failed);
        }
        _ => panic!("expected a reclaim"),
    }
    let (_, a) = f.step(DenomEvent::Reclaimed);
    assert!(matches!(a, DenomAction::Finish(Err(Error::TokenSpent))));
}

#[test]
fn denomination_swap_flow_without_keys() {
    let (f, _) = denomination_swap(None);
    let (f, _) = f.step(DenomEvent::Swapped);
    let (_, a) = f.step(DenomEvent::KeysFound(false));
    assert!(matches!(a, DenomAction::Finish(Err(Error::NoActiveKeyset))));
}

fn failed_tx() -> Transaction {
    let mut t = pending_tx("q");
    t.status = TransactionStatus::Failed;
    t
}

#[test]
fn reclaim_flow_swaps_back_unspent_proofs() {
    let (f, a) = ReclaimFlow::new(vec![mk_proof(1, "a"), mk_proof(2, "b")], failed_tx());
    assert!(matches!(a, ReclaimFlowAction::CheckState(ref ys) if ys == &vec!["a", "b"]));
    let (f, a) = f.step(ReclaimEvent::States(Ok(vec![ProofState::Spent, ProofState::Unspent])));
    assert!(matches!(a, ReclaimFlowAction::SwapBack(ref u) if u.len() == 1 && u[0].amount == 2));
    let (_, a) = f.step(ReclaimEvent::Swapped);
    assert!(matches!(a, ReclaimFlowAction::Finish(Ok(()))));
}

#[test]
fn reclaim_flow_records_when_state_is_unknown() {
    let (f, _) = ReclaimFlow::new(vec![mk_proof(1, "a")], failed_tx());
    let (f, a) = f.step(ReclaimEvent::States(Err(Error::Timeout)));
    assert!(matches!(a, ReclaimFlowAction::RecordTransaction(_)));
    let (_, a) = f.step(ReclaimEvent::Recorded);
    assert!(matches!(a, ReclaimFlowAction::Finish(Err(Error::Timeout))));
}

#[test]
fn reclaim_flow_with_nothing_unspent() {
    let (f, _) = ReclaimFlow::new(vec![mk_proof(1, "a")], failed_tx());
    let (_, a) = f.step(ReclaimEvent::States(Ok(vec![ProofState::Spent])));
    assert!(matches!(a, ReclaimFlowAction::Finish(Ok(()))));
}

#[test]
fn revert_flow_legacy_and_saga() {
    let mut legacy = pending_tx("q");
    legacy.direction = TransactionDirection::Outgoing;
    legacy.ys = vec!["a".to_string()];
    let (f, a) = RevertFlow::new();
    assert!(matches!(a, RevertAction::GetTransaction));
    let (f, a) = f.step(RevertEvent::Found(Some(legacy)));
    assert!(matches!(a, RevertAction::ListPendingSpent));
    let (f, a) = f.step(RevertEvent::PendingSpent(vec![mk_proof(1, "a"), mk_proof(2, "z")]));
    assert!(matches!(a, RevertAction::CheckSpent(ref ps) if ps.len() == 1 && ps[0].amount == 1));
    let (_, a) = f.step(RevertEvent::Checked);
    assert!(matches!(a, RevertAction::Finish(Ok(()))));

    let mut saga = pending_tx("q");
    saga.direction = TransactionDirection::Split;
    saga.saga_id = Some("s1".to_string());
    let (f, _) = RevertFlow::new();
    let (f, a) = f.step(RevertEvent::Found(Some(saga)));
    assert!(matches!(a, RevertAction::RevokeSaga(ref id) if id == "s1"));
    let (_, a) = f.step(RevertEvent::Revoked);
    assert!(matches!(a, RevertAction::Finish(Ok(()))));
}

#[test]
fn revert_flow_errors() {
    let (f, _) = RevertFlow::new();
    let (_, a) = f.step(RevertEvent::Found(None));
    assert!(matches!(a, RevertAction::Finish(Err(Error::TransactionNotFound))));
    let (f, _) = RevertFlow::new();
    let (_, a) = f.step(RevertEvent::Found(Some(pending_tx("q"))));
    assert!(matches!(a, RevertAction::Finish(Err(Error::InvalidTransactionDirection))));
}
