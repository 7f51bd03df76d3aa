//! Minting the ecash of a paid quote, as a machine of decisions: the caller
//! performs each action (a store query, a request to the mint, a step of the
//! blind-signature cryptography) and hands back what it gave as the next event.

use vstd::prelude::*;
use crate::error::Error;
use crate::mint::{
    complete_mint_transaction, dleq_verdict, fail_mint_transaction, first_quote_transaction, find_mint_transaction,
    mint_counter_increment, next_counter, require_quote, DleqCheck,
};
use crate::proofs::{all_points_known, require_points};
use crate::types::{copy_proofs, Amount, MintQuote, Proof, ProofState, RequestFailure, Transaction, TransactionStatus, sum_amounts};

verus! {

/// Where a mint stands.
#[derive(Debug, Clone, Copy, PartialEq, Eq, Structural)]
pub enum MintStage {
    CheckMint,
    FetchMintInfo,
    LoadQuote,
    LoadKeyset,
    LoadCounter,
    BuildSecrets,
    BuildRequest,
    ListPending,
    PostMint,
    LoadKeys,
    RecordFailure,
    CheckDleq,
    ConstructProofs,
    RemoveQuote,
    IncrementCounter,
    StoreProofs,
    Finished,
}

/// What the caller is asked to do next.
pub enum MintAction {
    /// Look the mint up in the store.
    GetMint,
    /// Fetch the mint's info from the mint.
    FetchMintInfo,
    /// Load the quote with this id from the store.
    GetQuote(String),
    /// Find the mint's active keyset.
    GetActiveKeyset,
    /// Load the counter of this keyset from the store.
    GetCounter(String),
    /// Derive the secrets for `amount` from the wallet's key, from `counter` on.
    BuildSecretsFromSeed { keyset_id: String, counter: u32, amount: Amount },
    /// Make secrets for `amount` that carry the spending conditions.
    BuildSecretsWithConditions { keyset_id: String, amount: Amount },
    /// Build the mint request, signed with the quote's secret key if it has one.
    BuildRequest { quote_id: String, sign_with: Option<String> },
    /// List the pending transactions.
    ListPending,
    /// Send the mint request, waiting a bounded time.
    PostMint,
    /// Store this transaction.
    RecordTransaction(Transaction),
    /// Load the keys of this keyset (from the store, or else from the mint).
    GetKeys(String),
    /// Check the DLEQ proof of the signature at this position.
    CheckDleq(usize),
    /// Unblind the signatures into proofs with the keys of this keyset.
    ConstructProofs(String),
    /// Remove the quote with this id from the store.
    RemoveQuote(String),
    /// Move the keyset's counter by `by`.
    IncrementCounter { keyset_id: String, by: u32 },
    /// Store these proofs as unspent.
    /// Store these proofs in the state `state`, as proofs of the mint
    /// `mint_url` in the unit `unit`.
    StoreProofs { proofs: Vec<Proof>, mint_url: String, unit: String, state: ProofState },
    /// The mint is over, with this result: the minted proofs and the settled transaction.
    Finish(Result<(Vec<Proof>, Transaction), Error>),
    /// The event does not belong to the stage: nothing happens.
    Unexpected,
}

/// What the caller's last action gave.
pub enum MintEvent {
    /// Whether the store holds the mint.
    MintFound(bool),
    MintInfoFetched,
    /// The quote, if the store holds it.
    Quote(Option<MintQuote>),
    ActiveKeyset(String),
    /// The keyset counter, if the keyset was used before.
    Counter(Option<u32>),
    /// The number of secrets made.
    SecretsBuilt(usize),
    RequestBuilt,
    /// The pending transactions, as listed.
    Pending(Vec<Transaction>),
    /// The mint signed: the number of signatures.
    Signed(usize),
    /// The mint request failed.
    PostFailed(RequestFailure),
    Recorded,
    /// The keys of the keyset are loaded.
    KeysLoaded,
    Dleq(DleqCheck),
    ProofsConstructed(Vec<Proof>),
    QuoteRemoved,
    CounterIncremented,
    ProofsStored,
    /// The action failed with this error.
    Failed(Error),
}

/// The state of a mint.
pub struct MintFlow {
    pub stage: MintStage,
    /// The mint that the wallet mints at.
    pub mint_url: String,
    pub quote_id: String,
    pub has_conditions: bool,
    /// When the mint happens.
    pub now: u64,
    pub quote: Option<MintQuote>,
    pub keyset_id: String,
    pub secret_count: usize,
    pub tx: Option<Transaction>,
    pub signature_count: usize,
    pub checked: usize,
    pub proofs: Option<Vec<Proof>>,
    pub failure: Option<Error>,
}

/// The stages at which the quote is known.
pub open spec fn quote_known(s: MintStage) -> bool {
    !(s == MintStage::CheckMint || s == MintStage::FetchMintInfo || s == MintStage::LoadQuote
        || s == MintStage::RecordFailure || s == MintStage::Finished)
}

/// The stages at which the pending transaction of the quote is known.
pub open spec fn tx_known(s: MintStage) -> bool {
    s == MintStage::PostMint || s == MintStage::LoadKeys || s == MintStage::CheckDleq || s == MintStage::ConstructProofs
        || s == MintStage::RemoveQuote || s == MintStage::IncrementCounter || s == MintStage::StoreProofs
}

/// The number of signatures whose DLEQ proof is checked: as many as there are
/// both signatures and secrets.
pub open spec fn pairs(f: MintFlow) -> int {
    if f.signature_count <= f.secret_count { f.signature_count as int } else { f.secret_count as int }
}

impl MintFlow {
    /// What each stage holds.
    pub open spec fn wf(self) -> bool {
        &&& quote_known(self.stage) ==> self.quote is Some
        &&& tx_known(self.stage) ==> self.tx is Some
        &&& (self.stage == MintStage::RemoveQuote || self.stage == MintStage::IncrementCounter
            || self.stage == MintStage::StoreProofs) ==> self.proofs is Some
        &&& self.stage == MintStage::RecordFailure ==> self.failure is Some
        &&& self.stage == MintStage::CheckDleq ==> self.checked < pairs(self)
        &&& self.stage == MintStage::LoadKeys ==> self.checked == 0
    }

    /// The mint of the quote `quote_id` at time `now`, with or without spending
    /// conditions, and its first action.
    pub fn new(mint_url: String, quote_id: String, has_conditions: bool, now: u64) -> (res: (MintFlow, MintAction))
        ensures
            res.0.wf(),
            res.0.stage == MintStage::CheckMint,
            res.0.mint_url == mint_url,
            res.0.quote_id == quote_id,
            res.0.has_conditions == has_conditions,
            res.0.now == now,
            res.1 is GetMint,
    {
        (MintFlow {
            stage: MintStage::CheckMint,
            mint_url,
            quote_id,
            has_conditions,
            now,
            quote: None,
            keyset_id: String::new(),
            secret_count: 0,
            tx: None,
            signature_count: 0,
            checked: 0,
            proofs: None,
            failure: None,
        }, MintAction::GetMint)
    }
}

/// The events that keep the wallet's arithmetic in range: no keyset counter at
/// its largest value (its successor would overflow).
pub open spec fn mint_event_allowed(f: MintFlow, ev: MintEvent) -> bool {
    (f.stage == MintStage::LoadCounter && ev is Counter && ev->Counter_0 is Some)
        ==> ev->Counter_0->0 < u32::MAX
}

/// Two actions that are the same, the proofs to store compared by content.
pub open spec fn same_mint_action(a: MintAction, b: MintAction) -> bool {
    match a {
        MintAction::StoreProofs { proofs, mint_url, unit, state } => {
            &&& b is StoreProofs
            &&& proofs@ == b->proofs@
            &&& mint_url == b->mint_url
            &&& unit == b->unit
            &&& state == b->state
        },
        _ => a == b,
    }
}

/// The step that stores the minted proofs: they all need a known point.
pub open spec fn store_step(f: MintFlow) -> (MintFlow, MintAction) {
    let ps = f.proofs->0;
    if all_points_known(ps@) {
        (MintFlow { stage: MintStage::StoreProofs, ..f },
         MintAction::StoreProofs { proofs: ps, mint_url: f.mint_url, unit: f.quote->0.unit, state: ProofState::Unspent })
    } else {
        (MintFlow { stage: MintStage::Finished, ..f }, MintAction::Finish(Err(Error::NoValidPoint)))
    }
}

/// The next state and action of a mint in state `f` on the event `ev`.
pub open spec fn mint_next(f: MintFlow, ev: MintEvent) -> (MintFlow, MintAction) {
    let finished = MintFlow { stage: MintStage::Finished, ..f };
    match ev {
        MintEvent::Failed(e) => if f.stage == MintStage::Finished {
            (f, MintAction::Unexpected)
        } else {
            (finished, MintAction::Finish(Err(e)))
        },
        MintEvent::MintFound(found) => if f.stage == MintStage::CheckMint {
            if found {
                (MintFlow { stage: MintStage::LoadQuote, ..f }, MintAction::GetQuote(f.quote_id))
            } else {
                (MintFlow { stage: MintStage::FetchMintInfo, ..f }, MintAction::FetchMintInfo)
            }
        } else {
            (f, MintAction::Unexpected)
        },
        MintEvent::MintInfoFetched => if f.stage == MintStage::FetchMintInfo {
            (MintFlow { stage: MintStage::LoadQuote, ..f }, MintAction::GetQuote(f.quote_id))
        } else {
            (f, MintAction::Unexpected)
        },
        MintEvent::Quote(q) => if f.stage == MintStage::LoadQuote {
            match q {
                None => (finished, MintAction::Finish(Err(Error::UnknownQuote))),
                Some(q) => (MintFlow { stage: MintStage::LoadKeyset, quote: Some(q), ..f }, MintAction::GetActiveKeyset),
            }
        } else {
            (f, MintAction::Unexpected)
        },
        MintEvent::ActiveKeyset(id) => if f.stage == MintStage::LoadKeyset {
            (MintFlow { stage: MintStage::LoadCounter, keyset_id: id, ..f }, MintAction::GetCounter(id))
        } else {
            (f, MintAction::Unexpected)
        },
        MintEvent::Counter(c) => if f.stage == MintStage::LoadCounter {
            let amount = f.quote->0.amount;
            (MintFlow { stage: MintStage::BuildSecrets, ..f },
             if f.has_conditions {
                MintAction::BuildSecretsWithConditions { keyset_id: f.keyset_id, amount }
             } else {
                MintAction::BuildSecretsFromSeed {
                    keyset_id: f.keyset_id,
                    counter: match c { Some(c) => (c + 1) as u32, None => 0 },
                    amount,
                }
             })
        } else {
            (f, MintAction::Unexpected)
        },
        MintEvent::SecretsBuilt(n) => if f.stage == MintStage::BuildSecrets {
            (MintFlow { stage: MintStage::BuildRequest, secret_count: n, ..f },
             MintAction::BuildRequest { quote_id: f.quote_id, sign_with: f.quote->0.secret_key })
        } else {
            (f, MintAction::Unexpected)
        },
        MintEvent::RequestBuilt => if f.stage == MintStage::BuildRequest {
            (MintFlow { stage: MintStage::ListPending, ..f }, MintAction::ListPending)
        } else {
            (f, MintAction::Unexpected)
        },
        MintEvent::Pending(txs) => if f.stage == MintStage::ListPending {
            match first_quote_transaction(txs@, f.quote_id@) {
                None => (finished, MintAction::Finish(Err(Error::TransactionNotFound))),
                Some(t) => (MintFlow { stage: MintStage::PostMint, tx: Some(t), ..f }, MintAction::PostMint),
            }
        } else {
            (f, MintAction::Unexpected)
        },
        MintEvent::Signed(k) => if f.stage == MintStage::PostMint {
            (MintFlow { stage: MintStage::LoadKeys, signature_count: k, checked: 0, ..f }, MintAction::GetKeys(f.keyset_id))
        } else {
            (f, MintAction::Unexpected)
        },
        MintEvent::KeysLoaded => if f.stage == MintStage::LoadKeys {
            if pairs(f) > 0 {
                (MintFlow { stage: MintStage::CheckDleq, ..f }, MintAction::CheckDleq(0))
            } else {
                (MintFlow { stage: MintStage::ConstructProofs, ..f }, MintAction::ConstructProofs(f.keyset_id))
            }
        } else {
            (f, MintAction::Unexpected)
        },
        MintEvent::PostFailed(failure) => if f.stage == MintStage::PostMint {
            let e = match failure {
                RequestFailure::Rejected(e) => e,
                RequestFailure::TimedOut => Error::Timeout,
            };
            (MintFlow { stage: MintStage::RecordFailure, tx: None, failure: Some(e), ..f },
             MintAction::RecordTransaction(Transaction { status: TransactionStatus::Failed, ..f.tx->0 }))
        } else {
            (f, MintAction::Unexpected)
        },
        MintEvent::Recorded => if f.stage == MintStage::RecordFailure {
            (MintFlow { stage: MintStage::Finished, failure: None, ..f }, MintAction::Finish(Err(f.failure->0)))
        } else {
            (f, MintAction::Unexpected)
        },
        MintEvent::Dleq(check) => if f.stage == MintStage::CheckDleq {
            match check {
                DleqCheck::KeyMissing => (finished, MintAction::Finish(Err(Error::AmountKey))),
                DleqCheck::Invalid => (finished, MintAction::Finish(Err(Error::CouldNotVerifyDleq))),
                _ => if f.checked + 1 < pairs(f) {
                    (MintFlow { checked: (f.checked + 1) as usize, ..f }, MintAction::CheckDleq((f.checked + 1) as usize))
                } else {
                    (MintFlow { stage: MintStage::ConstructProofs, checked: (f.checked + 1) as usize, ..f },
                     MintAction::ConstructProofs(f.keyset_id))
                },
            }
        } else {
            (f, MintAction::Unexpected)
        },
        MintEvent::ProofsConstructed(ps) => if f.stage == MintStage::ConstructProofs {
            (MintFlow { stage: MintStage::RemoveQuote, proofs: Some(ps), ..f }, MintAction::RemoveQuote(f.quote->0.id))
        } else {
            (f, MintAction::Unexpected)
        },
        MintEvent::QuoteRemoved => if f.stage == MintStage::RemoveQuote {
            if f.has_conditions {
                store_step(f)
            } else {
                (MintFlow { stage: MintStage::IncrementCounter, ..f },
                 MintAction::IncrementCounter { keyset_id: f.keyset_id, by: f.proofs->0@.len() as u32 })
            }
        } else {
            (f, MintAction::Unexpected)
        },
        MintEvent::CounterIncremented => if f.stage == MintStage::IncrementCounter {
            store_step(f)
        } else {
            (f, MintAction::Unexpected)
        },
        MintEvent::ProofsStored => if f.stage == MintStage::StoreProofs {
            let ps = f.proofs->0;
            let done = MintFlow { stage: MintStage::Finished, tx: None, proofs: None, ..f };
            if sum_amounts(ps@) > u64::MAX {
                (done, MintAction::Finish(Err(Error::AmountOverflow)))
            } else {
                (done, MintAction::Finish(Ok((ps, Transaction {
                    amount: sum_amounts(ps@) as Amount,
                    timestamp: f.now,
                    status: TransactionStatus::Success,
                    ..f.tx->0
                }))))
            }
        } else {
            (f, MintAction::Unexpected)
        },
    }
}

impl MintFlow {
    /// Moves the mint on by the event `ev`.
    pub fn step(self, ev: MintEvent) -> (res: (MintFlow, MintAction))
        requires
            self.wf(),
            mint_event_allowed(self, ev),
        ensures
            res.0 == mint_next(self, ev).0,
            same_mint_action(res.1, mint_next(self, ev).1),
            res.0.wf(),
    {
        let ghost f = self;
        match ev {
            MintEvent::Failed(e) => {
                if self.stage == MintStage::Finished {
                    (self, MintAction::Unexpected)
                } else {
                    (MintFlow { stage: MintStage::Finished, ..self }, MintAction::Finish(Err(e)))
                }
            },
            MintEvent::MintFound(found) => {
                if self.stage != MintStage::CheckMint {
                    return (self, MintAction::Unexpected);
                }
                if found {
                    let id = self.quote_id.clone();
                    (MintFlow { stage: MintStage::LoadQuote, ..self }, MintAction::GetQuote(id))
                } else {
                    (MintFlow { stage: MintStage::FetchMintInfo, ..self }, MintAction::FetchMintInfo)
                }
            },
            MintEvent::MintInfoFetched => {
                if self.stage != MintStage::FetchMintInfo {
                    return (self, MintAction::Unexpected);
                }
                let id = self.quote_id.clone();
                (MintFlow { stage: MintStage::LoadQuote, ..self }, MintAction::GetQuote(id))
            },
            MintEvent::Quote(q) => {
                if self.stage != MintStage::LoadQuote {
                    return (self, MintAction::Unexpected);
                }
                match require_quote(q) {
                    Err(e) => (MintFlow { stage: MintStage::Finished, ..self }, MintAction::Finish(Err(e))),
                    Ok(q) => (MintFlow { stage: MintStage::LoadKeyset, quote: Some(q), ..self }, MintAction::GetActiveKeyset),
                }
            },
            MintEvent::ActiveKeyset(id) => {
                if self.stage != MintStage::LoadKeyset {
                    return (self, MintAction::Unexpected);
                }
                let id2 = id.clone();
                (MintFlow { stage: MintStage::LoadCounter, keyset_id: id, ..self }, MintAction::GetCounter(id2))
            },
            MintEvent::Counter(c) => {
                if self.stage != MintStage::LoadCounter {
                    return (self, MintAction::Unexpected);
                }
                let amount = match &self.quote {
                    Some(q) => q.amount,
                    None => 0,
                };
                let keyset_id = self.keyset_id.clone();
                let action = if self.has_conditions {
                    MintAction::BuildSecretsWithConditions { keyset_id, amount }
                } else {
                    MintAction::BuildSecretsFromSeed { keyset_id, counter: next_counter(c), amount }
                };
                (MintFlow { stage: MintStage::BuildSecrets, ..self }, action)
            },
            MintEvent::SecretsBuilt(n) => {
                if self.stage != MintStage::BuildSecrets {
                    return (self, MintAction::Unexpected);
                }
                let sign_with = match &self.quote {
                    Some(q) => match &q.secret_key {
                        Some(k) => Some(k.clone()),
                        None => None,
                    },
                    None => None,
                };
                let quote_id = self.quote_id.clone();
                (MintFlow { stage: MintStage::BuildRequest, secret_count: n, ..self },
                 MintAction::BuildRequest { quote_id, sign_with })
            },
            MintEvent::RequestBuilt => {
                if self.stage != MintStage::BuildRequest {
                    return (self, MintAction::Unexpected);
                }
                (MintFlow { stage: MintStage::ListPending, ..self }, MintAction::ListPending)
            },
            MintEvent::Pending(txs) => {
                if self.stage != MintStage::ListPending {
                    return (self, MintAction::Unexpected);
                }
                match find_mint_transaction(txs, &self.quote_id) {
                    Err(e) => (MintFlow { stage: MintStage::Finished, ..self }, MintAction::Finish(Err(e))),
                    Ok(t) => (MintFlow { stage: MintStage::PostMint, tx: Some(t), ..self }, MintAction::PostMint),
                }
            },
            MintEvent::Signed(k) => {
                if self.stage != MintStage::PostMint {
                    return (self, MintAction::Unexpected);
                }
                let keyset_id = self.keyset_id.clone();
                (MintFlow { stage: MintStage::LoadKeys, signature_count: k, checked: 0, ..self }, MintAction::GetKeys(keyset_id))
            },
            MintEvent::KeysLoaded => {
                if self.stage != MintStage::LoadKeys {
                    return (self, MintAction::Unexpected);
                }
                let paired = if self.signature_count <= self.secret_count { self.signature_count } else { self.secret_count };
                if paired > 0 {
                    (MintFlow { stage: MintStage::CheckDleq, ..self }, MintAction::CheckDleq(0))
                } else {
                    let keyset_id = self.keyset_id.clone();
                    (MintFlow { stage: MintStage::ConstructProofs, ..self }, MintAction::ConstructProofs(keyset_id))
                }
            },
            MintEvent::PostFailed(failure) => {
                if self.stage != MintStage::PostMint {
                    return (self, MintAction::Unexpected);
                }
                let tx = match self.tx {
                    Some(t) => t,
                    None => { proof { assert(false); } return (MintFlow { tx: None, ..self }, MintAction::Unexpected) },
                };
                let (tx, e) = fail_mint_transaction(tx, failure);
                (MintFlow { stage: MintStage::RecordFailure, tx: None, failure: Some(e), ..self },
                 MintAction::RecordTransaction(tx))
            },
            MintEvent::Recorded => {
                if self.stage != MintStage::RecordFailure {
                    return (self, MintAction::Unexpected);
                }
                match self.failure {
                    Some(e) => (MintFlow { stage: MintStage::Finished, failure: None, ..self }, MintAction::Finish(Err(e))),
                    None => { proof { assert(false); } (MintFlow { failure: None, ..self }, MintAction::Unexpected) },
                }
            },
            MintEvent::Dleq(check) => {
                if self.stage != MintStage::CheckDleq {
                    return (self, MintAction::Unexpected);
                }
                match dleq_verdict(check) {
                    Err(e) => (MintFlow { stage: MintStage::Finished, ..self }, MintAction::Finish(Err(e))),
                    Ok(()) => {
                        let paired = if self.signature_count <= self.secret_count { self.signature_count } else { self.secret_count };
                        let next = self.checked + 1;
                        if next < paired {
                            (MintFlow { checked: next, ..self }, MintAction::CheckDleq(next))
                        } else {
                            let keyset_id = self.keyset_id.clone();
                            (MintFlow { stage: MintStage::ConstructProofs, checked: next, ..self }, MintAction::ConstructProofs(keyset_id))
                        }
                    },
                }
            },
            MintEvent::ProofsConstructed(ps) => {
                if self.stage != MintStage::ConstructProofs {
                    return (self, MintAction::Unexpected);
                }
                let id = match &self.quote {
                    Some(q) => q.id.clone(),
                    None => String::new(),
                };
                (MintFlow { stage: MintStage::RemoveQuote, proofs: Some(ps), ..self }, MintAction::RemoveQuote(id))
            },
            MintEvent::QuoteRemoved => {
                if self.stage != MintStage::RemoveQuote {
                    return (self, MintAction::Unexpected);
                }
                let n = match &self.proofs {
                    Some(ps) => ps.len(),
                    None => 0,
                };
                match mint_counter_increment(self.has_conditions, n) {
                    None => self.store(),
                    Some(by) => {
                        let keyset_id = self.keyset_id.clone();
                        (MintFlow { stage: MintStage::IncrementCounter, ..self }, MintAction::IncrementCounter { keyset_id, by })
                    },
                }
            },
            MintEvent::CounterIncremented => {
                if self.stage != MintStage::IncrementCounter {
                    return (self, MintAction::Unexpected);
                }
                self.store()
            },
            MintEvent::ProofsStored => {
                if self.stage != MintStage::StoreProofs {
                    return (self, MintAction::Unexpected);
                }
                let tx = match self.tx {
                    Some(t) => t,
                    None => { proof { assert(false); } return (MintFlow { tx: None, ..self }, MintAction::Unexpected) },
                };
                let ps = match self.proofs {
                    Some(ps) => ps,
                    None => { proof { assert(false); } return (MintFlow { tx: None, proofs: None, ..self }, MintAction::Unexpected) },
                };
                let done = MintFlow { stage: MintStage::Finished, tx: None, proofs: None, ..self };
                match complete_mint_transaction(tx, &ps, self.now) {
                    Err(e) => (done, MintAction::Finish(Err(e))),
                    Ok(tx) => (done, MintAction::Finish(Ok((ps, tx)))),
                }
            },
        }
    }

    fn store(self) -> (res: (MintFlow, MintAction))
        requires
            self.proofs is Some,
            self.quote is Some,
            self.tx is Some,
        ensures
            res.0 == store_step(self).0,
            same_mint_action(res.1, store_step(self).1),
            res.0.wf(),
    {
        let (ok, copy) = match &self.proofs {
            Some(ps) => (require_points(ps).is_ok(), copy_proofs(ps)),
            None => { proof { assert(false); } (false, Vec::new()) },
        };
        if !ok {
            return (MintFlow { stage: MintStage::Finished, ..self }, MintAction::Finish(Err(Error::NoValidPoint)));
        }
        let mint_url = self.mint_url.clone();
        let unit = match &self.quote {
            Some(q) => q.unit.clone(),
            None => { proof { assert(false); } String::new() },
        };
        (MintFlow { stage: MintStage::StoreProofs, ..self },
         MintAction::StoreProofs { proofs: copy, mint_url, unit, state: ProofState::Unspent })
    }
}

/// Law: a mint that ends well returns exactly the proofs that it stored (as
/// unspent proofs of the wallet's mint, in the unit of the quote), and settles
/// its transaction: marked successful, at the time of the mint, for the
/// total of those proofs. Where that total overflows, the mint ends in
/// `AmountOverflow` after storing them.
pub proof fn law_mint_settles_stored_proofs(f: MintFlow)
    requires
        f.proofs is Some,
        f.quote is Some,
        f.tx is Some,
        all_points_known(f.proofs->0@),
    ensures
        ({
            let (g, a) = store_step(f);
            let (h, b) = mint_next(g, MintEvent::ProofsStored);
            &&& a is StoreProofs
            &&& a->proofs == f.proofs->0
            &&& a->mint_url == f.mint_url
            &&& a->unit == f.quote->0.unit
            &&& a->state == ProofState::Unspent
            &&& sum_amounts(f.proofs->0@) <= u64::MAX ==> {
                &&& b is Finish
                &&& b->Finish_0 is Ok
                &&& b->Finish_0->Ok_0.0 == f.proofs->0
                &&& b->Finish_0->Ok_0.1 == (Transaction {
                    amount: sum_amounts(f.proofs->0@) as Amount,
                    timestamp: f.now,
                    status: TransactionStatus::Success,
                    ..f.tx->0
                })
            }
            &&& sum_amounts(f.proofs->0@) > u64::MAX ==> b == MintAction::Finish(Err(Error::AmountOverflow))
            &&& h.stage == MintStage::Finished
        }),
{
}

/// Law: when the mint request fails, the transaction of the quote is recorded
/// as failed, and then the mint ends in the request's error (`Timeout` where
/// the mint did not answer in time).
pub proof fn law_failed_mint_request_is_recorded(f: MintFlow, failure: RequestFailure)
    requires
        f.stage == MintStage::PostMint,
        f.tx is Some,
    ensures
        ({
            let (g, a) = mint_next(f, MintEvent::PostFailed(failure));
            let (h, b) = mint_next(g, MintEvent::Recorded);
            &&& a == MintAction::RecordTransaction(Transaction { status: TransactionStatus::Failed, ..f.tx->0 })
            &&& h.stage == MintStage::Finished
            &&& b == MintAction::Finish(Err(match failure {
                RequestFailure::Rejected(e) => e,
                RequestFailure::TimedOut => Error::Timeout,
            }))
        }),
{
}

/// Law: the keyset counter moves only where the secrets came from the wallet's
/// seed, and then by the number of proofs minted.
pub proof fn law_mint_counter_moves_by_minted_proofs(f: MintFlow)
    requires
        f.stage == MintStage::RemoveQuote,
        f.proofs is Some,
    ensures
        ({
            let a = mint_next(f, MintEvent::QuoteRemoved).1;
            &&& !f.has_conditions ==> a == (MintAction::IncrementCounter { keyset_id: f.keyset_id, by: f.proofs->0@.len() as u32 })
            &&& f.has_conditions ==> !(a is IncrementCounter)
        }),
{
}

/// Law: the transaction that a mint settles is the first pending incoming
/// lightning transaction recorded for its quote; with none, the mint ends in
/// `TransactionNotFound` before anything is sent to the mint.
pub proof fn law_mint_settles_the_quote_transaction(f: MintFlow, pending: Vec<Transaction>)
    requires
        f.stage == MintStage::ListPending,
    ensures
        ({
            let (g, a) = mint_next(f, MintEvent::Pending(pending));
            match first_quote_transaction(pending@, f.quote_id@) {
                Some(t) => g.tx == Some(t) && a is PostMint,
                None => a == MintAction::Finish(Err(Error::TransactionNotFound)),
            }
        }),
{
}

/// Law: once the mint signs, the keys of the active keyset are loaded before
/// any DLEQ proof is checked; where loading them fails, the mint ends in that
/// error, and no signature is checked.
pub proof fn law_mint_loads_keys_before_checking(f: MintFlow, k: usize, e: Error)
    requires
        f.stage == MintStage::PostMint,
    ensures
        ({
            let (g, a) = mint_next(f, MintEvent::Signed(k));
            let (h, b) = mint_next(g, MintEvent::Failed(e));
            &&& g.stage == MintStage::LoadKeys
            &&& a == MintAction::GetKeys(f.keyset_id)
            &&& h.stage == MintStage::Finished
            &&& b == MintAction::Finish(Err(e))
        }),
{
}

/// Law: the secrets of a mint without spending conditions are derived from the
/// keyset counter that follows the stored one (from 0 where the keyset was
/// never used), for the quote's amount; with conditions they are made for the
/// quote's amount with the conditions. A quote that the store does not hold
/// ends the mint in `UnknownQuote`.
pub proof fn law_mint_derives_from_the_next_counter(f: MintFlow, c: Option<u32>, q: Option<MintQuote>)
    requires
        f.wf(),
    ensures
        f.stage == MintStage::LoadCounter ==> {
            let a = mint_next(f, MintEvent::Counter(c)).1;
            &&& !f.has_conditions ==> a == (MintAction::BuildSecretsFromSeed {
                keyset_id: f.keyset_id,
                counter: match c { Some(k) => (k + 1) as u32, None => 0 },
                amount: f.quote->0.amount,
            })
            &&& f.has_conditions ==> a == (MintAction::BuildSecretsWithConditions {
                keyset_id: f.keyset_id,
                amount: f.quote->0.amount,
            })
        },
        f.stage == MintStage::LoadQuote ==> {
            let (g, a) = mint_next(f, MintEvent::Quote(q));
            &&& q is None ==> a == MintAction::Finish(Err(Error::UnknownQuote))
            &&& q is Some ==> g.quote == q && a is GetActiveKeyset
        },
{
}

/// Law: each signature's DLEQ proof is checked in turn: a missing key ends the
/// mint in `AmountKey`, a proof that does not verify in `CouldNotVerifyDleq`;
/// a valid proof, or none, moves on to the next signature, and after the last
/// one to unblinding the signatures.
pub proof fn law_mint_checks_each_dleq_proof(f: MintFlow, check: DleqCheck)
    requires
        f.wf(),
        f.stage == MintStage::CheckDleq,
    ensures
        ({
            let (g, a) = mint_next(f, MintEvent::Dleq(check));
            &&& check == DleqCheck::KeyMissing ==> a == MintAction::Finish(Err(Error::AmountKey))
            &&& check == DleqCheck::Invalid ==> a == MintAction::Finish(Err(Error::CouldNotVerifyDleq))
            &&& (check == DleqCheck::Valid || check == DleqCheck::MissingProof) ==> {
                &&& f.checked + 1 < pairs(f) ==> a == MintAction::CheckDleq((f.checked + 1) as usize)
                &&& f.checked + 1 >= pairs(f) ==> a == MintAction::ConstructProofs(f.keyset_id)
            }
        }),
{
}

} // verus!
