//! Asking for mint quotes and following them, as machines of decisions: the
//! caller performs each action and hands back what it gave as the next event.

use vstd::prelude::*;
use crate::error::Error;
use crate::mint::{
    check_description_support, description_check, mint_quote_transaction, new_mint_quote, quote_action,
    quote_id_key, MintQuoteAction,
};
use crate::proofs::total_amount;
use crate::types::{
    copy_quote, copy_transaction, same_transaction, Amount, MintInfo, MintQuote, MintQuoteResponse, MintQuoteState,
    Proof, Transaction, TransactionDirection, TransactionKind, TransactionStatus, sum_amounts,
};

verus! {

// ---------------------------------------------------------------------------
// Asking for a mint quote
// ---------------------------------------------------------------------------

#[derive(Debug, Clone, Copy, PartialEq, Eq, Structural)]
pub enum QuoteStage {
    CheckMint,
    NewKey,
    PostQuote,
    StoreQuote,
    RecordTransaction,
    Finished,
}

pub enum QuoteAction {
    /// Look the mint up in the store.
    GetMint,
    /// Make a fresh secret key.
    NewSecretKey,
    /// Ask the mint for a bolt11 quote for `amount` in `unit`, locked to `pubkey`.
    PostQuote { amount: Amount, unit: String, description: Option<String>, pubkey: String },
    /// Store this quote.
    StoreQuote(MintQuote),
    /// Store this transaction.
    RecordTransaction(Transaction),
    /// Asking is over: the stored quote and its transaction.
    Finish(Result<(MintQuote, Transaction), Error>),
    /// The event does not belong to the stage: nothing happens.
    Unexpected,
}

pub enum QuoteEvent {
    /// The mint, as the store holds it.
    Mint(Option<MintInfo>),
    /// The fresh secret key and its public key.
    SecretKey { secret: String, pubkey: String },
    /// The mint's answer.
    Quoted(MintQuoteResponse),
    QuoteStored,
    Recorded,
    /// The action failed with this error.
    Failed(Error),
}

/// The state of a request for a mint quote.
pub struct MintQuoteFlow {
    pub stage: QuoteStage,
    pub mint_url: String,
    pub unit: String,
    pub amount: Amount,
    pub description: Option<String>,
    pub now: u64,
    pub secret_key: Option<String>,
    pub response: Option<MintQuoteResponse>,
    pub quote: Option<MintQuote>,
    pub tx: Option<Transaction>,
}

/// The quote that the wallet keeps for the answer `r`.
pub open spec fn quote_for(f: MintQuoteFlow, r: MintQuoteResponse, secret: String) -> MintQuote {
    MintQuote {
        mint_url: f.mint_url,
        id: r.quote,
        amount: f.amount,
        unit: f.unit,
        request: r.request,
        state: r.state,
        expiry: match r.expiry {
            Some(e) => e,
            None => 0,
        },
        secret_key: Some(secret),
    }
}

/// The transaction that the wallet records for the answer `r`: a pending
/// incoming lightning payment of the quote's amount.
pub open spec fn quote_transaction_for(t: Transaction, f: MintQuoteFlow, r: MintQuoteResponse) -> bool {
    &&& t.mint_url == f.mint_url
    &&& t.direction == TransactionDirection::Incoming
    &&& t.kind == TransactionKind::LN
    &&& t.amount == f.amount
    &&& t.fee == 0
    &&& t.unit == f.unit
    &&& t.ys@ == seq![r.pubkey->0]
    &&& t.token == r.request
    &&& t.status == TransactionStatus::Pending
    &&& t.timestamp == f.now
    &&& t.memo is None
    &&& t.metadata@.len() == 1
    &&& t.metadata@[0].0@ == quote_id_key()
    &&& t.metadata@[0].1 == r.quote
    &&& t.quote_id is None
    &&& t.payment_request is None
    &&& t.payment_proof is None
    &&& t.payment_method is None
    &&& t.saga_id is None
}

impl MintQuoteFlow {
    pub open spec fn wf(self) -> bool {
        &&& self.stage == QuoteStage::PostQuote ==> self.secret_key is Some
        &&& self.stage == QuoteStage::StoreQuote ==> self.response is Some && self.quote is Some
        &&& self.stage == QuoteStage::RecordTransaction ==> self.quote is Some && self.tx is Some
    }

    /// A request for a quote for `amount` in `unit` at the mint `mint_url`, at
    /// time `now`; with a description, the mint must support descriptions.
    pub fn new(mint_url: String, unit: String, amount: Amount, description: Option<String>, now: u64)
        -> (res: (MintQuoteFlow, QuoteAction))
        ensures
            res.0.wf(),
            res.0.mint_url == mint_url,
            res.0.unit == unit,
            res.0.amount == amount,
            res.0.description == description,
            res.0.now == now,
            description is Some ==> res.0.stage == QuoteStage::CheckMint && res.1 is GetMint,
            description is None ==> res.0.stage == QuoteStage::NewKey && res.1 is NewSecretKey,
    {
        let stage = if description.is_some() { QuoteStage::CheckMint } else { QuoteStage::NewKey };
        let action = if description.is_some() { QuoteAction::GetMint } else { QuoteAction::NewSecretKey };
        (MintQuoteFlow {
            stage,
            mint_url,
            unit,
            amount,
            description,
            now,
            secret_key: None,
            response: None,
            quote: None,
            tx: None,
        }, action)
    }
}

/// What a request for a quote does on each event.
pub open spec fn quote_step(f: MintQuoteFlow, ev: QuoteEvent, g: MintQuoteFlow, a: QuoteAction) -> bool {
    match ev {
        QuoteEvent::Failed(e) => if f.stage == QuoteStage::Finished {
            g == f && a is Unexpected
        } else {
            g.stage == QuoteStage::Finished && a == QuoteAction::Finish(Err(e))
        },
        QuoteEvent::Mint(m) => if f.stage == QuoteStage::CheckMint {
            match description_check(true, m, f.unit@) {
                Err(e) => g.stage == QuoteStage::Finished && a == QuoteAction::Finish(Err(e)),
                Ok(()) => g == (MintQuoteFlow { stage: QuoteStage::NewKey, ..f }) && a is NewSecretKey,
            }
        } else {
            g == f && a is Unexpected
        },
        QuoteEvent::SecretKey { secret, pubkey } => if f.stage == QuoteStage::NewKey {
            &&& g == (MintQuoteFlow { stage: QuoteStage::PostQuote, secret_key: Some(secret), description: None, ..f })
            &&& a == (QuoteAction::PostQuote { amount: f.amount, unit: f.unit, description: f.description, pubkey })
        } else {
            g == f && a is Unexpected
        },
        QuoteEvent::Quoted(r) => if f.stage == QuoteStage::PostQuote {
            let q = quote_for(f, r, f.secret_key->0);
            &&& g == (MintQuoteFlow { stage: QuoteStage::StoreQuote, secret_key: None, response: Some(r), quote: Some(q), ..f })
            &&& a == QuoteAction::StoreQuote(q)
        } else {
            g == f && a is Unexpected
        },
        QuoteEvent::QuoteStored => if f.stage == QuoteStage::StoreQuote {
            &&& g.stage == QuoteStage::RecordTransaction
            &&& g.quote == f.quote
            &&& g.response is None
            &&& g.tx is Some
            &&& quote_transaction_for(g.tx->0, f, f.response->0)
            &&& a is RecordTransaction
            &&& same_transaction(a->RecordTransaction_0, g.tx->0)
        } else {
            g == f && a is Unexpected
        },
        QuoteEvent::Recorded => if f.stage == QuoteStage::RecordTransaction {
            &&& g.stage == QuoteStage::Finished
            &&& a == QuoteAction::Finish(Ok((f.quote->0, f.tx->0)))
        } else {
            g == f && a is Unexpected
        },
    }
}

/// The answers that the wallet can go on from: none is a quote without the
/// public key that locks it.
pub open spec fn quote_event_allowed(f: MintQuoteFlow, ev: QuoteEvent) -> bool {
    (f.stage == QuoteStage::StoreQuote && ev is QuoteStored) ==> f.response->0.pubkey is Some
}

impl MintQuoteFlow {
    /// Moves the request on by the event `ev`.
    pub fn step(self, ev: QuoteEvent) -> (res: (MintQuoteFlow, QuoteAction))
        requires
            self.wf(),
            quote_event_allowed(self, ev),
        ensures
            quote_step(self, ev, res.0, res.1),
            res.0.wf(),
    {
        match ev {
            QuoteEvent::Failed(e) => {
                if self.stage == QuoteStage::Finished {
                    (self, QuoteAction::Unexpected)
                } else {
                    (MintQuoteFlow { stage: QuoteStage::Finished, ..self }, QuoteAction::Finish(Err(e)))
                }
            },
            QuoteEvent::Mint(m) => {
                if self.stage != QuoteStage::CheckMint {
                    return (self, QuoteAction::Unexpected);
                }
                match check_description_support(true, m, &self.unit) {
                    Err(e) => (MintQuoteFlow { stage: QuoteStage::Finished, ..self }, QuoteAction::Finish(Err(e))),
                    Ok(()) => (MintQuoteFlow { stage: QuoteStage::NewKey, ..self }, QuoteAction::NewSecretKey),
                }
            },
            QuoteEvent::SecretKey { secret, pubkey } => {
                if self.stage != QuoteStage::NewKey {
                    return (self, QuoteAction::Unexpected);
                }
                let unit = self.unit.clone();
                let amount = self.amount;
                let description = self.description;
                (MintQuoteFlow { stage: QuoteStage::PostQuote, secret_key: Some(secret), description: None, ..self },
                 QuoteAction::PostQuote { amount, unit, description, pubkey })
            },
            QuoteEvent::Quoted(r) => {
                if self.stage != QuoteStage::PostQuote {
                    return (self, QuoteAction::Unexpected);
                }
                let secret = match self.secret_key {
                    Some(s) => s,
                    None => { proof { assert(false); } return (MintQuoteFlow { secret_key: None, ..self }, QuoteAction::Unexpected) },
                };
                let q = new_mint_quote(self.mint_url.clone(), self.amount, self.unit.clone(), &r, secret);
                let q2 = copy_quote(&q);
                (MintQuoteFlow { stage: QuoteStage::StoreQuote, secret_key: None, response: Some(r), quote: Some(q), ..self },
                 QuoteAction::StoreQuote(q2))
            },
            QuoteEvent::QuoteStored => {
                if self.stage != QuoteStage::StoreQuote {
                    return (self, QuoteAction::Unexpected);
                }
                let ghost f = self;
                let r = match self.response {
                    Some(r) => r,
                    None => { proof { assert(false); } return (MintQuoteFlow { response: None, ..self }, QuoteAction::Unexpected) },
                };
                let tx = mint_quote_transaction(self.mint_url.clone(), self.amount, self.unit.clone(), r, self.now);
                let copy = copy_transaction(&tx);
                (MintQuoteFlow { stage: QuoteStage::RecordTransaction, response: None, tx: Some(tx), ..self },
                 QuoteAction::RecordTransaction(copy))
            },
            QuoteEvent::Recorded => {
                if self.stage != QuoteStage::RecordTransaction {
                    return (self, QuoteAction::Unexpected);
                }
                match (self.quote, self.tx) {
                    (Some(q), Some(t)) => (MintQuoteFlow { stage: QuoteStage::Finished, quote: None, tx: None, ..self },
                        QuoteAction::Finish(Ok((q, t)))),
                    _ => { proof { assert(false); } (MintQuoteFlow { stage: QuoteStage::Finished, quote: None, tx: None, ..self }, QuoteAction::Unexpected) },
                }
            },
        }
    }
}

/// Law: the request for a quote asks the mint for exactly what the wallet was
/// asked for: the amount, the unit and the description (a description checked
/// against the mint first), locked to the public key of the fresh secret key.
/// Checking the mint changes none of them.
pub proof fn law_quote_request_carries_what_was_asked(
    f: MintQuoteFlow,
    m: Option<MintInfo>,
    g1: MintQuoteFlow,
    a1: QuoteAction,
    secret: String,
    pubkey: String,
    g2: MintQuoteFlow,
    a2: QuoteAction,
)
    requires
        f.stage == QuoteStage::NewKey ==> quote_step(f, QuoteEvent::SecretKey { secret, pubkey }, g2, a2),
        f.stage == QuoteStage::CheckMint ==> {
            &&& quote_step(f, QuoteEvent::Mint(m), g1, a1)
            &&& quote_step(g1, QuoteEvent::SecretKey { secret, pubkey }, g2, a2)
        },
    ensures
        f.stage == QuoteStage::NewKey ==> {
            &&& a2 == (QuoteAction::PostQuote { amount: f.amount, unit: f.unit, description: f.description, pubkey })
            &&& g2.stage == QuoteStage::PostQuote
            &&& g2.secret_key == Some(secret)
        },
        f.stage == QuoteStage::CheckMint ==> {
            &&& description_check(true, m, f.unit@) is Err ==> a1 == QuoteAction::Finish(Err(description_check(true, m, f.unit@)->Err_0))
            &&& description_check(true, m, f.unit@) is Ok ==> {
                &&& a1 is NewSecretKey
                &&& a2 == (QuoteAction::PostQuote { amount: f.amount, unit: f.unit, description: f.description, pubkey })
            }
        },
{
}

// ---------------------------------------------------------------------------
// The state of one quote
// ---------------------------------------------------------------------------

#[derive(Debug, Clone, Copy, PartialEq, Eq, Structural)]
pub enum QuoteStateStage {
    AskMint,
    LoadQuote,
    StoreQuote,
    Finished,
}

pub enum QuoteStateAction {
    /// Ask the mint for the state of the quote with this id.
    GetStatus(String),
    /// Load the quote with this id from the store.
    GetQuote(String),
    /// Store this quote.
    StoreQuote(MintQuote),
    /// Done: the mint's answer.
    Finish(Result<MintQuoteResponse, Error>),
    /// The event does not belong to the stage: nothing happens.
    Unexpected,
}

pub enum QuoteStateEvent {
    /// The mint's answer.
    Status(MintQuoteResponse),
    /// The quote, if the store holds it.
    Quote(Option<MintQuote>),
    QuoteStored,
    /// The action failed with this error.
    Failed(Error),
}

/// Following the state of one quote: the mint's answer is returned, and the
/// stored quote, if there is one, takes the state that the mint reports.
pub struct QuoteStateFlow {
    pub stage: QuoteStateStage,
    pub quote_id: String,
    pub response: Option<MintQuoteResponse>,
}

impl QuoteStateFlow {
    pub open spec fn wf(self) -> bool {
        (self.stage == QuoteStateStage::LoadQuote || self.stage == QuoteStateStage::StoreQuote) ==> self.response is Some
    }

    /// Following the quote `quote_id`, and the first action.
    pub fn new(quote_id: String) -> (res: (QuoteStateFlow, QuoteStateAction))
        ensures
            res.0.wf(),
            res.0 == (QuoteStateFlow { stage: QuoteStateStage::AskMint, quote_id, response: None }),
            res.1 == QuoteStateAction::GetStatus(quote_id),
    {
        let id = quote_id.clone();
        (QuoteStateFlow { stage: QuoteStateStage::AskMint, quote_id, response: None }, QuoteStateAction::GetStatus(id))
    }
}

/// What following a quote does on each event.
pub open spec fn quote_state_next(f: QuoteStateFlow, ev: QuoteStateEvent) -> (QuoteStateFlow, QuoteStateAction) {
    let finished = QuoteStateFlow { stage: QuoteStateStage::Finished, response: None, ..f };
    match ev {
        QuoteStateEvent::Failed(e) => if f.stage == QuoteStateStage::Finished {
            (f, QuoteStateAction::Unexpected)
        } else {
            (finished, QuoteStateAction::Finish(Err(e)))
        },
        QuoteStateEvent::Status(r) => if f.stage == QuoteStateStage::AskMint {
            (QuoteStateFlow { stage: QuoteStateStage::LoadQuote, response: Some(r), ..f }, QuoteStateAction::GetQuote(f.quote_id))
        } else {
            (f, QuoteStateAction::Unexpected)
        },
        QuoteStateEvent::Quote(stored) => if f.stage == QuoteStateStage::LoadQuote {
            match stored {
                Some(q) => (QuoteStateFlow { stage: QuoteStateStage::StoreQuote, ..f },
                    QuoteStateAction::StoreQuote(MintQuote { state: f.response->0.state, ..q })),
                None => (finished, QuoteStateAction::Finish(Ok(f.response->0))),
            }
        } else {
            (f, QuoteStateAction::Unexpected)
        },
        QuoteStateEvent::QuoteStored => if f.stage == QuoteStateStage::StoreQuote {
            (finished, QuoteStateAction::Finish(Ok(f.response->0)))
        } else {
            (f, QuoteStateAction::Unexpected)
        },
    }
}

impl QuoteStateFlow {
    /// Moves the following on by the event `ev`.
    pub fn step(self, ev: QuoteStateEvent) -> (res: (QuoteStateFlow, QuoteStateAction))
        requires
            self.wf(),
        ensures
            res == quote_state_next(self, ev),
            res.0.wf(),
    {
        match ev {
            QuoteStateEvent::Failed(e) => {
                if self.stage == QuoteStateStage::Finished {
                    (self, QuoteStateAction::Unexpected)
                } else {
                    (QuoteStateFlow { stage: QuoteStateStage::Finished, response: None, ..self }, QuoteStateAction::Finish(Err(e)))
                }
            },
            QuoteStateEvent::Status(r) => {
                if self.stage != QuoteStateStage::AskMint {
                    return (self, QuoteStateAction::Unexpected);
                }
                let id = self.quote_id.clone();
                (QuoteStateFlow { stage: QuoteStateStage::LoadQuote, response: Some(r), ..self }, QuoteStateAction::GetQuote(id))
            },
            QuoteStateEvent::Quote(stored) => {
                if self.stage != QuoteStateStage::LoadQuote {
                    return (self, QuoteStateAction::Unexpected);
                }
                let state = match &self.response {
                    Some(r) => r.state,
                    None => MintQuoteState::Unpaid,
                };
                match crate::mint::refresh_quote_state(stored, state) {
                    Some(q) => (QuoteStateFlow { stage: QuoteStateStage::StoreQuote, ..self }, QuoteStateAction::StoreQuote(q)),
                    None => match self.response {
                        Some(r) => (QuoteStateFlow { stage: QuoteStateStage::Finished, response: None, ..self },
                            QuoteStateAction::Finish(Ok(r))),
                        None => { proof { assert(false); } (QuoteStateFlow { response: None, ..self }, QuoteStateAction::Unexpected) },
                    },
                }
            },
            QuoteStateEvent::QuoteStored => {
                if self.stage != QuoteStateStage::StoreQuote {
                    return (self, QuoteStateAction::Unexpected);
                }
                match self.response {
                    Some(r) => (QuoteStateFlow { stage: QuoteStateStage::Finished, response: None, ..self },
                        QuoteStateAction::Finish(Ok(r))),
                    None => { proof { assert(false); } (QuoteStateFlow { response: None, ..self }, QuoteStateAction::Unexpected) },
                }
            },
        }
    }
}

/// Law: following a quote returns the mint's answer `r`, whether or not the
/// store holds the quote; where it does, the stored quote takes the state that
/// the mint reports before the answer is returned, all else of it unchanged.
pub proof fn law_following_a_quote_returns_the_mints_answer(f: QuoteStateFlow, r: MintQuoteResponse, stored: Option<MintQuote>)
    requires
        f.stage == QuoteStateStage::AskMint,
    ensures
        ({
            let (g1, a1) = quote_state_next(f, QuoteStateEvent::Status(r));
            let (g2, a2) = quote_state_next(g1, QuoteStateEvent::Quote(stored));
            let (g3, a3) = quote_state_next(g2, QuoteStateEvent::QuoteStored);
            &&& a1 == QuoteStateAction::GetQuote(f.quote_id)
            &&& match stored {
                None => a2 == QuoteStateAction::Finish(Ok(r)),
                Some(q) => {
                    &&& a2 is StoreQuote
                    &&& a2->StoreQuote_0.state == r.state
                    &&& a2->StoreQuote_0 == (MintQuote { state: r.state, ..q })
                    &&& a3 == QuoteStateAction::Finish(Ok(r))
                },
            }
        }),
{
}

// ---------------------------------------------------------------------------
// Checking all quotes
// ---------------------------------------------------------------------------

#[derive(Debug, Clone, Copy, PartialEq, Eq, Structural)]
pub enum SweepStage {
    LoadQuotes,
    AskState,
    Minting,
    Removing,
    Finished,
}

pub enum SweepAction {
    /// List the stored quotes.
    ListQuotes,
    /// Follow the state of the quote with this id.
    AskState(String),
    /// Mint the quote with this id.
    Mint(String),
    /// Remove the quote with this id from the store.
    Remove(String),
    /// Done: the total minted.
    Finish(Result<Amount, Error>),
    /// The event does not belong to the stage: nothing happens.
    Unexpected,
}

pub enum SweepEvent {
    /// The stored quotes.
    Quotes(Vec<MintQuote>),
    /// The state that the mint reports for the current quote, and the time.
    State { state: MintQuoteState, now: u64 },
    /// The proofs minted for the current quote.
    Minted(Vec<Proof>),
    Removed,
    /// The action failed with this error.
    Failed(Error),
}

/// Checking all stored quotes, one after the other: a paid quote is minted and
/// its value added to the total; an expired unpaid one is removed.
pub struct QuoteSweep {
    pub stage: SweepStage,
    pub quotes: Vec<MintQuote>,
    /// The position of the current quote.
    pub next: usize,
    /// The value minted so far.
    pub total: Amount,
}

impl QuoteSweep {
    pub open spec fn wf(self) -> bool {
        (self.stage == SweepStage::AskState || self.stage == SweepStage::Minting || self.stage == SweepStage::Removing)
            ==> self.next < self.quotes@.len()
    }

    /// The check of all quotes, and its first action.
    pub fn new() -> (res: (QuoteSweep, SweepAction))
        ensures
            res.0.wf(),
            res.0.stage == SweepStage::LoadQuotes,
            res.0.total == 0,
            res.1 is ListQuotes,
    {
        (QuoteSweep { stage: SweepStage::LoadQuotes, quotes: Vec::new(), next: 0, total: 0 }, SweepAction::ListQuotes)
    }
}

/// Moving on to the quote after the current one, or finishing with the total.
pub open spec fn sweep_advance(f: QuoteSweep) -> (QuoteSweep, SweepAction) {
    let n = f.next + 1;
    if n < f.quotes@.len() {
        (QuoteSweep { stage: SweepStage::AskState, next: n as usize, ..f }, SweepAction::AskState(f.quotes@[n].id))
    } else {
        (QuoteSweep { stage: SweepStage::Finished, next: n as usize, ..f }, SweepAction::Finish(Ok(f.total)))
    }
}

/// What checking all quotes does on each event.
pub open spec fn sweep_next(f: QuoteSweep, ev: SweepEvent) -> (QuoteSweep, SweepAction) {
    match ev {
        SweepEvent::Failed(e) => if f.stage == SweepStage::Finished {
            (f, SweepAction::Unexpected)
        } else {
            (QuoteSweep { stage: SweepStage::Finished, ..f }, SweepAction::Finish(Err(e)))
        },
        SweepEvent::Quotes(qs) => if f.stage == SweepStage::LoadQuotes {
            if qs@.len() == 0 {
                (QuoteSweep { stage: SweepStage::Finished, quotes: qs, next: 0, ..f }, SweepAction::Finish(Ok(f.total)))
            } else {
                (QuoteSweep { stage: SweepStage::AskState, quotes: qs, next: 0, ..f }, SweepAction::AskState(qs@[0].id))
            }
        } else {
            (f, SweepAction::Unexpected)
        },
        SweepEvent::State { state, now } => if f.stage == SweepStage::AskState {
            let q = f.quotes@[f.next as int];
            if state == MintQuoteState::Paid {
                (QuoteSweep { stage: SweepStage::Minting, ..f }, SweepAction::Mint(q.id))
            } else if q.expiry <= now {
                (QuoteSweep { stage: SweepStage::Removing, ..f }, SweepAction::Remove(q.id))
            } else {
                sweep_advance(f)
            }
        } else {
            (f, SweepAction::Unexpected)
        },
        SweepEvent::Minted(ps) => if f.stage == SweepStage::Minting {
            if sum_amounts(ps@) > u64::MAX {
                (QuoteSweep { stage: SweepStage::Finished, ..f }, SweepAction::Finish(Err(Error::AmountOverflow)))
            } else {
                sweep_advance(QuoteSweep { total: (f.total + sum_amounts(ps@)) as Amount, ..f })
            }
        } else {
            (f, SweepAction::Unexpected)
        },
        SweepEvent::Removed => if f.stage == SweepStage::Removing {
            sweep_advance(f)
        } else {
            (f, SweepAction::Unexpected)
        },
    }
}

/// The minted values that keep the wallet's running total in range.
pub open spec fn sweep_event_allowed(f: QuoteSweep, ev: SweepEvent) -> bool {
    (f.stage == SweepStage::Minting && ev is Minted && sum_amounts(ev->Minted_0@) <= u64::MAX)
        ==> f.total + sum_amounts(ev->Minted_0@) <= u64::MAX
}

impl QuoteSweep {
    fn advance(self) -> (res: (QuoteSweep, SweepAction))
        requires
            self.next < self.quotes@.len(),
        ensures
            res == sweep_advance(self),
            res.0.wf(),
    {
        let len = self.quotes.len();
        let n = self.next + 1;
        if n < len {
            let id = self.quotes[n].id.clone();
            (QuoteSweep { stage: SweepStage::AskState, next: n, ..self }, SweepAction::AskState(id))
        } else {
            let total = self.total;
            (QuoteSweep { stage: SweepStage::Finished, next: n, ..self }, SweepAction::Finish(Ok(total)))
        }
    }

    /// Moves the check on by the event `ev`.
    pub fn step(self, ev: SweepEvent) -> (res: (QuoteSweep, SweepAction))
        requires
            self.wf(),
            sweep_event_allowed(self, ev),
        ensures
            res == sweep_next(self, ev),
            res.0.wf(),
    {
        match ev {
            SweepEvent::Failed(e) => {
                if self.stage == SweepStage::Finished {
                    (self, SweepAction::Unexpected)
                } else {
                    (QuoteSweep { stage: SweepStage::Finished, ..self }, SweepAction::Finish(Err(e)))
                }
            },
            SweepEvent::Quotes(qs) => {
                if self.stage != SweepStage::LoadQuotes {
                    return (self, SweepAction::Unexpected);
                }
                if qs.len() == 0 {
                    let total = self.total;
                    (QuoteSweep { stage: SweepStage::Finished, quotes: qs, next: 0, ..self }, SweepAction::Finish(Ok(total)))
                } else {
                    let id = qs[0].id.clone();
                    (QuoteSweep { stage: SweepStage::AskState, quotes: qs, next: 0, ..self }, SweepAction::AskState(id))
                }
            },
            SweepEvent::State { state, now } => {
                if self.stage != SweepStage::AskState {
                    return (self, SweepAction::Unexpected);
                }
                let expiry = self.quotes[self.next].expiry;
                match quote_action(state, expiry, now) {
                    MintQuoteAction::Mint => {
                        let id = self.quotes[self.next].id.clone();
                        (QuoteSweep { stage: SweepStage::Minting, ..self }, SweepAction::Mint(id))
                    },
                    MintQuoteAction::Remove => {
                        let id = self.quotes[self.next].id.clone();
                        (QuoteSweep { stage: SweepStage::Removing, ..self }, SweepAction::Remove(id))
                    },
                    MintQuoteAction::Keep => self.advance(),
                }
            },
            SweepEvent::Minted(ps) => {
                if self.stage != SweepStage::Minting {
                    return (self, SweepAction::Unexpected);
                }
                match total_amount(&ps) {
                    Err(e) => (QuoteSweep { stage: SweepStage::Finished, ..self }, SweepAction::Finish(Err(e))),
                    Ok(m) => {
                        proof {
                            crate::types::lemma_sum_amounts_nonnegative(ps@);
                        }
                        let total = crate::mint::add_minted(self.total, m);
                        QuoteSweep { total, ..self }.advance()
                    },
                }
            },
            SweepEvent::Removed => {
                if self.stage != SweepStage::Removing {
                    return (self, SweepAction::Unexpected);
                }
                self.advance()
            },
        }
    }
}

/// Law: the sweep's running total grows by exactly the value minted for each
/// paid quote: after the proofs `ps` are minted, the total is the previous one
/// plus their value, and where that was the last quote the sweep finishes with
/// that total.
pub proof fn law_sweep_adds_each_minted_value(f: QuoteSweep, ps: Vec<Proof>)
    requires
        f.wf(),
        f.stage == SweepStage::Minting,
        sum_amounts(ps@) <= u64::MAX,
        f.total + sum_amounts(ps@) <= u64::MAX,
    ensures
        ({
            let (g, a) = sweep_next(f, SweepEvent::Minted(ps));
            &&& g.total == f.total + sum_amounts(ps@)
            &&& a is Finish ==> a == SweepAction::Finish(Ok((f.total + sum_amounts(ps@)) as Amount))
            &&& !(a is Finish) ==> a == SweepAction::AskState(f.quotes@[f.next + 1].id)
        }),
{
    crate::types::lemma_sum_amounts_nonnegative(ps@);
}

/// Law: nothing but minting changes the sweep's running total, and a sweep that
/// finishes well finishes with its running total: the sum of the values minted
/// so far.
pub proof fn law_sweep_total_moves_only_by_minting(f: QuoteSweep, ev: SweepEvent)
    requires
        f.wf(),
        !(ev is Minted),
    ensures
        ({
            let (g, a) = sweep_next(f, ev);
            &&& g.total == f.total
            &&& (a is Finish && a->Finish_0 is Ok) ==> a->Finish_0->Ok_0 == f.total
        }),
{
}

/// Law: a sweep starts with nothing minted.
pub proof fn law_sweep_starts_from_zero(f: QuoteSweep, qs: Vec<MintQuote>)
    requires
        f.stage == SweepStage::LoadQuotes,
        f.total == 0,
    ensures
        sweep_next(f, SweepEvent::Quotes(qs)).0.total == 0,
        qs@.len() == 0 ==> sweep_next(f, SweepEvent::Quotes(qs)).1 == SweepAction::Finish(Ok(0)),
{
}

/// Law: each stored quote is dealt with by the state that the mint reports at
/// time `now`: a paid quote is minted, an unpaid one that expired (expiry at or
/// before `now`) is removed, and any other is left, the sweep moving on to the
/// next quote or finishing with its total.
pub proof fn law_sweep_deals_with_each_quote_by_its_state(f: QuoteSweep, state: MintQuoteState, now: u64)
    requires
        f.wf(),
        f.stage == SweepStage::AskState,
    ensures
        ({
            let q = f.quotes@[f.next as int];
            let (g, a) = sweep_next(f, SweepEvent::State { state, now });
            &&& state == MintQuoteState::Paid ==> a == SweepAction::Mint(q.id)
            &&& (state != MintQuoteState::Paid && q.expiry <= now) ==> a == SweepAction::Remove(q.id)
            &&& (state != MintQuoteState::Paid && q.expiry > now) ==> {
                &&& g.total == f.total
                &&& f.next + 1 < f.quotes@.len() ==> a == SweepAction::AskState(f.quotes@[f.next + 1].id)
                &&& f.next + 1 >= f.quotes@.len() ==> a == SweepAction::Finish(Ok(f.total))
            }
        }),
{
}

/// Law: the quote that the wallet stores for the mint's answer `r` is that
/// answer's quote, for the amount and unit asked, locked with the fresh secret
/// key, expiring when the answer says (0 where it says nothing).
pub proof fn law_quote_stored_is_the_mints_answer(f: MintQuoteFlow, r: MintQuoteResponse, g: MintQuoteFlow, a: QuoteAction)
    requires
        f.wf(),
        f.stage == QuoteStage::PostQuote,
        quote_step(f, QuoteEvent::Quoted(r), g, a),
    ensures
        a is StoreQuote,
        a->StoreQuote_0.mint_url == f.mint_url,
        a->StoreQuote_0.id == r.quote,
        a->StoreQuote_0.amount == f.amount,
        a->StoreQuote_0.unit == f.unit,
        a->StoreQuote_0.request == r.request,
        a->StoreQuote_0.state == r.state,
        a->StoreQuote_0.expiry == (match r.expiry { Some(e) => e, None => 0 }),
        a->StoreQuote_0.secret_key == f.secret_key,
        g.quote == Some(a->StoreQuote_0),
{
}

} // verus!
