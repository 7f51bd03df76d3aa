//! The wallet's data, held as plain values.

use vstd::prelude::*;

verus! {

/// An amount in the smallest unit of the wallet's currency.
pub type Amount = u64;

/// Which way value moved in a transaction.
#[derive(Debug, Clone, Copy, PartialEq, Eq, Structural)]
pub enum TransactionDirection {
    /// Value came into the wallet.
    Incoming,
    /// Value left the wallet.
    Outgoing,
    /// Proofs were split into other proofs of the same wallet.
    Split,
}

/// What kind of payment a transaction was.
#[derive(Debug, Clone, Copy, PartialEq, Eq, Structural)]
pub enum TransactionKind {
    /// An ecash transfer.
    Cashu,
    /// A lightning payment.
    LN,
}

/// Where a transaction stands.
#[derive(Debug, Clone, Copy, PartialEq, Eq, Structural)]
pub enum TransactionStatus {
    /// Started and not settled yet.
    Pending,
    /// Settled.
    Success,
    /// Given up.
    Failed,
}

/// The state of a proof, as the mint or the wallet sees it.
#[derive(Debug, Clone, Copy, PartialEq, Eq, Structural)]
pub enum ProofState {
    Unspent,
    Pending,
    Spent,
    Reserved,
    PendingSpent,
}

/// The state of a mint quote.
#[derive(Debug, Clone, Copy, PartialEq, Eq, Structural)]
pub enum MintQuoteState {
    Unpaid,
    Paid,
    Issued,
}

/// A payment method that a mint offers.
#[derive(Debug, Clone, Copy, PartialEq, Eq, Structural)]
pub enum PaymentMethod {
    Bolt11,
    Bolt12,
}

/// An ecash proof, with what the wallet's logic reads of it.
#[derive(Debug, Clone)]
pub struct Proof {
    /// The value of the proof.
    pub amount: Amount,
    /// The secret of the proof.
    pub secret: String,
    /// The curve point of the secret (hex), `None` where it could not be computed.
    pub y: Option<String>,
    /// Whether the secret is a spending-condition secret.
    pub conditional: bool,
}

/// A record of value that moved in or out of the wallet.
#[derive(Debug, Clone)]
pub struct Transaction {
    pub mint_url: String,
    pub direction: TransactionDirection,
    pub kind: TransactionKind,
    pub amount: Amount,
    pub fee: Amount,
    pub unit: String,
    /// The curve points (hex) of the proofs that the transaction moved.
    pub ys: Vec<String>,
    pub token: String,
    pub status: TransactionStatus,
    /// Seconds since the unix epoch.
    pub timestamp: u64,
    pub memo: Option<String>,
    /// Key-value pairs; a key occurs at most once.
    pub metadata: Vec<(String, String)>,
    pub quote_id: Option<String>,
    pub payment_request: Option<String>,
    pub payment_proof: Option<String>,
    pub payment_method: Option<PaymentMethod>,
    pub saga_id: Option<String>,
}

/// A quote that the mint gave for minting ecash against a payment.
#[derive(Debug, Clone)]
pub struct MintQuote {
    pub mint_url: String,
    pub id: String,
    pub amount: Amount,
    pub unit: String,
    /// The payment request to pay.
    pub request: String,
    pub state: MintQuoteState,
    /// Seconds since the unix epoch; 0 where the mint gave none.
    pub expiry: u64,
    /// The secret key that locks the quote (hex), if the wallet made one.
    pub secret_key: Option<String>,
}

/// The mint's answer to a mint-quote request or to a mint-quote state request.
#[derive(Debug, Clone)]
pub struct MintQuoteResponse {
    pub quote: String,
    pub request: String,
    pub state: MintQuoteState,
    pub expiry: Option<u64>,
    /// The public key (hex) that locks the quote.
    pub pubkey: Option<String>,
}

/// Options of a mint method.
#[derive(Debug, Clone, Copy, PartialEq, Eq, Structural)]
pub enum MintMethodOptions {
    /// Bolt11 options: whether an invoice description may be asked for.
    Bolt11 { description: bool },
}

/// One mint method that a mint announces.
#[derive(Debug, Clone)]
pub struct MintMethodSettings {
    pub method: PaymentMethod,
    pub unit: String,
    pub min_amount: Option<Amount>,
    pub max_amount: Option<Amount>,
    pub options: Option<MintMethodOptions>,
}

/// What a mint announces of its minting (NUT-04).
#[derive(Debug, Clone)]
pub struct MintInfo {
    pub nut04_methods: Vec<MintMethodSettings>,
    pub nut04_disabled: bool,
}

/// How a request to the mint went, where the wallet waits a bounded time.
#[derive(Debug)]
pub enum RequestFailure {
    /// The mint answered with an error, or the request could not be made.
    Rejected(crate::error::Error),
    /// The mint did not answer in time.
    TimedOut,
}

/// Two transactions that hold the same values (their lists compared by content).
pub open spec fn same_transaction(a: Transaction, b: Transaction) -> bool {
    &&& a.mint_url == b.mint_url
    &&& a.direction == b.direction
    &&& a.kind == b.kind
    &&& a.amount == b.amount
    &&& a.fee == b.fee
    &&& a.unit == b.unit
    &&& a.ys@ == b.ys@
    &&& a.token == b.token
    &&& a.status == b.status
    &&& a.timestamp == b.timestamp
    &&& a.memo == b.memo
    &&& a.metadata@ == b.metadata@
    &&& a.quote_id == b.quote_id
    &&& a.payment_request == b.payment_request
    &&& a.payment_proof == b.payment_proof
    &&& a.payment_method == b.payment_method
    &&& a.saga_id == b.saga_id
}

/// A copy of an optional string.
pub fn copy_opt_string(s: &Option<String>) -> (res: Option<String>)
    ensures
        res == *s,
{
    match s {
        Some(v) => Some(v.clone()),
        None => None,
    }
}

/// A copy of a list of strings.
pub fn copy_strings(v: &Vec<String>) -> (res: Vec<String>)
    ensures
        res@ == v@,
{
    let mut out: Vec<String> = Vec::new();
    let mut i: usize = 0;
    while i < v.len()
        invariant
            i <= v@.len(),
            out@ == v@.take(i as int),
        decreases v@.len() - i,
    {
        out.push(v[i].clone());
        assert(v@.take(i + 1) =~= v@.take(i as int).push(v@[i as int]));
        i += 1;
    }
    assert(v@.take(i as int) =~= v@);
    out
}

/// A copy of a transaction.
pub fn copy_transaction(t: &Transaction) -> (res: Transaction)
    ensures
        same_transaction(res, *t),
{
    let mut metadata: Vec<(String, String)> = Vec::new();
    let mut i: usize = 0;
    while i < t.metadata.len()
        invariant
            i <= t.metadata@.len(),
            metadata@ == t.metadata@.take(i as int),
        decreases t.metadata@.len() - i,
    {
        let entry = (t.metadata[i].0.clone(), t.metadata[i].1.clone());
        metadata.push(entry);
        assert(t.metadata@.take(i + 1) =~= t.metadata@.take(i as int).push(t.metadata@[i as int]));
        i += 1;
    }
    assert(t.metadata@.take(i as int) =~= t.metadata@);
    Transaction {
        mint_url: t.mint_url.clone(),
        direction: t.direction,
        kind: t.kind,
        amount: t.amount,
        fee: t.fee,
        unit: t.unit.clone(),
        ys: copy_strings(&t.ys),
        token: t.token.clone(),
        status: t.status,
        timestamp: t.timestamp,
        memo: copy_opt_string(&t.memo),
        metadata,
        quote_id: copy_opt_string(&t.quote_id),
        payment_request: copy_opt_string(&t.payment_request),
        payment_proof: copy_opt_string(&t.payment_proof),
        payment_method: t.payment_method,
        saga_id: copy_opt_string(&t.saga_id),
    }
}

/// A copy of a proof.
pub fn copy_proof(p: &Proof) -> (res: Proof)
    ensures
        res == *p,
{
    Proof { amount: p.amount, secret: p.secret.clone(), y: copy_opt_string(&p.y), conditional: p.conditional }
}

/// A copy of a list of proofs.
pub fn copy_proofs(v: &Vec<Proof>) -> (res: Vec<Proof>)
    ensures
        res@ == v@,
{
    let mut out: Vec<Proof> = Vec::new();
    let mut i: usize = 0;
    while i < v.len()
        invariant
            i <= v@.len(),
            out@ == v@.take(i as int),
        decreases v@.len() - i,
    {
        out.push(copy_proof(&v[i]));
        assert(v@.take(i + 1) =~= v@.take(i as int).push(v@[i as int]));
        i += 1;
    }
    assert(v@.take(i as int) =~= v@);
    out
}

/// A copy of a mint quote.
pub fn copy_quote(q: &MintQuote) -> (res: MintQuote)
    ensures
        res == *q,
{
    MintQuote {
        mint_url: q.mint_url.clone(),
        id: q.id.clone(),
        amount: q.amount,
        unit: q.unit.clone(),
        request: q.request.clone(),
        state: q.state,
        expiry: q.expiry,
        secret_key: copy_opt_string(&q.secret_key),
    }
}

/// The sum of the amounts of a sequence of proofs.
pub open spec fn sum_amounts(proofs: Seq<Proof>) -> int
    decreases proofs.len(),
{
    if proofs.len() == 0 {
        0
    } else {
        sum_amounts(proofs.drop_last()) + proofs.last().amount
    }
}

/// The total of proofs is never negative.
pub proof fn lemma_sum_amounts_nonnegative(ps: Seq<Proof>)
    ensures
        sum_amounts(ps) >= 0,
    decreases ps.len(),
{
    if ps.len() > 0 {
        lemma_sum_amounts_nonnegative(ps.drop_last());
    }
}

} // verus!
