//! Minting ecash: asking a mint for a quote, following its state, and settling
//! the mint once the quote is paid.

use vstd::prelude::*;
use crate::error::Error;
use crate::proofs::total_amount;
use crate::types::{Amount, MintInfo, MintMethodOptions, MintMethodSettings, MintQuote, MintQuoteResponse,
    MintQuoteState, PaymentMethod, Proof, RequestFailure, Transaction, TransactionDirection, TransactionKind,
    TransactionStatus, sum_amounts};

verus! {

// ---------------------------------------------------------------------------
// Asking for a quote
// ---------------------------------------------------------------------------

/// The first of the settings `ms` for `method` and the unit `unit`.
pub open spec fn find_settings(ms: Seq<MintMethodSettings>, unit: Seq<char>, method: PaymentMethod)
    -> Option<MintMethodSettings>
    decreases ms.len(),
{
    if ms.len() == 0 {
        None
    } else if ms[0].method == method && ms[0].unit@ == unit {
        Some(ms[0])
    } else {
        find_settings(ms.drop_first(), unit, method)
    }
}

/// The first of the mint methods `methods` for `method` in the unit `unit`.
pub fn get_settings<'a>(methods: &'a Vec<MintMethodSettings>, unit: &String, method: PaymentMethod)
    -> (res: Option<&'a MintMethodSettings>)
    ensures
        match find_settings(methods@, unit@, method) {
            Some(s) => res is Some && *res->0 == s,
            None => res is None,
        },
{
    let mut i: usize = 0;
    assert(methods@.skip(0) =~= methods@);
    while i < methods.len()
        invariant
            i <= methods@.len(),
            find_settings(methods@, unit@, method) == find_settings(methods@.skip(i as int), unit@, method),
        decreases methods@.len() - i,
    {
        assert(methods@.skip(i as int)[0] == methods@[i as int]);
        assert(methods@.skip(i as int).drop_first() =~= methods@.skip(i + 1));
        if methods[i].method == method && methods[i].unit == *unit {
            return Some(&methods[i]);
        }
        i += 1;
    }
    None
}

/// Whether a mint quote may carry an invoice description: only where no
/// description is asked for, or where the mint is known and its bolt11 settings
/// for the unit allow descriptions.
pub open spec fn description_check(description: bool, mint: Option<MintInfo>, unit: Seq<char>) -> Result<(), Error> {
    if !description {
        Ok(())
    } else {
        match mint {
            None => Err(Error::IncorrectMint),
            Some(info) => match find_settings(info.nut04_methods@, unit, PaymentMethod::Bolt11) {
                None => Err(Error::UnsupportedUnit),
                Some(s) => if s.options == Some(MintMethodOptions::Bolt11 { description: true }) {
                    Ok(())
                } else {
                    Err(Error::InvoiceDescriptionUnsupported)
                },
            },
        }
    }
}

/// Checks, before a mint quote with an invoice description is asked for, that
/// the mint (`mint`, as the store holds it) supports descriptions in `unit`.
pub fn check_description_support(description: bool, mint: Option<MintInfo>, unit: &String)
    -> (res: Result<(), Error>)
    ensures
        res == description_check(description, mint, unit@),
{
    if !description {
        return Ok(());
    }
    let info = match mint {
        Some(info) => info,
        None => return Err(Error::IncorrectMint),
    };
    let settings = match get_settings(&info.nut04_methods, unit, PaymentMethod::Bolt11) {
        Some(s) => s,
        None => return Err(Error::UnsupportedUnit),
    };
    match settings.options {
        Some(MintMethodOptions::Bolt11 { description }) => {
            if description {
                Ok(())
            } else {
                Err(Error::InvoiceDescriptionUnsupported)
            }
        },
        None => Err(Error::InvoiceDescriptionUnsupported),
    }
}

/// The quote that the wallet stores for the mint's answer `response` to a
/// request for `amount` in `unit`, locked with `secret_key`.
pub fn new_mint_quote(
    mint_url: String,
    amount: Amount,
    unit: String,
    response: &MintQuoteResponse,
    secret_key: String,
) -> (res: MintQuote)
    ensures
        res.mint_url == mint_url,
        res.id == response.quote,
        res.amount == amount,
        res.unit == unit,
        res.request == response.request,
        res.state == response.state,
        res.expiry == match response.expiry {
            Some(e) => e,
            None => 0,
        },
        res.secret_key == Some(secret_key),
{
    MintQuote {
        mint_url,
        id: response.quote.clone(),
        amount,
        unit,
        request: response.request.clone(),
        state: response.state,
        expiry: match response.expiry {
            Some(e) => e,
            None => 0,
        },
        secret_key: Some(secret_key),
    }
}

/// The metadata key under which a transaction records its mint quote.
pub open spec fn quote_id_key() -> Seq<char> {
    "quote_id"@
}

/// The pending incoming lightning transaction that the wallet records when it
/// gets the quote `response` for `amount` in `unit`, at time `now`.
pub fn mint_quote_transaction(
    mint_url: String,
    amount: Amount,
    unit: String,
    response: MintQuoteResponse,
    now: u64,
) -> (res: Transaction)
    requires
        response.pubkey is Some,
    ensures
        res.mint_url == mint_url,
        res.direction == TransactionDirection::Incoming,
        res.kind == TransactionKind::LN,
        res.amount == amount,
        res.fee == 0,
        res.unit == unit,
        res.ys@ == seq![response.pubkey->0],
        res.token == response.request,
        res.status == TransactionStatus::Pending,
        res.timestamp == now,
        res.memo is None,
        res.metadata@.len() == 1,
        res.metadata@[0].0@ == quote_id_key(),
        res.metadata@[0].1 == response.quote,
        res.quote_id is None,
        res.payment_request is None,
        res.payment_proof is None,
        res.payment_method is None,
        res.saga_id is None,
{
    let mut metadata: Vec<(String, String)> = Vec::new();
    metadata.push(("quote_id".to_owned(), response.quote));
    let mut ys: Vec<String> = Vec::new();
    ys.push(response.pubkey.unwrap());
    Transaction {
        mint_url,
        direction: TransactionDirection::Incoming,
        kind: TransactionKind::LN,
        amount,
        fee: 0,
        unit,
        ys,
        token: response.request,
        status: TransactionStatus::Pending,
        timestamp: now,
        memo: None,
        metadata,
        quote_id: None,
        payment_request: None,
        payment_proof: None,
        payment_method: None,
        saga_id: None,
    }
}

// ---------------------------------------------------------------------------
// Following the state of quotes
// ---------------------------------------------------------------------------

/// The stored quote (`stored`) with the state that the mint reported, to be
/// written back; nothing where the quote is not in the store.
pub fn refresh_quote_state(stored: Option<MintQuote>, state: MintQuoteState) -> (res: Option<MintQuote>)
    ensures
        match stored {
            Some(q) => res == Some(MintQuote { state, ..q }),
            None => res is None,
        },
{
    match stored {
        Some(q) => {
            let mut q = q;
            q.state = state;
            Some(q)
        },
        None => None,
    }
}

/// What the wallet does with a stored quote when it checks all its quotes.
#[derive(Debug, Clone, Copy, PartialEq, Eq, Structural)]
pub enum MintQuoteAction {
    /// The quote is paid: mint its ecash.
    Mint,
    /// The quote expired unpaid: remove it.
    Remove,
    /// Leave the quote as it is.
    Keep,
}

/// Decides what to do with a quote whose state the mint reports as `state`,
/// and which expires at `expiry`, at time `now`.
pub fn quote_action(state: MintQuoteState, expiry: u64, now: u64) -> (res: MintQuoteAction)
    ensures
        res == if state == MintQuoteState::Paid {
            MintQuoteAction::Mint
        } else if expiry <= now {
            MintQuoteAction::Remove
        } else {
            MintQuoteAction::Keep
        },
{
    if state == MintQuoteState::Paid {
        MintQuoteAction::Mint
    } else if expiry <= now {
        MintQuoteAction::Remove
    } else {
        MintQuoteAction::Keep
    }
}

/// The running total of the ecash minted while checking quotes, after one more
/// mint of `minted`.
pub fn add_minted(total: Amount, minted: Amount) -> (res: Amount)
    requires
        total + minted <= u64::MAX,
    ensures
        res == total + minted,
{
    total + minted
}

// ---------------------------------------------------------------------------
// Minting
// ---------------------------------------------------------------------------

/// The keyset counter to derive the next secrets from, given the counter that
/// the store holds (`None` where the keyset was never used).
pub fn next_counter(count: Option<u32>) -> (res: u32)
    requires
        count is Some ==> count->0 < u32::MAX,
    ensures
        res == match count {
            Some(c) => c + 1,
            None => 0,
        },
{
    match count {
        Some(c) => c + 1,
        None => 0,
    }
}

/// The quote that the store found; `UnknownQuote` where it found none.
pub fn require_quote(found: Option<MintQuote>) -> (res: Result<MintQuote, Error>)
    ensures
        match found {
            Some(q) => res == Ok::<MintQuote, Error>(q),
            None => res == Err::<MintQuote, Error>(Error::UnknownQuote),
        },
{
    match found {
        Some(q) => Ok(q),
        None => Err(Error::UnknownQuote),
    }
}

/// The value under the key `key` in the metadata `m` (its first entry with that key).
pub open spec fn metadata_value(m: Seq<(String, String)>, key: Seq<char>) -> Option<Seq<char>>
    decreases m.len(),
{
    if m.len() == 0 {
        None
    } else if m[0].0@ == key {
        Some(m[0].1@)
    } else {
        metadata_value(m.drop_first(), key)
    }
}

/// A pending incoming lightning transaction recorded for the quote `quote_id`.
pub open spec fn is_quote_transaction(t: Transaction, quote_id: Seq<char>) -> bool {
    &&& t.kind == TransactionKind::LN
    &&& t.direction == TransactionDirection::Incoming
    &&& metadata_value(t.metadata@, quote_id_key()) == Some(quote_id)
}

/// The first transaction of `txs` recorded for the quote `quote_id`.
pub open spec fn first_quote_transaction(txs: Seq<Transaction>, quote_id: Seq<char>) -> Option<Transaction>
    decreases txs.len(),
{
    if txs.len() == 0 {
        None
    } else if is_quote_transaction(txs[0], quote_id) {
        Some(txs[0])
    } else {
        first_quote_transaction(txs.drop_first(), quote_id)
    }
}

/// The value under `key` in the metadata `m`.
pub fn metadata_get<'a>(m: &'a Vec<(String, String)>, key: &String) -> (res: Option<&'a String>)
    ensures
        match metadata_value(m@, key@) {
            Some(v) => res is Some && res->0@ == v,
            None => res is None,
        },
{
    let mut i: usize = 0;
    assert(m@.skip(0) =~= m@);
    while i < m.len()
        invariant
            i <= m@.len(),
            metadata_value(m@, key@) == metadata_value(m@.skip(i as int), key@),
        decreases m@.len() - i,
    {
        assert(m@.skip(i as int)[0] == m@[i as int]);
        assert(m@.skip(i as int).drop_first() =~= m@.skip(i + 1));
        if m[i].0 == *key {
            return Some(&m[i].1);
        }
        i += 1;
    }
    None
}

/// The pending transaction that recorded the quote `quote_id`, among the
/// pending transactions `pending`; `TransactionNotFound` where none did.
pub fn find_mint_transaction(pending: Vec<Transaction>, quote_id: &String) -> (res: Result<Transaction, Error>)
    ensures
        match first_quote_transaction(pending@, quote_id@) {
            Some(t) => res == Ok::<Transaction, Error>(t),
            None => res == Err::<Transaction, Error>(Error::TransactionNotFound),
        },
{
    let key = "quote_id".to_owned();
    let ghost all = pending@;
    let mut rest = pending;
    while rest.len() > 0
        invariant
            key@ == quote_id_key(),
            all == pending@,
            first_quote_transaction(all, quote_id@) == first_quote_transaction(rest@, quote_id@),
        decreases rest@.len(),
    {
        let ghost before = rest@;
        let t = rest.remove(0);
        assert(t == before[0]);
        assert(before.drop_first() =~= rest@);
        let found = match metadata_get(&t.metadata, &key) {
            Some(v) => *v == *quote_id,
            None => false,
        };
        assert(found <==> metadata_value(t.metadata@, quote_id_key()) == Some(quote_id@));
        if t.kind == TransactionKind::LN && t.direction == TransactionDirection::Incoming && found {
            assert(is_quote_transaction(t, quote_id@));
            return Ok(t);
        }
    }
    Err(Error::TransactionNotFound)
}

/// The transaction of a mint whose request failed, marked failed, and the error
/// that the mint ends in.
pub fn fail_mint_transaction(tx: Transaction, failure: RequestFailure) -> (res: (Transaction, Error))
    ensures
        res.0 == (Transaction { status: TransactionStatus::Failed, ..tx }),
        match failure {
            RequestFailure::Rejected(e) => res.1 == e,
            RequestFailure::TimedOut => res.1 == Error::Timeout,
        },
{
    let tx = crate::proofs::with_status(tx, TransactionStatus::Failed);
    (tx, crate::proofs::request_failure_error(failure))
}

/// What checking the DLEQ proof of one signature of the mint gave.
#[derive(Debug, Clone, Copy, PartialEq, Eq, Structural)]
pub enum DleqCheck {
    /// The keyset has no key for the signature's amount.
    KeyMissing,
    /// The DLEQ proof verified.
    Valid,
    /// The signature came without a DLEQ proof.
    MissingProof,
    /// The DLEQ proof did not verify.
    Invalid,
}

/// The verdict on one signature: a missing key is `AmountKey`, a proof that
/// does not verify is `CouldNotVerifyDleq`; a signature without a proof passes.
pub fn dleq_verdict(check: DleqCheck) -> (res: Result<(), Error>)
    ensures
        match check {
            DleqCheck::KeyMissing => res == Err::<(), Error>(Error::AmountKey),
            DleqCheck::Invalid => res == Err::<(), Error>(Error::CouldNotVerifyDleq),
            _ => res is Ok,
        },
{
    match check {
        DleqCheck::KeyMissing => Err(Error::AmountKey),
        DleqCheck::Valid => Ok(()),
        DleqCheck::MissingProof => Ok(()),
        DleqCheck::Invalid => Err(Error::CouldNotVerifyDleq),
    }
}

/// By how much the keyset counter moves after minting `minted` proofs: by their
/// number where the secrets came from the seed, not at all where they carry
/// spending conditions.
pub fn mint_counter_increment(has_conditions: bool, minted: usize) -> (res: Option<u32>)
    ensures
        res == if has_conditions { None } else { Some(minted as u32) },
{
    if has_conditions {
        None
    } else {
        Some(minted as u32)
    }
}

/// The transaction of a mint once the proofs `proofs` are minted at `now`: its
/// amount is their total, and it is settled.
pub fn complete_mint_transaction(tx: Transaction, proofs: &Vec<Proof>, now: u64) -> (res: Result<Transaction, Error>)
    ensures
        sum_amounts(proofs@) <= u64::MAX ==> res == Ok::<Transaction, Error>(Transaction {
            amount: sum_amounts(proofs@) as Amount,
            timestamp: now,
            status: TransactionStatus::Success,
            ..tx
        }),
        sum_amounts(proofs@) > u64::MAX ==> res == Err::<Transaction, Error>(Error::AmountOverflow),
{
    let amount = match total_amount(proofs) {
        Ok(a) => a,
        Err(e) => return Err(e),
    };
    let mut tx = tx;
    tx.amount = amount;
    tx.timestamp = now;
    tx.status = TransactionStatus::Success;
    Ok(tx)
}

} // verus!
