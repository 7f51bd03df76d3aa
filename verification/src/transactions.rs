//! The wallet's transaction history: ordering the transactions that the store
//! lists, and the decisions of reverting a transaction.

use vstd::prelude::*;
use crate::error::Error;
use crate::types::{Proof, Transaction, TransactionDirection};

verus! {

broadcast use vstd::seq_lib::group_to_multiset_ensures;

/// Transactions are listed newest first.
pub open spec fn sorted_newest_first(s: Seq<Transaction>) -> bool {
    forall|i: int, j: int| 0 <= i < j < s.len() ==> s[i].timestamp >= s[j].timestamp
}

/// The predicate "made at time `t`".
pub open spec fn stamped(t: u64) -> spec_fn(Transaction) -> bool {
    |x: Transaction| x.timestamp == t
}

/// The transactions of `s` that were made at time `t`, in the order of `s`.
pub open spec fn at_time(s: Seq<Transaction>, t: u64) -> Seq<Transaction> {
    s.filter(stamped(t))
}

proof fn lemma_at_time_none(s: Seq<Transaction>, t: u64)
    requires
        forall|i: int| 0 <= i < s.len() ==> s[i].timestamp != t,
    ensures
        at_time(s, t) == Seq::<Transaction>::empty(),
    decreases s.len(),
{
    reveal(Seq::filter);
    if s.len() > 0 {
        lemma_at_time_none(s.drop_last(), t);
    }
}

proof fn lemma_at_time_insert(out: Seq<Transaction>, p: int, x: Transaction, t: u64)
    requires
        0 <= p <= out.len(),
        forall|i: int| p <= i < out.len() ==> out[i].timestamp < x.timestamp,
    ensures
        at_time(out.insert(p, x), t) == if x.timestamp == t {
            at_time(out, t).push(x)
        } else {
            at_time(out, t)
        },
{
    let a = out.take(p);
    let b = out.skip(p);
    assert(out =~= a + b);
    assert(out.insert(p, x) =~= a.push(x) + b);
    Seq::filter_distributes_over_add(a, b, stamped(t));
    Seq::filter_distributes_over_add(a.push(x), b, stamped(t));
    a.lemma_filter_push(x, stamped(t));
    if x.timestamp == t {
        lemma_at_time_none(b, t);
        assert(at_time(out, t) =~= at_time(a, t));
        assert(at_time(out.insert(p, x), t) =~= at_time(a, t).push(x));
    }
}

proof fn lemma_at_time_member_not_newer(s: Seq<Transaction>, t: u64)
    requires
        sorted_newest_first(s),
        s.len() > 0,
        at_time(s, t).len() > 0,
    ensures
        t <= s[0].timestamp,
{
    let e = at_time(s, t)[0];
    s.lemma_filter_pred(stamped(t), 0);
    assert(at_time(s, t).contains(e));
    s.lemma_filter_contains_rev(stamped(t), e);
    let i = choose|i: int| 0 <= i < s.len() && s[i] == e;
    if i > 0 {
        assert(s[0].timestamp >= s[i].timestamp);
    }
}

proof fn lemma_at_time_split_first(s: Seq<Transaction>, t: u64)
    requires
        s.len() > 0,
    ensures
        at_time(s, t) == if s[0].timestamp == t {
            seq![s[0]] + at_time(s.drop_first(), t)
        } else {
            at_time(s.drop_first(), t)
        },
{
    assert(s =~= seq![s[0]] + s.drop_first());
    s.drop_first().lemma_filter_prepend(s[0], stamped(t));
    if s[0].timestamp != t {
        assert(Seq::<Transaction>::empty() + at_time(s.drop_first(), t) =~= at_time(s.drop_first(), t));
    }
}

/// Two newest-first lists that hold the same transactions at each time, in the
/// same order, are the same list.
proof fn lemma_sorted_listing_unique(a: Seq<Transaction>, b: Seq<Transaction>)
    requires
        sorted_newest_first(a),
        sorted_newest_first(b),
        forall|t: u64| #[trigger] at_time(a, t) == at_time(b, t),
    ensures
        a == b,
    decreases a.len(),
{
    if a.len() == 0 {
        if b.len() > 0 {
            lemma_at_time_split_first(b, b[0].timestamp);
            assert(at_time(a, b[0].timestamp) =~= Seq::<Transaction>::empty()) by {
                reveal(Seq::filter);
            }
            assert(at_time(b, b[0].timestamp).len() > 0);
        }
        assert(a =~= b);
    } else {
        let ta = a[0].timestamp;
        lemma_at_time_split_first(a, ta);
        assert(at_time(b, ta).len() > 0);
        if b.len() == 0 {
            assert(at_time(b, ta) =~= Seq::<Transaction>::empty()) by {
                reveal(Seq::filter);
            }
        }
        let tb = b[0].timestamp;
        lemma_at_time_split_first(b, tb);
        assert(at_time(a, tb).len() > 0);
        lemma_at_time_member_not_newer(a, tb);
        lemma_at_time_member_not_newer(b, ta);
        assert(ta == tb);
        lemma_at_time_split_first(b, ta);
        assert(at_time(a, ta)[0] == a[0]);
        assert(at_time(b, ta)[0] == b[0]);
        let ra = a.drop_first();
        let rb = b.drop_first();
        assert forall|t: u64| #[trigger] at_time(ra, t) == at_time(rb, t) by {
            lemma_at_time_split_first(a, t);
            lemma_at_time_split_first(b, t);
            if t == ta {
                assert(at_time(ra, t) =~= at_time(a, t).drop_first());
                assert(at_time(rb, t) =~= at_time(b, t).drop_first());
            }
        }
        lemma_sorted_listing_unique(ra, rb);
        assert(a =~= seq![a[0]] + ra);
        assert(b =~= seq![b[0]] + rb);
    }
}

/// Law: listing transactions is deterministic and idempotent: a list that is
/// already newest first, with transactions of the same time in the order wanted,
/// is left exactly as it is; so sorting a sorted listing changes nothing.
pub proof fn law_sorting_a_sorted_listing_keeps_it(txs: Seq<Transaction>, res: Seq<Transaction>)
    requires
        sorted_newest_first(txs),
        sorted_newest_first(res),
        forall|t: u64| #[trigger] at_time(res, t) == at_time(txs, t),
    ensures
        res == txs,
{
    lemma_sorted_listing_unique(res, txs);
}

/// Law: the order of a listing is determined: two lists that are both newest
/// first and hold the transactions of `txs` at each time in the order of `txs`
/// are the same list.
pub proof fn law_listing_order_is_determined(txs: Seq<Transaction>, r1: Seq<Transaction>, r2: Seq<Transaction>)
    requires
        sorted_newest_first(r1),
        sorted_newest_first(r2),
        forall|t: u64| #[trigger] at_time(r1, t) == at_time(txs, t),
        forall|t: u64| #[trigger] at_time(r2, t) == at_time(txs, t),
    ensures
        r1 == r2,
{
    assert forall|t: u64| #[trigger] at_time(r1, t) == at_time(r2, t) by {
        assert(at_time(r1, t) == at_time(txs, t));
        assert(at_time(r2, t) == at_time(txs, t));
    }
    lemma_sorted_listing_unique(r1, r2);
}

/// Orders transactions newest first. Transactions made at the same time keep
/// the order in which they were given, and none is added or dropped.
pub fn sort_transactions(txs: Vec<Transaction>) -> (res: Vec<Transaction>)
    ensures
        sorted_newest_first(res@),
        forall|t: u64| #[trigger] at_time(res@, t) == at_time(txs@, t),
        res@.to_multiset() == txs@.to_multiset(),
{
    let ghost orig = txs@;
    let mut input = txs;
    let mut out: Vec<Transaction> = Vec::new();
    let mut k: usize = 0;
    assert(orig.len() == input.len());
    while input.len() > 0
        invariant
            k <= orig.len(),
            orig.len() <= usize::MAX,
            input@ == orig.skip(k as int),
            sorted_newest_first(out@),
            forall|t: u64| #[trigger] at_time(out@, t) == at_time(orig.take(k as int), t),
            out@.to_multiset() == orig.take(k as int).to_multiset(),
        decreases input@.len(),
    {
        let x = input.remove(0);
        assert(x == orig[k as int]);
        let mut p: usize = 0;
        while p < out.len() && out[p].timestamp >= x.timestamp
            invariant
                p <= out.len(),
                forall|i: int| 0 <= i < p ==> out@[i].timestamp >= x.timestamp,
            decreases out.len() - p,
        {
            p += 1;
        }
        let ghost old_out = out@;
        assert(forall|i: int| p <= i < old_out.len() ==> old_out[i].timestamp < x.timestamp) by {
            if p < old_out.len() {
                assert(old_out[p as int].timestamp < x.timestamp);
            }
        }
        assert(orig.take(k + 1) =~= orig.take(k as int).push(x));
        proof {
            assert forall|t: u64|
                #[trigger] at_time(old_out.insert(p as int, x), t) == at_time(orig.take(k + 1), t) by {
                lemma_at_time_insert(old_out, p as int, x, t);
                orig.take(k as int).lemma_filter_push(x, stamped(t));
            }
        }
        out.insert(p, x);
        assert(out@ == old_out.insert(p as int, x));
        k += 1;
    }
    assert(orig.take(k as int) =~= orig);
    out
}

/// The pending transactions followed by the failed ones, each list in its own order.
pub fn merge_pending_failed(pending: Vec<Transaction>, failed: Vec<Transaction>) -> (res: Vec<Transaction>)
    ensures
        res@ == pending@ + failed@,
{
    let mut result: Vec<Transaction> = Vec::new();
    let mut pending = pending;
    let mut failed = failed;
    result.append(&mut pending);
    result.append(&mut failed);
    result
}

/// The transaction that the store found; `TransactionNotFound` where it found none.
pub fn require_transaction(found: Option<Transaction>) -> (res: Result<Transaction, Error>)
    ensures
        match found {
            Some(t) => res == Ok::<Transaction, Error>(t),
            None => res == Err::<Transaction, Error>(Error::TransactionNotFound),
        },
{
    match found {
        Some(t) => Ok(t),
        None => Err(Error::TransactionNotFound),
    }
}

/// How a transaction is reverted.
pub enum RevertPlan {
    /// The transaction belongs to a send saga: revoke that saga.
    RevokeSaga(String),
    /// A transaction without a saga: check with the mint which of the wallet's
    /// pending-spent proofs among the transaction's points are spent.
    CheckLegacyProofs(Vec<String>),
}

/// Decides how to revert the transaction that the store found (`found`): it
/// must exist (`TransactionNotFound`) and be outgoing or a split
/// (`InvalidTransactionDirection`); one with a saga is reverted through it.
pub fn revert_plan(found: Option<Transaction>) -> (res: Result<RevertPlan, Error>)
    ensures
        match found {
            None => res == Err::<RevertPlan, Error>(Error::TransactionNotFound),
            Some(t) => if t.direction != TransactionDirection::Outgoing && t.direction != TransactionDirection::Split {
                res == Err::<RevertPlan, Error>(Error::InvalidTransactionDirection)
            } else {
                match t.saga_id {
                    Some(id) => res == Ok::<RevertPlan, Error>(RevertPlan::RevokeSaga(id)),
                    None => res is Ok && res->Ok_0 is CheckLegacyProofs && res->Ok_0->CheckLegacyProofs_0 == t.ys,
                }
            },
        },
{
    let tx = match found {
        Some(t) => t,
        None => return Err(Error::TransactionNotFound),
    };
    if tx.direction != TransactionDirection::Outgoing && tx.direction != TransactionDirection::Split {
        return Err(Error::InvalidTransactionDirection);
    }
    match tx.saga_id {
        Some(id) => Ok(RevertPlan::RevokeSaga(id)),
        None => Ok(RevertPlan::CheckLegacyProofs(tx.ys)),
    }
}

/// Whether the point `y` is among the points `ys`.
pub open spec fn has_point(ys: Seq<String>, y: String) -> bool {
    exists|i: int| 0 <= i < ys.len() && (#[trigger] ys[i])@ == y@
}

/// The predicate "the proof's point is known and among `ys`".
pub open spec fn point_among(ys: Seq<String>) -> spec_fn(Proof) -> bool {
    |p: Proof| p.y is Some && has_point(ys, p.y->0)
}

/// Whether `y` is among `ys`.
pub fn contains_point(ys: &Vec<String>, y: &String) -> (res: bool)
    ensures
        res == has_point(ys@, *y),
{
    let mut i: usize = 0;
    while i < ys.len()
        invariant
            i <= ys@.len(),
            forall|j: int| 0 <= j < i ==> ys@[j]@ != y@,
        decreases ys@.len() - i,
    {
        if ys[i] == *y {
            return true;
        }
        i += 1;
    }
    false
}

/// The pending-spent proofs of the wallet whose point is among the points `ys`
/// of the transaction to revert, in their order; a proof whose point is not
/// known is left out.
pub fn legacy_proofs_to_check(pending_spent: Vec<Proof>, ys: &Vec<String>) -> (res: Vec<Proof>)
    ensures
        res@ == pending_spent@.filter(point_among(ys@)),
{
    let ghost orig = pending_spent@;
    let mut input = pending_spent;
    let mut out: Vec<Proof> = Vec::new();
    let mut k: usize = 0;
    assert(orig.len() == input.len());
    while input.len() > 0
        invariant
            k <= orig.len(),
            orig.len() <= usize::MAX,
            input@ == orig.skip(k as int),
            out@ == orig.take(k as int).filter(point_among(ys@)),
        decreases input@.len(),
    {
        let p = input.remove(0);
        assert(p == orig[k as int]);
        assert(orig.take(k + 1) =~= orig.take(k as int).push(p));
        proof { orig.take(k as int).lemma_filter_push(p, point_among(ys@)); }
        let keep = match &p.y {
            Some(y) => contains_point(ys, y),
            None => false,
        };
        if keep {
            out.push(p);
        }
        k += 1;
    }
    assert(orig.take(k as int) =~= orig);
    out
}

// ---------------------------------------------------------------------------
// Reverting a transaction
// ---------------------------------------------------------------------------

#[derive(Debug, Clone, Copy, PartialEq, Eq, Structural)]
pub enum RevertStage {
    LoadTransaction,
    Revoke,
    LoadPendingSpent,
    CheckSpent,
    Finished,
}

pub enum RevertAction {
    /// Load the transaction from the store.
    GetTransaction,
    /// Revoke the send saga with this id.
    RevokeSaga(String),
    /// List the wallet's pending-spent proofs.
    ListPendingSpent,
    /// Check with the mint which of these proofs are spent, and mark them.
    CheckSpent(Vec<Proof>),
    /// Reverting is over.
    Finish(Result<(), Error>),
    /// The event does not belong to the stage: nothing happens.
    Unexpected,
}

pub enum RevertEvent {
    /// The transaction, if the store holds it.
    Found(Option<Transaction>),
    Revoked,
    /// The wallet's pending-spent proofs.
    PendingSpent(Vec<Proof>),
    Checked,
    /// The action failed with this error.
    Failed(Error),
}

/// Reverting a transaction: through its saga where it has one, else by checking
/// which of its proofs the mint saw spent.
pub struct RevertFlow {
    pub stage: RevertStage,
    /// The points of the transaction.
    pub ys: Vec<String>,
}

impl RevertFlow {
    /// Reverting a transaction, and the first action.
    pub fn new() -> (res: (RevertFlow, RevertAction))
        ensures
            res.0.stage == RevertStage::LoadTransaction,
            res.1 is GetTransaction,
    {
        (RevertFlow { stage: RevertStage::LoadTransaction, ys: Vec::new() }, RevertAction::GetTransaction)
    }
}

/// What reverting does on each event.
pub open spec fn revert_step(f: RevertFlow, ev: RevertEvent, g: RevertFlow, a: RevertAction) -> bool {
    match ev {
        RevertEvent::Failed(e) => if f.stage == RevertStage::Finished {
            g == f && a is Unexpected
        } else {
            g.stage == RevertStage::Finished && a == RevertAction::Finish(Err(e))
        },
        RevertEvent::Found(found) => if f.stage == RevertStage::LoadTransaction {
            match found {
                None => g.stage == RevertStage::Finished && a == RevertAction::Finish(Err(Error::TransactionNotFound)),
                Some(t) => if t.direction != TransactionDirection::Outgoing && t.direction != TransactionDirection::Split {
                    g.stage == RevertStage::Finished && a == RevertAction::Finish(Err(Error::InvalidTransactionDirection))
                } else {
                    match t.saga_id {
                        Some(id) => g.stage == RevertStage::Revoke && a == RevertAction::RevokeSaga(id),
                        None => g == (RevertFlow { stage: RevertStage::LoadPendingSpent, ys: t.ys }) && a is ListPendingSpent,
                    }
                },
            }
        } else {
            g == f && a is Unexpected
        },
        RevertEvent::Revoked => if f.stage == RevertStage::Revoke {
            g.stage == RevertStage::Finished && a == RevertAction::Finish(Ok(()))
        } else {
            g == f && a is Unexpected
        },
        RevertEvent::PendingSpent(ps) => if f.stage == RevertStage::LoadPendingSpent {
            let selected = ps@.filter(point_among(f.ys@));
            if selected.len() == 0 {
                g.stage == RevertStage::Finished && a == RevertAction::Finish(Ok(()))
            } else {
                g.stage == RevertStage::CheckSpent && a is CheckSpent && a->CheckSpent_0@ == selected
            }
        } else {
            g == f && a is Unexpected
        },
        RevertEvent::Checked => if f.stage == RevertStage::CheckSpent {
            g.stage == RevertStage::Finished && a == RevertAction::Finish(Ok(()))
        } else {
            g == f && a is Unexpected
        },
    }
}

/// Law: reverting a transaction that the store found: one that is neither
/// outgoing nor a split cannot be reverted (`InvalidTransactionDirection`); an
/// outgoing or split transaction of a send saga is reverted by revoking that
/// saga, whatever its direction; one without a saga goes on to check which of
/// the wallet's pending-spent proofs among its points the mint saw spent. A
/// transaction that the store did not find ends in `TransactionNotFound`.
pub proof fn law_revert_follows_the_transaction(f: RevertFlow, found: Option<Transaction>, g: RevertFlow, a: RevertAction)
    requires
        f.stage == RevertStage::LoadTransaction,
        revert_step(f, RevertEvent::Found(found), g, a),
    ensures
        found is None ==> g.stage == RevertStage::Finished && a == RevertAction::Finish(Err(Error::TransactionNotFound)),
        found is Some ==> {
            let t = found->0;
            let revertible = t.direction == TransactionDirection::Outgoing || t.direction == TransactionDirection::Split;
            &&& !revertible ==> g.stage == RevertStage::Finished
                && a == RevertAction::Finish(Err(Error::InvalidTransactionDirection))
            &&& (revertible && t.saga_id is Some) ==> g.stage == RevertStage::Revoke
                && a == RevertAction::RevokeSaga(t.saga_id->0)
            &&& (revertible && t.saga_id is None) ==> g.stage == RevertStage::LoadPendingSpent
                && g.ys == t.ys && a is ListPendingSpent
        },
{
}

/// Law: a revoked saga, or a check of the spent proofs, ends the reverting
/// well; the pending-spent proofs checked are exactly those among the
/// transaction's points, and with none among them nothing is checked.
pub proof fn law_revert_checks_only_the_transactions_proofs(f: RevertFlow, ev: RevertEvent, g: RevertFlow, a: RevertAction)
    requires
        revert_step(f, ev, g, a),
    ensures
        (f.stage == RevertStage::Revoke && ev is Revoked) ==> a == RevertAction::Finish(Ok(())),
        (f.stage == RevertStage::CheckSpent && ev is Checked) ==> a == RevertAction::Finish(Ok(())),
        (f.stage == RevertStage::LoadPendingSpent && ev is PendingSpent) ==> {
            let selected = ev->PendingSpent_0@.filter(point_among(f.ys@));
            &&& selected.len() == 0 ==> a == RevertAction::Finish(Ok(()))
            &&& selected.len() > 0 ==> a is CheckSpent && a->CheckSpent_0@ == selected
            &&& forall|i: int| 0 <= i < selected.len() ==> (#[trigger] selected[i]).y is Some
                && has_point(f.ys@, selected[i].y->0)
        },
{
    if f.stage == RevertStage::LoadPendingSpent && ev is PendingSpent {
        let ps = ev->PendingSpent_0@;
        assert forall|i: int| 0 <= i < ps.filter(point_among(f.ys@)).len() implies
            (#[trigger] ps.filter(point_among(f.ys@))[i]).y is Some
                && has_point(f.ys@, ps.filter(point_among(f.ys@))[i].y->0) by {
            ps.lemma_filter_pred(point_among(f.ys@), i);
        }
    }
}

impl RevertFlow {
    /// Moves the reverting on by the event `ev`.
    pub fn step(self, ev: RevertEvent) -> (res: (RevertFlow, RevertAction))
        ensures
            revert_step(self, ev, res.0, res.1),
    {
        match ev {
            RevertEvent::Failed(e) => {
                if self.stage == RevertStage::Finished {
                    (self, RevertAction::Unexpected)
                } else {
                    (RevertFlow { stage: RevertStage::Finished, ..self }, RevertAction::Finish(Err(e)))
                }
            },
            RevertEvent::Found(found) => {
                if self.stage != RevertStage::LoadTransaction {
                    return (self, RevertAction::Unexpected);
                }
                match revert_plan(found) {
                    Err(e) => (RevertFlow { stage: RevertStage::Finished, ..self }, RevertAction::Finish(Err(e))),
                    Ok(RevertPlan::RevokeSaga(id)) => (RevertFlow { stage: RevertStage::Revoke, ..self }, RevertAction::RevokeSaga(id)),
                    Ok(RevertPlan::CheckLegacyProofs(ys)) => (RevertFlow { stage: RevertStage::LoadPendingSpent, ys }, RevertAction::ListPendingSpent),
                }
            },
            RevertEvent::Revoked => {
                if self.stage != RevertStage::Revoke {
                    return (self, RevertAction::Unexpected);
                }
                (RevertFlow { stage: RevertStage::Finished, ..self }, RevertAction::Finish(Ok(())))
            },
            RevertEvent::PendingSpent(ps) => {
                if self.stage != RevertStage::LoadPendingSpent {
                    return (self, RevertAction::Unexpected);
                }
                let selected = legacy_proofs_to_check(ps, &self.ys);
                if selected.len() == 0 {
                    (RevertFlow { stage: RevertStage::Finished, ..self }, RevertAction::Finish(Ok(())))
                } else {
                    (RevertFlow { stage: RevertStage::CheckSpent, ..self }, RevertAction::CheckSpent(selected))
                }
            },
            RevertEvent::Checked => {
                if self.stage != RevertStage::CheckSpent {
                    return (self, RevertAction::Unexpected);
                }
                (RevertFlow { stage: RevertStage::Finished, ..self }, RevertAction::Finish(Ok(())))
            },
        }
    }
}

} // verus!
