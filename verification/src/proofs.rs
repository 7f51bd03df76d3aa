//! What the wallet computes over a list of proofs: their total and their points.

use vstd::prelude::*;
use crate::error::Error;
use crate::types::{Amount, Proof, RequestFailure, Transaction, TransactionStatus, sum_amounts};

verus! {

proof fn lemma_sum_take_monotone(s: Seq<Proof>, k: int)
    requires
        0 <= k <= s.len(),
    ensures
        sum_amounts(s.take(k)) <= sum_amounts(s),
    decreases s.len() - k,
{
    if k < s.len() {
        lemma_sum_take_monotone(s, k + 1);
        assert(s.take(k + 1).drop_last() =~= s.take(k));
    } else {
        assert(s.take(k) =~= s);
    }
}

/// The total value of the proofs; `AmountOverflow` where it does not fit in 64 bits.
pub fn total_amount(proofs: &Vec<Proof>) -> (res: Result<Amount, Error>)
    ensures
        sum_amounts(proofs@) <= u64::MAX ==> res == Ok::<Amount, Error>(sum_amounts(proofs@) as Amount),
        sum_amounts(proofs@) > u64::MAX ==> res == Err::<Amount, Error>(Error::AmountOverflow),
{
    let mut total: Amount = 0;
    let mut i: usize = 0;
    while i < proofs.len()
        invariant
            i <= proofs@.len(),
            total == sum_amounts(proofs@.take(i as int)),
        decreases proofs@.len() - i,
    {
        assert(proofs@.take(i + 1).drop_last() =~= proofs@.take(i as int));
        match total.checked_add(proofs[i].amount) {
            Some(t) => {
                total = t;
            },
            None => {
                proof {
                    lemma_sum_take_monotone(proofs@, i + 1);
                }
                return Err(Error::AmountOverflow);
            },
        }
        i += 1;
    }
    assert(proofs@.take(i as int) =~= proofs@);
    Ok(total)
}

/// Every proof has a known curve point.
pub open spec fn all_points_known(ps: Seq<Proof>) -> bool {
    forall|i: int| 0 <= i < ps.len() ==> (#[trigger] ps[i]).y is Some
}

/// The curve points of the proofs, in their order.
pub open spec fn points_of(ps: Seq<Proof>) -> Seq<String> {
    ps.map_values(|p: Proof| p.y->0)
}

/// The curve points of the proofs; `NoValidPoint` where one of them is not known.
pub fn proofs_ys(proofs: &Vec<Proof>) -> (res: Result<Vec<String>, Error>)
    ensures
        all_points_known(proofs@) ==> res is Ok && res->Ok_0@ == points_of(proofs@),
        !all_points_known(proofs@) ==> res == Err::<Vec<String>, Error>(Error::NoValidPoint),
{
    let mut ys: Vec<String> = Vec::new();
    let mut i: usize = 0;
    while i < proofs.len()
        invariant
            i <= proofs@.len(),
            all_points_known(proofs@.take(i as int)),
            ys@ == points_of(proofs@.take(i as int)),
        decreases proofs@.len() - i,
    {
        match &proofs[i].y {
            Some(y) => {
                ys.push(y.clone());
                assert(points_of(proofs@.take(i + 1)) =~= points_of(proofs@.take(i as int)).push(*y));
                assert(all_points_known(proofs@.take(i + 1))) by {
                    assert forall|j: int| 0 <= j < i + 1 implies (#[trigger] proofs@.take(i + 1)[j]).y is Some by {
                        if j < i {
                            assert(proofs@.take(i + 1)[j] == proofs@.take(i as int)[j]);
                        }
                    }
                }
            },
            None => {
                assert(proofs@[i as int].y is None);
                return Err(Error::NoValidPoint);
            },
        }
        i += 1;
    }
    assert(proofs@.take(i as int) =~= proofs@);
    Ok(ys)
}

/// Checks that every proof has a known curve point, as storing a proof needs;
/// `NoValidPoint` where one has none.
pub fn require_points(proofs: &Vec<Proof>) -> (res: Result<(), Error>)
    ensures
        all_points_known(proofs@) ==> res is Ok,
        !all_points_known(proofs@) ==> res == Err::<(), Error>(Error::NoValidPoint),
{
    let mut i: usize = 0;
    while i < proofs.len()
        invariant
            i <= proofs@.len(),
            forall|j: int| 0 <= j < i ==> (#[trigger] proofs@[j]).y is Some,
        decreases proofs@.len() - i,
    {
        if proofs[i].y.is_none() {
            return Err(Error::NoValidPoint);
        }
        i += 1;
    }
    Ok(())
}

/// The error that a failed request to the mint ends in: the mint's own error,
/// or `Timeout` where it did not answer in time.
pub fn request_failure_error(failure: RequestFailure) -> (res: Error)
    ensures
        match failure {
            RequestFailure::Rejected(e) => res == e,
            RequestFailure::TimedOut => res == Error::Timeout,
        },
{
    match failure {
        RequestFailure::Rejected(e) => e,
        RequestFailure::TimedOut => Error::Timeout,
    }
}

/// The transaction with its status set to `status`, all else unchanged.
pub fn with_status(tx: Transaction, status: TransactionStatus) -> (res: Transaction)
    ensures
        res == (Transaction { status, ..tx }),
{
    let mut tx = tx;
    tx.status = status;
    tx
}

} // verus!
