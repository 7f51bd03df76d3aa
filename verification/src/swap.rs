//! Swapping proofs: the amounts of a swap, the choice of the proofs to send
//! out of a denomination swap, and the reclaiming of proofs after a failed swap.

use vstd::prelude::*;
use vstd::multiset::Multiset;
use vstd::arithmetic::power2::pow2;
use crate::error::Error;
use crate::proofs::{all_points_known, points_of, proofs_ys, require_points};
use crate::types::{copy_proof, Amount, Proof, ProofState, Transaction, TransactionDirection, TransactionKind,
    TransactionStatus, RequestFailure};

verus! {

broadcast use vstd::seq_lib::group_to_multiset_ensures;

// ---------------------------------------------------------------------------
// Choosing the proofs to send out of a denomination swap
// ---------------------------------------------------------------------------

/// The proofs to send and to keep when the proofs `ps` are walked from the last
/// to the first: a proof with a spending condition is left out, a proof whose
/// amount is still wanted (`wanted`) is sent, and any other proof is kept.
pub open spec fn pick_denominations(ps: Seq<Proof>, wanted: Multiset<Amount>) -> (Seq<Proof>, Seq<Proof>)
    decreases ps.len(),
{
    if ps.len() == 0 {
        (Seq::empty(), Seq::empty())
    } else {
        let p = ps.last();
        let rest = ps.drop_last();
        if p.conditional {
            pick_denominations(rest, wanted)
        } else if wanted.count(p.amount) > 0 {
            let r = pick_denominations(rest, wanted.remove(p.amount));
            (seq![p] + r.0, r.1)
        } else {
            let r = pick_denominations(rest, wanted);
            (r.0, seq![p] + r.1)
        }
    }
}

/// The proofs of `ps` without a spending condition.
pub open spec fn unconditioned(ps: Seq<Proof>) -> Seq<Proof> {
    ps.filter(without_condition())
}

/// The predicate "the proof carries no spending condition".
pub open spec fn without_condition() -> spec_fn(Proof) -> bool {
    |p: Proof| !p.conditional
}

/// The amounts of a sequence of proofs.
pub open spec fn amounts_of(ps: Seq<Proof>) -> Seq<Amount> {
    ps.map_values(|p: Proof| p.amount)
}

/// Splits the proofs that a denomination swap gave (`proofs`) into the proofs
/// to send and the proofs to keep. The proofs are walked from the last to the
/// first; one whose secret carries a spending condition is dropped, one whose
/// amount occurs among the amounts still wanted (`amount_split`) is sent and
/// takes that amount off the wanted ones, and any other is kept.
pub fn select_denomination_proofs(proofs: Vec<Proof>, amount_split: Vec<Amount>) -> (res: (Vec<Proof>, Vec<Proof>))
    ensures
        (res.0@, res.1@) == pick_denominations(proofs@, amount_split@.to_multiset()),
{
    let ghost all = proofs@;
    let ghost wanted0 = amount_split@.to_multiset();
    let mut input = proofs;
    let mut wanted = amount_split;
    let mut send: Vec<Proof> = Vec::new();
    let mut keep: Vec<Proof> = Vec::new();
    while input.len() > 0
        invariant
            pick_denominations(all, wanted0) == (
                send@ + pick_denominations(input@, wanted@.to_multiset()).0,
                keep@ + pick_denominations(input@, wanted@.to_multiset()).1,
            ),
        decreases input@.len(),
    {
        let ghost before = input@;
        let ghost m = wanted@.to_multiset();
        let p = input.pop().unwrap();
        assert(input@ == before.drop_last());
        if p.conditional {
            // dropped
        } else {
            let mut idx: usize = 0;
            while idx < wanted.len() && wanted[idx] != p.amount
                invariant
                    idx <= wanted.len(),
                    forall|j: int| 0 <= j < idx ==> wanted@[j] != p.amount,
                decreases wanted.len() - idx,
            {
                idx += 1;
            }
            if idx < wanted.len() {
                assert(wanted@.contains(p.amount));
                let ghost old_wanted = wanted@;
                wanted.remove(idx);
                assert(wanted@.to_multiset() == m.remove(p.amount));
                let ghost r = pick_denominations(input@, wanted@.to_multiset());
                assert(send@.push(p) + r.0 =~= send@ + (seq![p] + r.0));
                send.push(p);
            } else {
                assert(!wanted@.contains(p.amount));
                assert(m.count(p.amount) == 0);
                let ghost r = pick_denominations(input@, wanted@.to_multiset());
                assert(keep@.push(p) + r.1 =~= keep@ + (seq![p] + r.1));
                keep.push(p);
            }
        }
    }
    assert(send@ + Seq::<Proof>::empty() =~= send@);
    assert(keep@ + Seq::<Proof>::empty() =~= keep@);
    (send, keep)
}

/// Law: choosing the proofs to send loses no proof and invents none: the proofs
/// sent and the proofs kept are, together, exactly the proofs without a
/// spending condition.
pub proof fn law_denomination_selection_partitions(ps: Seq<Proof>, wanted: Multiset<Amount>)
    ensures
        (pick_denominations(ps, wanted).0 + pick_denominations(ps, wanted).1).to_multiset()
            == unconditioned(ps).to_multiset(),
    decreases ps.len(),
{
    broadcast use vstd::multiset::group_multiset_axioms;

    if ps.len() == 0 {
        assert(unconditioned(ps) =~= Seq::<Proof>::empty()) by {
            reveal(Seq::filter);
        }
        assert(Seq::<Proof>::empty() + Seq::<Proof>::empty() =~= Seq::<Proof>::empty());
    } else {
        let p = ps.last();
        let rest = ps.drop_last();
        assert(ps =~= rest.push(p));
        rest.lemma_filter_push(p, without_condition());
        if p.conditional {
            law_denomination_selection_partitions(rest, wanted);
        } else if wanted.count(p.amount) > 0 {
            let w2 = wanted.remove(p.amount);
            law_denomination_selection_partitions(rest, w2);
            let r = pick_denominations(rest, w2);
            assert((seq![p] + r.0) + r.1 =~= seq![p] + (r.0 + r.1));
            vstd::seq_lib::lemma_multiset_commutative(seq![p], r.0 + r.1);
            vstd::seq_lib::lemma_seq_union_to_multiset_commutative(seq![p], r.0 + r.1);
            assert((r.0 + r.1) + seq![p] =~= (r.0 + r.1).push(p));
        } else {
            law_denomination_selection_partitions(rest, wanted);
            let r = pick_denominations(rest, wanted);
            vstd::seq_lib::lemma_multiset_commutative(r.0, seq![p] + r.1);
            vstd::seq_lib::lemma_multiset_commutative(seq![p], r.1);
            vstd::seq_lib::lemma_multiset_commutative(r.0, r.1);
            vstd::seq_lib::lemma_multiset_commutative(r.0 + r.1, seq![p]);
            assert((r.0 + r.1) + seq![p] =~= (r.0 + r.1).push(p));
            assert((r.0 + (seq![p] + r.1)).to_multiset() =~= ((r.0 + r.1) + seq![p]).to_multiset());
        }
    }
}

/// Law: the amounts of the proofs sent are among the amounts wanted, each at
/// most as often as it is wanted.
pub proof fn law_denomination_selection_sends_only_wanted(ps: Seq<Proof>, wanted: Multiset<Amount>)
    ensures
        amounts_of(pick_denominations(ps, wanted).0).to_multiset().subset_of(wanted),
    decreases ps.len(),
{
    broadcast use vstd::multiset::group_multiset_axioms;

    if ps.len() == 0 {
        assert(amounts_of(Seq::<Proof>::empty()) =~= Seq::<Amount>::empty());
    } else {
        let p = ps.last();
        let rest = ps.drop_last();
        if p.conditional {
            law_denomination_selection_sends_only_wanted(rest, wanted);
        } else if wanted.count(p.amount) > 0 {
            let w2 = wanted.remove(p.amount);
            law_denomination_selection_sends_only_wanted(rest, w2);
            let r = pick_denominations(rest, w2);
            assert(amounts_of(seq![p] + r.0) =~= seq![p.amount] + amounts_of(r.0));
            vstd::seq_lib::lemma_multiset_commutative(seq![p.amount], amounts_of(r.0));
            assert(seq![p.amount] =~= Seq::<Amount>::empty().push(p.amount));
        } else {
            law_denomination_selection_sends_only_wanted(rest, wanted);
        }
    }
}

// ---------------------------------------------------------------------------
// The amounts of a swap
// ---------------------------------------------------------------------------

/// An optional amount, read as 0 where there is none.
pub open spec fn or_zero(a: Option<Amount>) -> Amount {
    match a {
        Some(x) => x,
        None => 0,
    }
}

/// The change that a swap of proofs worth `total` leaves, where `amount` is to
/// be sent and `fee` paid to the mint.
pub open spec fn swap_change(total: Amount, amount: Option<Amount>, fee: Amount) -> Result<Amount, Error> {
    let wanted = or_zero(amount) + fee;
    if wanted > u64::MAX {
        Err(Error::AmountOverflow)
    } else if total < wanted {
        Err(Error::InsufficientFunds)
    } else {
        Ok((total - wanted) as Amount)
    }
}

/// The amount to send and the change, once the fee that the receiver will pay
/// to redeem the sent proofs (`redeem_fee`) moves from the change to the amount.
pub open spec fn with_redeem_fee(amount: Option<Amount>, change: Amount, redeem_fee: Amount)
    -> Result<(Option<Amount>, Amount), Error>
{
    if amount is Some && amount->0 + redeem_fee > u64::MAX {
        Err(Error::AmountOverflow)
    } else if change < redeem_fee {
        Err(Error::InsufficientFunds)
    } else {
        Ok((
            match amount {
                Some(a) => Some((a + redeem_fee) as Amount),
                None => None,
            },
            (change - redeem_fee) as Amount,
        ))
    }
}

/// The change of a swap of proofs worth `proofs_total`, where `amount` is to be
/// sent and `fee` is what the mint charges for the proofs.
pub fn swap_change_amount(proofs_total: Amount, amount: Option<Amount>, fee: Amount) -> (res: Result<Amount, Error>)
    ensures
        res == swap_change(proofs_total, amount, fee),
{
    let send = match amount {
        Some(a) => a,
        None => 0,
    };
    let to_subtract = match send.checked_add(fee) {
        Some(v) => v,
        None => return Err(Error::AmountOverflow),
    };
    match proofs_total.checked_sub(to_subtract) {
        Some(c) => Ok(c),
        None => Err(Error::InsufficientFunds),
    }
}

/// Moves the fee that the receiver pays to redeem the sent proofs from the
/// change to the amount sent.
pub fn include_redeem_fee(amount: Option<Amount>, change: Amount, redeem_fee: Amount)
    -> (res: Result<(Option<Amount>, Amount), Error>)
    ensures
        res == with_redeem_fee(amount, change, redeem_fee),
{
    let send = match amount {
        Some(a) => match a.checked_add(redeem_fee) {
            Some(v) => Some(v),
            None => return Err(Error::AmountOverflow),
        },
        None => None,
    };
    match change.checked_sub(redeem_fee) {
        Some(c) => Ok((send, c)),
        None => Err(Error::InsufficientFunds),
    }
}

/// Law: a swap keeps the value of the proofs: what is sent, the change and the
/// fee add up to the value swapped, with or without the redeem fee moved. (With
/// nothing to send, the redeem fee of no proof is 0; a fee taken from the change
/// with nothing to send would leave the wallet.)
pub proof fn law_swap_conserves_value(total: Amount, amount: Option<Amount>, fee: Amount, redeem_fee: Amount)
    requires
        amount is None ==> redeem_fee == 0,
    ensures
        swap_change(total, amount, fee) is Ok ==>
            or_zero(amount) + swap_change(total, amount, fee)->Ok_0 + fee == total,
        swap_change(total, amount, fee) is Ok
            && with_redeem_fee(amount, swap_change(total, amount, fee)->Ok_0, redeem_fee) is Ok ==> {
            let r = with_redeem_fee(amount, swap_change(total, amount, fee)->Ok_0, redeem_fee)->Ok_0;
            or_zero(r.0) + r.1 + fee == total
        },
{
    if swap_change(total, amount, fee) is Ok {
        let change = swap_change(total, amount, fee)->Ok_0;
        assert(or_zero(amount) + change + fee == total);
        if with_redeem_fee(amount, change, redeem_fee) is Ok {
            let r = with_redeem_fee(amount, change, redeem_fee)->Ok_0;
            assert(r.1 == change - redeem_fee);
            match amount {
                Some(a) => {
                    assert(a + redeem_fee <= u64::MAX);
                    assert(r.0 == Some((a + redeem_fee) as Amount));
                    assert(or_zero(r.0) == a + redeem_fee);
                },
                None => {
                    assert(r.0 == None::<Amount>);
                },
            }
            assert(or_zero(r.0) + r.1 + fee == total);
        }
    }
}

/// The number of secrets that a swap derives from the wallet's seed: only the
/// change where the sent proofs carry spending conditions, else the proofs sent
/// and the change. `send_count` and `change_count` are the numbers of proofs
/// that the amount sent and the change split into.
pub fn swap_secrets_needed(has_conditions: bool, send_count: usize, change_count: usize) -> (res: u32)
    requires
        has_conditions || (send_count as u32) + (change_count as u32) <= u32::MAX,
    ensures
        res == if has_conditions {
            change_count as u32
        } else {
            ((send_count as u32) + (change_count as u32)) as u32
        },
{
    if has_conditions {
        change_count as u32
    } else {
        send_count as u32 + change_count as u32
    }
}

/// The first counter value of the range that the store reserved, where
/// `new_counter` is the counter after reserving `needed` values; 0 where
/// nothing was reserved.
pub open spec fn reserved_start(needed: u32, new_counter: u32) -> u32 {
    if needed > 0 { (new_counter - needed) as u32 } else { 0 }
}

/// The first counter value of the range that the store reserved for a swap,
/// where `new_counter` is the counter after reserving `needed` values.
pub fn first_reserved_counter(needed: u32, new_counter: u32) -> (res: u32)
    requires
        needed > 0 ==> needed <= new_counter,
    ensures
        res == reserved_start(needed, new_counter),
{
    if needed > 0 {
        new_counter - needed
    } else {
        0
    }
}

/// The counter to derive the change secrets from, after `used` secrets were
/// derived from `count` for the proofs to send.
pub fn advance_counter(count: u32, used: usize) -> (res: u32)
    requires
        count + (used as u32) <= u32::MAX,
    ensures
        res == count + (used as u32),
{
    count + used as u32
}

/// The number of secrets that a swap derived from the seed and that the keyset
/// counter moves by: only the change where the sent proofs carry spending
/// conditions, else the proofs sent and the change.
pub fn derived_secret_count(has_conditions: bool, send_len: usize, change_len: usize) -> (res: u32)
    requires
        has_conditions || send_len + change_len <= usize::MAX,
    ensures
        res == if has_conditions { change_len as u32 } else { (change_len + send_len) as u32 },
{
    if has_conditions {
        change_len as u32
    } else {
        (change_len + send_len) as u32
    }
}

/// The change of a denomination swap of proofs worth `proofs_total`, where
/// `amount` is to be sent and `fee` is what the mint charges for the proofs.
pub fn denomination_change_amount(proofs_total: Amount, amount: Option<Amount>, fee: Amount) -> (res: Amount)
    requires
        or_zero(amount) + fee <= proofs_total,
    ensures
        res == proofs_total - or_zero(amount) - fee,
{
    let send = match amount {
        Some(a) => a,
        None => 0,
    };
    proofs_total - send - fee
}

/// Moves the redeem fee from the change to the amount sent, in a denomination
/// swap.
pub fn denomination_include_redeem_fee(amount: Option<Amount>, change: Amount, redeem_fee: Amount)
    -> (res: (Option<Amount>, Amount))
    requires
        amount is Some ==> amount->0 + redeem_fee <= u64::MAX,
        redeem_fee <= change,
    ensures
        with_redeem_fee(amount, change, redeem_fee) == Ok::<(Option<Amount>, Amount), Error>(res),
{
    let send = match amount {
        Some(a) => Some(a + redeem_fee),
        None => None,
    };
    (send, change - redeem_fee)
}

/// Law: a denomination swap keeps the value of the proofs: what is sent, the
/// change and the fee add up to the value swapped, with or without the redeem
/// fee moved (with nothing to send, the redeem fee of no proof is 0).
pub proof fn law_denomination_swap_conserves_value(total: Amount, amount: Option<Amount>, fee: Amount, redeem_fee: Amount)
    requires
        or_zero(amount) + fee <= total,
        amount is None ==> redeem_fee == 0,
        amount is Some ==> amount->0 + redeem_fee <= u64::MAX,
        redeem_fee <= total - or_zero(amount) - fee,
    ensures
        ({
            let change = (total - or_zero(amount) - fee) as Amount;
            let r = with_redeem_fee(amount, change, redeem_fee);
            &&& r is Ok
            &&& or_zero(r->Ok_0.0) + r->Ok_0.1 + fee == total
        }),
{
    let change = (total - or_zero(amount) - fee) as Amount;
    let r = with_redeem_fee(amount, change, redeem_fee);
    match amount {
        Some(a) => {
            assert(r->Ok_0.0 == Some((a + redeem_fee) as Amount));
            assert(or_zero(r->Ok_0.0) == a + redeem_fee);
        },
        None => {
            assert(r->Ok_0.0 == None::<Amount>);
        },
    }
}

/// The number of secrets that a denomination swap reserves: the amount sent,
/// taken as a count, and the number of proofs that the change splits into.
pub fn denomination_secrets_needed(send_amount: Option<Amount>, change_count: usize) -> (res: u32)
    requires
        (or_zero(send_amount) as u32) + (change_count as u32) <= u32::MAX,
    ensures
        res == (or_zero(send_amount) as u32) + (change_count as u32),
{
    let send = match send_amount {
        Some(a) => a,
        None => 0,
    };
    send as u32 + change_count as u32
}

// ---------------------------------------------------------------------------
// Reclaiming the proofs of a failed swap
// ---------------------------------------------------------------------------

/// The proofs `ps[i]` whose state `states[i]` is unspent, for `i < n`, in order.
pub open spec fn unspent_prefix(ps: Seq<Proof>, states: Seq<ProofState>, n: int) -> Seq<Proof>
    decreases n,
{
    if n <= 0 {
        Seq::empty()
    } else {
        let r = unspent_prefix(ps, states, n - 1);
        if states[n - 1] == ProofState::Unspent {
            r.push(ps[n - 1])
        } else {
            r
        }
    }
}

/// The proofs kept by `unspent_prefix` are inputs reported unspent at their
/// position, and none is kept only where no position up to `n` is unspent.
pub proof fn lemma_unspent_prefix_members(ps: Seq<Proof>, states: Seq<ProofState>, n: int)
    requires
        0 <= n <= ps.len(),
        n <= states.len(),
    ensures
        unspent_prefix(ps, states, n).len() <= n,
        forall|j: int| 0 <= j < unspent_prefix(ps, states, n).len() ==> exists|i: int|
            0 <= i < n && states[i] == ProofState::Unspent && #[trigger] unspent_prefix(ps, states, n)[j] == ps[i],
        (unspent_prefix(ps, states, n).len() == 0) <==> (forall|i: int| 0 <= i < n ==> states[i] != ProofState::Unspent),
    decreases n,
{
    if n > 0 {
        lemma_unspent_prefix_members(ps, states, n - 1);
        let r = unspent_prefix(ps, states, n - 1);
        if states[n - 1] == ProofState::Unspent {
            assert forall|j: int| 0 <= j < unspent_prefix(ps, states, n).len() implies exists|i: int|
                0 <= i < n && states[i] == ProofState::Unspent && #[trigger] unspent_prefix(ps, states, n)[j] == ps[i] by {
                if j < r.len() {
                    assert(unspent_prefix(ps, states, n)[j] == r[j]);
                    let i0 = choose|i: int| 0 <= i < n - 1 && states[i] == ProofState::Unspent && r[j] == ps[i];
                    assert(0 <= i0 < n && states[i0] == ProofState::Unspent && unspent_prefix(ps, states, n)[j] == ps[i0]);
                } else {
                    assert(unspent_prefix(ps, states, n)[j] == ps[n - 1]);
                }
            }
        } else {
            assert forall|j: int| 0 <= j < unspent_prefix(ps, states, n).len() implies exists|i: int|
                0 <= i < n && states[i] == ProofState::Unspent && #[trigger] unspent_prefix(ps, states, n)[j] == ps[i] by {
                let i0 = choose|i: int| 0 <= i < n - 1 && states[i] == ProofState::Unspent && r[j] == ps[i];
                assert(0 <= i0 < n && states[i0] == ProofState::Unspent && unspent_prefix(ps, states, n)[j] == ps[i0]);
            }
        }
    }
}

/// The proofs that the mint reports unspent: each proof is paired with the
/// state at the same position, as far as both lists go.
pub open spec fn unspent_proofs(ps: Seq<Proof>, states: Seq<ProofState>) -> Seq<Proof> {
    unspent_prefix(ps, states, if ps.len() <= states.len() { ps.len() as int } else { states.len() as int })
}

/// The proofs whose state, at the same position of `states`, is unspent.
pub fn select_unspent(proofs: Vec<Proof>, states: &Vec<ProofState>) -> (res: Vec<Proof>)
    ensures
        res@ == unspent_proofs(proofs@, states@),
{
    let ghost orig = proofs@;
    let n = if proofs.len() <= states.len() { proofs.len() } else { states.len() };
    let mut input = proofs;
    let mut out: Vec<Proof> = Vec::new();
    let mut i: usize = 0;
    while i < n
        invariant
            n <= orig.len(),
            n <= states@.len(),
            n == (if orig.len() <= states@.len() { orig.len() as int } else { states@.len() as int }),
            i <= n,
            input@ == orig.skip(i as int),
            out@ == unspent_prefix(orig, states@, i as int),
        decreases n - i,
    {
        let p = input.remove(0);
        assert(p == orig[i as int]);
        if states[i] == ProofState::Unspent {
            out.push(p);
        }
        i += 1;
    }
    out
}

/// What to do after a swap request failed: the mint's answer on the state of
/// the input proofs decides whether they are swapped back into the wallet.
pub enum ReclaimAction {
    /// None of the input proofs is unspent: nothing to do.
    NothingToReclaim,
    /// Swap these unspent input proofs back into the wallet.
    SwapBack(Vec<Proof>),
    /// The state could not be checked: record the transaction and end with this error.
    RecordAndFail(Error),
}

/// Decides how to reclaim the input proofs of a failed swap, from the mint's
/// answer (`checked`) to a state check of those proofs.
pub fn reclaim_action(input: Vec<Proof>, checked: Result<Vec<ProofState>, Error>) -> (res: ReclaimAction)
    ensures
        match checked {
            Ok(states) => {
                let u = unspent_proofs(input@, states@);
                if u.len() == 0 {
                    res is NothingToReclaim
                } else {
                    res is SwapBack && res->SwapBack_0@ == u
                }
            },
            Err(e) => res == ReclaimAction::RecordAndFail(e),
        },
{
    match checked {
        Ok(states) => {
            let unspent = select_unspent(input, &states);
            if unspent.len() == 0 {
                ReclaimAction::NothingToReclaim
            } else {
                ReclaimAction::SwapBack(unspent)
            }
        },
        Err(e) => ReclaimAction::RecordAndFail(e),
    }
}

// ---------------------------------------------------------------------------
// A swap to a denomination
// ---------------------------------------------------------------------------

/// The amounts that a denomination swap splits its amount by: the powers of two
/// from `1` to `2^31`.
pub fn power_of_two_amounts() -> (res: Vec<Amount>)
    ensures
        res@.len() == 32,
        forall|i: int| 0 <= i < 32 ==> res@[i] == pow2(i as nat),
{
    let mut out: Vec<Amount> = Vec::new();
    let mut v: Amount = 1;
    let mut i: usize = 0;
    proof {
        vstd::arithmetic::power2::lemma2_to64();
    }
    while i < 32
        invariant
            i <= 32,
            out@.len() == i,
            v == pow2(i as nat),
            pow2(32) == 0x1_0000_0000,
            forall|j: int| 0 <= j < i ==> out@[j] == pow2(j as nat),
        decreases 32 - i,
    {
        out.push(v);
        proof {
            vstd::arithmetic::power2::lemma_pow2_strictly_increases(i as nat, 32);
            vstd::arithmetic::power2::lemma_pow2_unfold((i + 1) as nat);
        }
        v = v * 2;
        i += 1;
    }
    out
}

/// The amounts wanted of a denomination swap: `amount` proofs of `denomination`.
pub fn denomination_target(denomination: Amount, amount: Amount) -> (res: Vec<Amount>)
    ensures
        res@.len() == amount as usize,
        forall|i: int| 0 <= i < res@.len() ==> res@[i] == denomination,
{
    let n = amount as usize;
    let mut out: Vec<Amount> = Vec::new();
    let mut i: usize = 0;
    while i < n
        invariant
            i <= n,
            out@.len() == i,
            forall|j: int| 0 <= j < i ==> out@[j] == denomination,
        decreases n - i,
    {
        out.push(denomination);
        i += 1;
    }
    out
}

/// The amount that a denomination swap records for its transaction.
pub const DENOMINATION_SWAP_RECORDED_AMOUNT: Amount = 32;

/// The record of a denomination swap before the mint answers: a split of the
/// input proofs (points `input_ys`), marked failed until the swap succeeds.
pub fn denomination_swap_transaction(
    mint_url: String,
    unit: String,
    fee: Amount,
    input_ys: Vec<String>,
    token: String,
    now: u64,
) -> (res: Transaction)
    ensures
        res.mint_url == mint_url,
        res.direction == TransactionDirection::Split,
        res.kind == TransactionKind::Cashu,
        res.amount == DENOMINATION_SWAP_RECORDED_AMOUNT,
        res.fee == fee,
        res.unit == unit,
        res.ys == input_ys,
        res.token == token,
        res.status == TransactionStatus::Failed,
        res.timestamp == now,
        res.memo is None,
        res.metadata@.len() == 0,
        res.quote_id is None,
        res.payment_request is None,
        res.payment_proof is None,
        res.payment_method is None,
        res.saga_id is None,
{
    Transaction {
        mint_url,
        direction: TransactionDirection::Split,
        kind: TransactionKind::Cashu,
        amount: DENOMINATION_SWAP_RECORDED_AMOUNT,
        fee,
        unit,
        ys: input_ys,
        token,
        status: TransactionStatus::Failed,
        timestamp: now,
        memo: None,
        metadata: Vec::new(),
        quote_id: None,
        payment_request: None,
        payment_proof: None,
        payment_method: None,
        saga_id: None,
    }
}

/// What a denomination swap leaves once the mint signed the new proofs.
pub struct DenominationSwapOutcome {
    /// The proofs to hand out, where an amount was asked for.
    pub send: Option<Vec<Proof>>,
    /// The proofs to store as unspent: the proofs to send, then the change.
    pub added: Vec<Proof>,
    /// The points of the input proofs, to remove from the store.
    pub deleted_ys: Vec<String>,
}

/// The proofs to send and to keep of a denomination swap.
pub open spec fn denomination_split(amount: Option<Amount>, post_swap: Seq<Proof>, amount_split: Seq<Amount>)
    -> (Seq<Proof>, Seq<Proof>)
{
    if amount is Some {
        pick_denominations(post_swap, amount_split.to_multiset())
    } else {
        (Seq::empty(), post_swap)
    }
}

/// Settles a denomination swap: where an amount was asked for, the proofs that
/// the mint signed (`post_swap`) are split into the proofs to send and the change
/// by `select_denomination_proofs`, else all of them are change. Every proof to
/// store, and every input proof, needs a known point (`NoValidPoint` otherwise).
pub fn settle_denomination_swap(
    amount: Option<Amount>,
    post_swap: Vec<Proof>,
    amount_split: Vec<Amount>,
    input: &Vec<Proof>,
) -> (res: Result<DenominationSwapOutcome, Error>)
    ensures
        ({
            let (sent, kept) = denomination_split(amount, post_swap@, amount_split@);
            if all_points_known(sent) && all_points_known(kept) && all_points_known(input@) {
                &&& res is Ok
                &&& res->Ok_0.added@ == sent + kept
                &&& res->Ok_0.deleted_ys@ == points_of(input@)
                &&& (amount is Some ==> res->Ok_0.send is Some && res->Ok_0.send->0@ == sent)
                &&& (amount is None ==> res->Ok_0.send is None)
            } else {
                res == Err::<DenominationSwapOutcome, Error>(Error::NoValidPoint)
            }
        }),
{
    let (send, keep) = match amount {
        Some(_) => select_denomination_proofs(post_swap, amount_split),
        None => (Vec::new(), post_swap),
    };
    let ghost sent = send@;
    let ghost kept = keep@;
    match require_points(&send) {
        Ok(()) => {},
        Err(e) => return Err(e),
    }
    match require_points(&keep) {
        Ok(()) => {},
        Err(e) => return Err(e),
    }
    let deleted_ys = match proofs_ys(input) {
        Ok(ys) => ys,
        Err(e) => return Err(e),
    };
    let mut added: Vec<Proof> = Vec::new();
    let send_out = match amount {
        Some(_) => {
            let mut to_send = send;
            let mut copy: Vec<Proof> = Vec::new();
            // the sent proofs are stored too: move them into `added` and keep a copy
            let mut i: usize = 0;
            while i < to_send.len()
                invariant
                    i <= to_send@.len(),
                    to_send@ == sent,
                    added@ == sent.take(i as int),
                    copy@ == sent.take(i as int),
                decreases to_send@.len() - i,
            {
                let p = copy_proof(&to_send[i]);
                let q = copy_proof(&to_send[i]);
                added.push(p);
                copy.push(q);
                assert(sent.take(i + 1) =~= sent.take(i as int).push(sent[i as int]));
                i += 1;
            }
            assert(sent.take(i as int) =~= sent);
            Some(copy)
        },
        None => None,
    };
    let mut change = keep;
    let ghost added_before = added@;
    added.append(&mut change);
    assert(added@ =~= sent + kept);
    Ok(DenominationSwapOutcome { send: send_out, added, deleted_ys })
}

} // verus!
