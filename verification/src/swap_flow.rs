//! Preparing and settling swaps, as machines of decisions: the caller performs
//! each action (a store update, a request to the mint, a step of the
//! blind-signature cryptography) and hands back what it gave as the next event.

use vstd::prelude::*;
use crate::error::Error;
use crate::proofs::{all_points_known, points_of, proofs_ys, request_failure_error, total_amount};
use crate::swap::{
    advance_counter, first_reserved_counter, reserved_start, denomination_change_amount, denomination_include_redeem_fee, denomination_secrets_needed,
    denomination_split, denomination_swap_transaction, derived_secret_count, include_redeem_fee, or_zero,
    reclaim_action, settle_denomination_swap, swap_change, swap_change_amount, swap_secrets_needed,
    unspent_proofs, unspent_prefix, with_redeem_fee, ReclaimAction, DENOMINATION_SWAP_RECORDED_AMOUNT,
};
use crate::types::{Amount, Proof, ProofState, RequestFailure, Transaction, TransactionDirection, TransactionKind,
    TransactionStatus, sum_amounts};

verus! {

/// What a prepared swap needs to be sent and settled.
pub struct SwapPlan {
    /// How many secrets were derived from the seed (the keyset counter moves by this).
    pub derived_secret_count: u32,
    /// The fee that the mint charges for the input proofs.
    pub fee: Amount,
    /// The amount to send, if any.
    pub send_amount: Option<Amount>,
    /// The change.
    pub change_amount: Amount,
}

// ---------------------------------------------------------------------------
// Preparing a swap
// ---------------------------------------------------------------------------

#[derive(Debug, Clone, Copy, PartialEq, Eq, Structural)]
pub enum CreateSwapStage {
    Reserve,
    SplitForFee,
    RedeemFee,
    ChangeTarget,
    CountSplits,
    ReserveCounter,
    BuildSend,
    BuildChange,
    BuildConditioned,
    Finished,
}

pub enum CreateSwapAction {
    /// Mark the proofs of these points reserved.
    ReserveProofs(Vec<String>),
    /// Count the proofs that this amount splits into, by the standard split.
    CountSplit(Amount),
    /// Ask the keyset's fee for redeeming this many proofs.
    RedeemFee(u64),
    /// Choose how to split the change (the wallet's refill target).
    DetermineChangeTarget(Amount),
    /// Count the proofs that the amount to send (where one is needed) and the
    /// change split into.
    CountSplits { send: Option<Amount>, change: Amount },
    /// Move the keyset counter by this many secrets.
    ReserveCounter(u32),
    /// Derive the secrets of the amount to send from the seed, from `counter` on.
    BuildSendSecrets { counter: u32, amount: Amount },
    /// Derive the secrets of the change from the seed, from `counter` on.
    BuildChangeSecrets { counter: u32, amount: Amount },
    /// Make the secrets of the amount to send with the spending conditions.
    BuildConditionedSecrets(Amount),
    /// Preparing is over.
    Finish(Result<SwapPlan, Error>),
    /// The event does not belong to the stage: nothing happens.
    Unexpected,
}

pub enum CreateSwapEvent {
    Reserved,
    /// The number of proofs of the split.
    SplitCounted(usize),
    /// The keyset's redeem fee.
    RedeemFeeIs(Amount),
    ChangeTargetSet,
    /// The numbers of proofs of the amount to send and of the change.
    SplitsCounted { send: usize, change: usize },
    /// The counter after the reservation.
    CounterReserved(u32),
    /// The number of secrets made for the amount to send.
    SendBuilt(usize),
    /// The number of secrets made for the change.
    ChangeBuilt(usize),
    ConditionedBuilt,
    /// The action failed with this error.
    Failed(Error),
}

/// The state of a swap being prepared.
pub struct CreateSwapFlow {
    pub stage: CreateSwapStage,
    pub amount: Option<Amount>,
    pub has_conditions: bool,
    pub include_fees: bool,
    /// Whether the caller chose how to split the change.
    pub target_given: bool,
    pub fee: Amount,
    pub total: Amount,
    pub send: Option<Amount>,
    pub change: Amount,
    pub needed: u32,
    pub counter: u32,
    pub send_len: usize,
    pub derived: u32,
}

/// The plan of a prepared swap.
pub open spec fn swap_plan(f: CreateSwapFlow) -> SwapPlan {
    SwapPlan { derived_secret_count: f.derived, fee: f.fee, send_amount: f.send, change_amount: f.change }
}

/// The step after the fees are settled: count the splits, once the change
/// target is chosen.
pub open spec fn after_fees(f: CreateSwapFlow, send: Option<Amount>, change: Amount) -> (CreateSwapFlow, CreateSwapAction) {
    let g = CreateSwapFlow { send, change, ..f };
    if f.target_given {
        (CreateSwapFlow { stage: CreateSwapStage::CountSplits, ..g },
         CreateSwapAction::CountSplits { send: if f.has_conditions { None } else { Some(or_zero(send)) }, change })
    } else {
        (CreateSwapFlow { stage: CreateSwapStage::ChangeTarget, ..g }, CreateSwapAction::DetermineChangeTarget(change))
    }
}

/// The first secrets to make: the change where the sent proofs carry spending
/// conditions, else the amount to send.
pub open spec fn build_first(f: CreateSwapFlow) -> (CreateSwapFlow, CreateSwapAction) {
    if f.has_conditions {
        (CreateSwapFlow { stage: CreateSwapStage::BuildChange, ..f },
         CreateSwapAction::BuildChangeSecrets { counter: f.counter, amount: f.change })
    } else {
        (CreateSwapFlow { stage: CreateSwapStage::BuildSend, ..f },
         CreateSwapAction::BuildSendSecrets { counter: f.counter, amount: or_zero(f.send) })
    }
}

/// What preparing a swap does on each event.
pub open spec fn create_swap_next(f: CreateSwapFlow, ev: CreateSwapEvent) -> (CreateSwapFlow, CreateSwapAction) {
    let finished = CreateSwapFlow { stage: CreateSwapStage::Finished, ..f };
    match ev {
        CreateSwapEvent::Failed(e) => if f.stage == CreateSwapStage::Finished {
            (f, CreateSwapAction::Unexpected)
        } else {
            (finished, CreateSwapAction::Finish(Err(e)))
        },
        CreateSwapEvent::Reserved => if f.stage == CreateSwapStage::Reserve {
            match swap_change(f.total, f.amount, f.fee) {
                Err(e) => (finished, CreateSwapAction::Finish(Err(e))),
                Ok(c) => if f.include_fees {
                    (CreateSwapFlow { stage: CreateSwapStage::SplitForFee, change: c, ..f },
                     CreateSwapAction::CountSplit(or_zero(f.amount)))
                } else {
                    after_fees(f, f.amount, c)
                },
            }
        } else {
            (f, CreateSwapAction::Unexpected)
        },
        CreateSwapEvent::SplitCounted(n) => if f.stage == CreateSwapStage::SplitForFee {
            (CreateSwapFlow { stage: CreateSwapStage::RedeemFee, ..f }, CreateSwapAction::RedeemFee(n as u64))
        } else {
            (f, CreateSwapAction::Unexpected)
        },
        CreateSwapEvent::RedeemFeeIs(r) => if f.stage == CreateSwapStage::RedeemFee {
            match with_redeem_fee(f.amount, f.change, r) {
                Err(e) => (finished, CreateSwapAction::Finish(Err(e))),
                Ok((s, c)) => after_fees(f, s, c),
            }
        } else {
            (f, CreateSwapAction::Unexpected)
        },
        CreateSwapEvent::ChangeTargetSet => if f.stage == CreateSwapStage::ChangeTarget {
            (CreateSwapFlow { stage: CreateSwapStage::CountSplits, ..f },
             CreateSwapAction::CountSplits { send: if f.has_conditions { None } else { Some(or_zero(f.send)) }, change: f.change })
        } else {
            (f, CreateSwapAction::Unexpected)
        },
        CreateSwapEvent::SplitsCounted { send, change } => if f.stage == CreateSwapStage::CountSplits {
            let needed: u32 = if f.has_conditions { change as u32 } else { ((send as u32) + (change as u32)) as u32 };
            if needed > 0 {
                (CreateSwapFlow { stage: CreateSwapStage::ReserveCounter, needed, ..f }, CreateSwapAction::ReserveCounter(needed))
            } else {
                build_first(CreateSwapFlow { needed: 0, counter: 0, ..f })
            }
        } else {
            (f, CreateSwapAction::Unexpected)
        },
        CreateSwapEvent::CounterReserved(nc) => if f.stage == CreateSwapStage::ReserveCounter {
            build_first(CreateSwapFlow { counter: reserved_start(f.needed, nc), ..f })
        } else {
            (f, CreateSwapAction::Unexpected)
        },
        CreateSwapEvent::SendBuilt(len) => if f.stage == CreateSwapStage::BuildSend {
            let counter = (f.counter + (len as u32)) as u32;
            (CreateSwapFlow { stage: CreateSwapStage::BuildChange, send_len: len, counter, ..f },
             CreateSwapAction::BuildChangeSecrets { counter, amount: f.change })
        } else {
            (f, CreateSwapAction::Unexpected)
        },
        CreateSwapEvent::ChangeBuilt(len) => if f.stage == CreateSwapStage::BuildChange {
            if f.has_conditions {
                (CreateSwapFlow { stage: CreateSwapStage::BuildConditioned, derived: len as u32, ..f },
                 CreateSwapAction::BuildConditionedSecrets(or_zero(f.send)))
            } else {
                let g = CreateSwapFlow { stage: CreateSwapStage::Finished, derived: (len + f.send_len) as u32, ..f };
                (g, CreateSwapAction::Finish(Ok(swap_plan(g))))
            }
        } else {
            (f, CreateSwapAction::Unexpected)
        },
        CreateSwapEvent::ConditionedBuilt => if f.stage == CreateSwapStage::BuildConditioned {
            (finished, CreateSwapAction::Finish(Ok(swap_plan(f))))
        } else {
            (f, CreateSwapAction::Unexpected)
        },
    }
}

/// The events that keep the wallet's arithmetic in range: no count or counter
/// overflows.
pub open spec fn create_swap_event_allowed(f: CreateSwapFlow, ev: CreateSwapEvent) -> bool {
    match ev {
        CreateSwapEvent::SplitsCounted { send, change } =>
            (f.stage == CreateSwapStage::CountSplits && !f.has_conditions) ==> (send as u32) + (change as u32) <= u32::MAX,
        CreateSwapEvent::CounterReserved(nc) => f.stage == CreateSwapStage::ReserveCounter ==> f.needed <= nc,
        CreateSwapEvent::SendBuilt(len) => f.stage == CreateSwapStage::BuildSend ==> f.counter + (len as u32) <= u32::MAX,
        CreateSwapEvent::ChangeBuilt(len) =>
            (f.stage == CreateSwapStage::BuildChange && !f.has_conditions) ==> len + f.send_len <= usize::MAX,
        _ => true,
    }
}

impl CreateSwapFlow {
    /// Preparing a swap of the proofs `proofs`, whose fee is `fee`, sending
    /// `amount`: the proofs must have a total (`AmountOverflow`) and known points
    /// (`NoValidPoint`); then they are reserved.
    pub fn new(
        amount: Option<Amount>,
        has_conditions: bool,
        include_fees: bool,
        target_given: bool,
        proofs: &Vec<Proof>,
        fee: Amount,
    ) -> (res: (CreateSwapFlow, CreateSwapAction))
        ensures
            sum_amounts(proofs@) > u64::MAX ==> res.0.stage == CreateSwapStage::Finished
                && res.1 == CreateSwapAction::Finish(Err(Error::AmountOverflow)),
            sum_amounts(proofs@) <= u64::MAX && !all_points_known(proofs@) ==> res.0.stage == CreateSwapStage::Finished
                && res.1 == CreateSwapAction::Finish(Err(Error::NoValidPoint)),
            sum_amounts(proofs@) <= u64::MAX && all_points_known(proofs@) ==> {
                &&& res.0 == (CreateSwapFlow {
                    stage: CreateSwapStage::Reserve,
                    amount,
                    has_conditions,
                    include_fees,
                    target_given,
                    fee,
                    total: sum_amounts(proofs@) as Amount,
                    send: None,
                    change: 0,
                    needed: 0,
                    counter: 0,
                    send_len: 0,
                    derived: 0,
                })
                &&& res.1 is ReserveProofs
                &&& res.1->ReserveProofs_0@ == points_of(proofs@)
            },
    {
        let mut f = CreateSwapFlow {
            stage: CreateSwapStage::Finished,
            amount,
            has_conditions,
            include_fees,
            target_given,
            fee,
            total: 0,
            send: None,
            change: 0,
            needed: 0,
            counter: 0,
            send_len: 0,
            derived: 0,
        };
        let total = match total_amount(proofs) {
            Ok(t) => t,
            Err(e) => return (f, CreateSwapAction::Finish(Err(e))),
        };
        let ys = match proofs_ys(proofs) {
            Ok(ys) => ys,
            Err(e) => return (f, CreateSwapAction::Finish(Err(e))),
        };
        f.stage = CreateSwapStage::Reserve;
        f.total = total;
        (f, CreateSwapAction::ReserveProofs(ys))
    }

    fn after_fees(self, send: Option<Amount>, change: Amount) -> (res: (CreateSwapFlow, CreateSwapAction))
        ensures
            res == after_fees(self, send, change),
    {
        let target_given = self.target_given;
        let split_send = if self.has_conditions {
            None
        } else {
            Some(match send {
                Some(s) => s,
                None => 0,
            })
        };
        if target_given {
            (CreateSwapFlow { stage: CreateSwapStage::CountSplits, send, change, ..self },
             CreateSwapAction::CountSplits { send: split_send, change })
        } else {
            (CreateSwapFlow { stage: CreateSwapStage::ChangeTarget, send, change, ..self },
             CreateSwapAction::DetermineChangeTarget(change))
        }
    }

    fn build_first(self) -> (res: (CreateSwapFlow, CreateSwapAction))
        ensures
            res == build_first(self),
    {
        if self.has_conditions {
            let counter = self.counter;
            let amount = self.change;
            (CreateSwapFlow { stage: CreateSwapStage::BuildChange, ..self },
             CreateSwapAction::BuildChangeSecrets { counter, amount })
        } else {
            let counter = self.counter;
            let amount = match self.send {
                Some(s) => s,
                None => 0,
            };
            (CreateSwapFlow { stage: CreateSwapStage::BuildSend, ..self },
             CreateSwapAction::BuildSendSecrets { counter, amount })
        }
    }

    fn plan(&self) -> (res: SwapPlan)
        ensures
            res == swap_plan(*self),
    {
        SwapPlan {
            derived_secret_count: self.derived,
            fee: self.fee,
            send_amount: self.send,
            change_amount: self.change,
        }
    }

    /// Moves the preparation on by the event `ev`.
    pub fn step(self, ev: CreateSwapEvent) -> (res: (CreateSwapFlow, CreateSwapAction))
        requires
            create_swap_event_allowed(self, ev),
        ensures
            res == create_swap_next(self, ev),
    {
        match ev {
            CreateSwapEvent::Failed(e) => {
                if self.stage == CreateSwapStage::Finished {
                    (self, CreateSwapAction::Unexpected)
                } else {
                    (CreateSwapFlow { stage: CreateSwapStage::Finished, ..self }, CreateSwapAction::Finish(Err(e)))
                }
            },
            CreateSwapEvent::Reserved => {
                if self.stage != CreateSwapStage::Reserve {
                    return (self, CreateSwapAction::Unexpected);
                }
                match swap_change_amount(self.total, self.amount, self.fee) {
                    Err(e) => (CreateSwapFlow { stage: CreateSwapStage::Finished, ..self }, CreateSwapAction::Finish(Err(e))),
                    Ok(c) => {
                        if self.include_fees {
                            let a = match self.amount {
                                Some(a) => a,
                                None => 0,
                            };
                            (CreateSwapFlow { stage: CreateSwapStage::SplitForFee, change: c, ..self },
                             CreateSwapAction::CountSplit(a))
                        } else {
                            let amount = self.amount;
                            self.after_fees(amount, c)
                        }
                    },
                }
            },
            CreateSwapEvent::SplitCounted(n) => {
                if self.stage != CreateSwapStage::SplitForFee {
                    return (self, CreateSwapAction::Unexpected);
                }
                (CreateSwapFlow { stage: CreateSwapStage::RedeemFee, ..self }, CreateSwapAction::RedeemFee(n as u64))
            },
            CreateSwapEvent::RedeemFeeIs(r) => {
                if self.stage != CreateSwapStage::RedeemFee {
                    return (self, CreateSwapAction::Unexpected);
                }
                match include_redeem_fee(self.amount, self.change, r) {
                    Err(e) => (CreateSwapFlow { stage: CreateSwapStage::Finished, ..self }, CreateSwapAction::Finish(Err(e))),
                    Ok((s, c)) => self.after_fees(s, c),
                }
            },
            CreateSwapEvent::ChangeTargetSet => {
                if self.stage != CreateSwapStage::ChangeTarget {
                    return (self, CreateSwapAction::Unexpected);
                }
                let send = if self.has_conditions {
                    None
                } else {
                    Some(match self.send {
                        Some(s) => s,
                        None => 0,
                    })
                };
                let change = self.change;
                (CreateSwapFlow { stage: CreateSwapStage::CountSplits, ..self }, CreateSwapAction::CountSplits { send, change })
            },
            CreateSwapEvent::SplitsCounted { send, change } => {
                if self.stage != CreateSwapStage::CountSplits {
                    return (self, CreateSwapAction::Unexpected);
                }
                let needed = swap_secrets_needed(self.has_conditions, send, change);
                if needed > 0 {
                    (CreateSwapFlow { stage: CreateSwapStage::ReserveCounter, needed, ..self }, CreateSwapAction::ReserveCounter(needed))
                } else {
                    CreateSwapFlow { needed: 0, counter: 0, ..self }.build_first()
                }
            },
            CreateSwapEvent::CounterReserved(nc) => {
                if self.stage != CreateSwapStage::ReserveCounter {
                    return (self, CreateSwapAction::Unexpected);
                }
                let counter = first_reserved_counter(self.needed, nc);
                CreateSwapFlow { counter, ..self }.build_first()
            },
            CreateSwapEvent::SendBuilt(len) => {
                if self.stage != CreateSwapStage::BuildSend {
                    return (self, CreateSwapAction::Unexpected);
                }
                let counter = advance_counter(self.counter, len);
                let amount = self.change;
                (CreateSwapFlow { stage: CreateSwapStage::BuildChange, send_len: len, counter, ..self },
                 CreateSwapAction::BuildChangeSecrets { counter, amount })
            },
            CreateSwapEvent::ChangeBuilt(len) => {
                if self.stage != CreateSwapStage::BuildChange {
                    return (self, CreateSwapAction::Unexpected);
                }
                if self.has_conditions {
                    let amount = match self.send {
                        Some(s) => s,
                        None => 0,
                    };
                    (CreateSwapFlow { stage: CreateSwapStage::BuildConditioned, derived: len as u32, ..self },
                     CreateSwapAction::BuildConditionedSecrets(amount))
                } else {
                    let derived = derived_secret_count(false, self.send_len, len);
                    let g = CreateSwapFlow { stage: CreateSwapStage::Finished, derived, ..self };
                    let plan = g.plan();
                    (g, CreateSwapAction::Finish(Ok(plan)))
                }
            },
            CreateSwapEvent::ConditionedBuilt => {
                if self.stage != CreateSwapStage::BuildConditioned {
                    return (self, CreateSwapAction::Unexpected);
                }
                let plan = self.plan();
                (CreateSwapFlow { stage: CreateSwapStage::Finished, ..self }, CreateSwapAction::Finish(Ok(plan)))
            },
        }
    }
}

/// Once the change is known, what is sent, the change and the fee add up to the
/// value of the proofs swapped.
pub open spec fn create_swap_balanced(f: CreateSwapFlow) -> bool {
    &&& (f.stage == CreateSwapStage::SplitForFee || f.stage == CreateSwapStage::RedeemFee)
        ==> or_zero(f.amount) + f.change + f.fee == f.total
    &&& (f.stage == CreateSwapStage::ChangeTarget || f.stage == CreateSwapStage::CountSplits
        || f.stage == CreateSwapStage::ReserveCounter || f.stage == CreateSwapStage::BuildSend
        || f.stage == CreateSwapStage::BuildChange || f.stage == CreateSwapStage::BuildConditioned)
        ==> or_zero(f.send) + f.change + f.fee == f.total
}

/// Law: preparing a swap keeps its value: every step keeps the balance of what
/// is sent, the change and the fee against the value swapped, and a prepared
/// swap's plan adds up to that value. (With nothing to send, the redeem fee of
/// no proof is 0.)
pub proof fn law_create_swap_keeps_value(f: CreateSwapFlow, ev: CreateSwapEvent)
    requires
        create_swap_balanced(f),
        create_swap_event_allowed(f, ev),
        (f.stage == CreateSwapStage::RedeemFee && ev is RedeemFeeIs && f.amount is None) ==> ev->RedeemFeeIs_0 == 0,
    ensures
        create_swap_balanced(create_swap_next(f, ev).0),
        ({
            let a = create_swap_next(f, ev).1;
            a is Finish && a->Finish_0 is Ok ==> {
                let plan = a->Finish_0->Ok_0;
                or_zero(plan.send_amount) + plan.change_amount + plan.fee == f.total
            }
        }),
{
    match ev {
        CreateSwapEvent::Reserved => {
            if f.stage == CreateSwapStage::Reserve {
                crate::swap::law_swap_conserves_value(f.total, f.amount, f.fee, 0);
            }
        },
        CreateSwapEvent::RedeemFeeIs(r) => {
            if f.stage == CreateSwapStage::RedeemFee {
                let w = with_redeem_fee(f.amount, f.change, r);
                if w is Ok {
                    match f.amount {
                        Some(a) => {
                            assert(w->Ok_0.0 == Some((a + r) as Amount));
                            assert(or_zero(w->Ok_0.0) == a + r);
                        },
                        None => {
                            assert(w->Ok_0.0 == None::<Amount>);
                        },
                    }
                }
            }
        },
        _ => {},
    }
}

/// The counter value after the end of the range that the store reserved: the
/// new counter where `needed` values were reserved, else 0 (nothing reserved).
pub open spec fn reserved_end(needed: int, new_counter: u32) -> int {
    if needed > 0 { new_counter as int } else { 0 }
}

/// Law: the secrets that a swap derives from the seed take exactly the counter
/// range that it reserved, each index once. Where the store moves the counter
/// from `c` to `nc` = `c` + the number needed, the secrets of the amount to send
/// (where they come from the seed) take the indices from `c` on and the change
/// the indices after them, up to `nc`; the plan's derived count is the number
/// reserved. Where none is needed, the counter is not moved and none is derived.
/// This holds where the secrets built are as many as the splits counted.
pub proof fn law_create_swap_secrets_take_the_reserved_range(f: CreateSwapFlow, s: usize, ch: usize, nc: u32)
    requires
        f.stage == CreateSwapStage::CountSplits,
        ch <= u32::MAX,
        !f.has_conditions ==> s + ch <= u32::MAX,
        (if f.has_conditions { ch as int } else { s + ch }) > 0
            ==> (if f.has_conditions { ch as int } else { s + ch }) <= nc,
    ensures
        ({
            let needed: int = if f.has_conditions { ch as int } else { s + ch };
            let start: int = reserved_end(needed, nc) - needed;
            let (f1, a1) = create_swap_next(f, CreateSwapEvent::SplitsCounted { send: s, change: ch });
            let (f2, a2) = if needed > 0 { create_swap_next(f1, CreateSwapEvent::CounterReserved(nc)) } else { (f1, a1) };
            &&& needed > 0 ==> a1 == CreateSwapAction::ReserveCounter(needed as u32)
            &&& needed == 0 ==> !(a1 is ReserveCounter)
            &&& 0 <= start
            &&& if f.has_conditions {
                let (f3, a3) = create_swap_next(f2, CreateSwapEvent::ChangeBuilt(ch));
                let (f4, a4) = create_swap_next(f3, CreateSwapEvent::ConditionedBuilt);
                &&& a2 == (CreateSwapAction::BuildChangeSecrets { counter: start as u32, amount: f.change })
                &&& start + ch == reserved_end(needed, nc)
                &&& a3 is BuildConditionedSecrets
                &&& a4 is Finish && a4->Finish_0 is Ok
                &&& a4->Finish_0->Ok_0.derived_secret_count == needed
            } else {
                let (f3, a3) = create_swap_next(f2, CreateSwapEvent::SendBuilt(s));
                let (f4, a4) = create_swap_next(f3, CreateSwapEvent::ChangeBuilt(ch));
                &&& a2 == (CreateSwapAction::BuildSendSecrets { counter: start as u32, amount: or_zero(f.send) })
                &&& a3 == (CreateSwapAction::BuildChangeSecrets { counter: (start + s) as u32, amount: f.change })
                &&& start + s + ch == reserved_end(needed, nc)
                &&& a4 is Finish && a4->Finish_0 is Ok
                &&& a4->Finish_0->Ok_0.derived_secret_count == needed
            }
        }),
{
}

/// Law: with the fees included, the fee `r` that the receiver will pay to
/// redeem the proofs sent moves from the change to the amount sent: the amount
/// to send becomes the amount asked for plus `r` (none stays none) and the
/// change drops by `r`; an amount that would overflow ends in `AmountOverflow`,
/// a change smaller than `r` in `InsufficientFunds`.
pub proof fn law_redeem_fee_moves_to_the_amount_sent(f: CreateSwapFlow, r: Amount)
    requires
        f.stage == CreateSwapStage::RedeemFee,
    ensures
        ({
            let (g, a) = create_swap_next(f, CreateSwapEvent::RedeemFeeIs(r));
            if f.amount is Some && f.amount->0 + r > u64::MAX {
                a == CreateSwapAction::Finish(Err(Error::AmountOverflow))
            } else if f.change < r {
                a == CreateSwapAction::Finish(Err(Error::InsufficientFunds))
            } else {
                &&& g.send == match f.amount {
                    Some(x) => Some((x + r) as Amount),
                    None => None::<Amount>,
                }
                &&& g.change == f.change - r
                &&& (a == CreateSwapAction::DetermineChangeTarget((f.change - r) as Amount)
                    || a == (CreateSwapAction::CountSplits {
                        send: if f.has_conditions { None } else { Some(or_zero(g.send)) },
                        change: (f.change - r) as Amount,
                    }))
            }
        }),
{
}

// ---------------------------------------------------------------------------
// Preparing a swap to a denomination
// ---------------------------------------------------------------------------

/// What a prepared denomination swap needs to be sent and settled.
pub struct DenominationPlan {
    /// The keyset that signs the new proofs.
    pub keyset_id: String,
    /// How many secrets were derived from the seed (the keyset counter moves by this).
    pub derived_secret_count: u32,
    /// The fee that the mint charges for the input proofs.
    pub fee: Amount,
    pub send_amount: Option<Amount>,
    pub change_amount: Amount,
    /// The input proofs.
    pub proofs: Vec<Proof>,
}

#[derive(Debug, Clone, Copy, PartialEq, Eq, Structural)]
pub enum PlanStage {
    LoadKeyset,
    LoadFees,
    Reserve,
    Fee,
    ChangeTarget,
    SplitForFee,
    RedeemFee,
    CountChange,
    ReserveCounter,
    BuildSend,
    BuildChange,
    Finished,
}

pub enum PlanAction {
    /// Find the mint's active keyset.
    GetActiveKeyset,
    /// Load the fee and the amounts of this keyset.
    GetFeeAndAmounts(String),
    /// Mark the proofs of these points reserved.
    ReserveProofs(Vec<String>),
    /// Ask the fee that the mint charges for the input proofs.
    GetProofsFee,
    /// Choose how to split the change (the wallet's refill target).
    DetermineChangeTarget(Amount),
    /// Count the proofs that this amount splits into, by the standard split.
    CountSplit(Amount),
    /// Ask the keyset's fee for redeeming this many proofs.
    RedeemFee(u64),
    /// Count the proofs that the change splits into, by the change target.
    CountChange(Amount),
    /// Move the keyset counter by this many secrets.
    ReserveCounter(u32),
    /// Derive secrets of `amount` in proofs of `denomination`, from `counter` on.
    BuildDenominationSecrets { counter: u32, amount: Amount, denomination: Amount },
    /// Derive the secrets of the change from the seed, from `counter` on.
    BuildChangeSecrets { counter: u32, amount: Amount },
    /// Preparing is over.
    Finish(Result<DenominationPlan, Error>),
    /// The event does not belong to the stage: nothing happens.
    Unexpected,
}

pub enum PlanEvent {
    ActiveKeyset(String),
    FeesLoaded,
    Reserved,
    /// The fee for the input proofs.
    ProofsFee(Amount),
    ChangeTargetSet,
    /// The number of proofs of the split.
    SplitCounted(usize),
    /// The keyset's redeem fee.
    RedeemFeeIs(Amount),
    /// The number of proofs of the change.
    ChangeCounted(usize),
    /// The counter after the reservation.
    CounterReserved(u32),
    /// The number of secrets made for the amount to send.
    SendBuilt(usize),
    /// The number of secrets made for the change.
    ChangeBuilt(usize),
    /// The action failed with this error.
    Failed(Error),
}

/// The state of a denomination swap being prepared.
pub struct DenominationPlanFlow {
    pub stage: PlanStage,
    pub denomination: Amount,
    pub amount: Option<Amount>,
    pub include_fees: bool,
    pub proofs: Option<Vec<Proof>>,
    pub keyset_id: String,
    pub total: Amount,
    pub fee: Amount,
    pub send: Option<Amount>,
    pub change: Amount,
    pub needed: u32,
    pub counter: u32,
    pub send_len: usize,
    pub derived: u32,
}

impl DenominationPlanFlow {
    pub open spec fn wf(self) -> bool {
        self.stage != PlanStage::Finished ==> self.proofs is Some
    }

    /// Preparing a swap of `proofs` into proofs of `denomination`, sending `amount`.
    pub fn new(denomination: Amount, amount: Option<Amount>, include_fees: bool, proofs: Vec<Proof>)
        -> (res: (DenominationPlanFlow, PlanAction))
        ensures
            res.0.wf(),
            res.0.stage == PlanStage::LoadKeyset,
            res.0.denomination == denomination,
            res.0.amount == amount,
            res.0.include_fees == include_fees,
            res.0.proofs == Some(proofs),
            res.1 is GetActiveKeyset,
    {
        (DenominationPlanFlow {
            stage: PlanStage::LoadKeyset,
            denomination,
            amount,
            include_fees,
            proofs: Some(proofs),
            keyset_id: String::new(),
            total: 0,
            fee: 0,
            send: None,
            change: 0,
            needed: 0,
            counter: 0,
            send_len: 0,
            derived: 0,
        }, PlanAction::GetActiveKeyset)
    }
}

/// The secrets of the amount to send, in proofs of the denomination.
pub open spec fn build_denomination(f: DenominationPlanFlow) -> (DenominationPlanFlow, PlanAction) {
    (DenominationPlanFlow { stage: PlanStage::BuildSend, ..f },
     PlanAction::BuildDenominationSecrets { counter: f.counter, amount: or_zero(f.send), denomination: f.denomination })
}

/// What preparing a denomination swap does on each event (but `FeesLoaded`, whose
/// action holds the points of the proofs: see `DenominationPlanFlow::step`).
pub open spec fn plan_next(f: DenominationPlanFlow, ev: PlanEvent) -> (DenominationPlanFlow, PlanAction) {
    let finished = DenominationPlanFlow { stage: PlanStage::Finished, ..f };
    match ev {
        PlanEvent::Failed(e) => if f.stage == PlanStage::Finished {
            (f, PlanAction::Unexpected)
        } else {
            (finished, PlanAction::Finish(Err(e)))
        },
        PlanEvent::ActiveKeyset(id) => if f.stage == PlanStage::LoadKeyset {
            (DenominationPlanFlow { stage: PlanStage::LoadFees, keyset_id: id, ..f }, PlanAction::GetFeeAndAmounts(id))
        } else {
            (f, PlanAction::Unexpected)
        },
        PlanEvent::FeesLoaded => (f, PlanAction::Unexpected),
        PlanEvent::Reserved => if f.stage == PlanStage::Reserve {
            (DenominationPlanFlow { stage: PlanStage::Fee, ..f }, PlanAction::GetProofsFee)
        } else {
            (f, PlanAction::Unexpected)
        },
        PlanEvent::ProofsFee(fee) => if f.stage == PlanStage::Fee {
            let change = (f.total - or_zero(f.amount) - fee) as Amount;
            (DenominationPlanFlow { stage: PlanStage::ChangeTarget, fee, change, ..f }, PlanAction::DetermineChangeTarget(change))
        } else {
            (f, PlanAction::Unexpected)
        },
        PlanEvent::ChangeTargetSet => if f.stage == PlanStage::ChangeTarget {
            if f.include_fees {
                (DenominationPlanFlow { stage: PlanStage::SplitForFee, ..f }, PlanAction::CountSplit(or_zero(f.amount)))
            } else {
                (DenominationPlanFlow { stage: PlanStage::CountChange, send: f.amount, ..f }, PlanAction::CountChange(f.change))
            }
        } else {
            (f, PlanAction::Unexpected)
        },
        PlanEvent::SplitCounted(n) => if f.stage == PlanStage::SplitForFee {
            (DenominationPlanFlow { stage: PlanStage::RedeemFee, ..f }, PlanAction::RedeemFee(n as u64))
        } else {
            (f, PlanAction::Unexpected)
        },
        PlanEvent::RedeemFeeIs(r) => if f.stage == PlanStage::RedeemFee {
            let moved = with_redeem_fee(f.amount, f.change, r)->Ok_0;
            (DenominationPlanFlow { stage: PlanStage::CountChange, send: moved.0, change: moved.1, ..f },
             PlanAction::CountChange(moved.1))
        } else {
            (f, PlanAction::Unexpected)
        },
        PlanEvent::ChangeCounted(n) => if f.stage == PlanStage::CountChange {
            let needed = ((or_zero(f.send) as u32) + (n as u32)) as u32;
            if needed > 0 {
                (DenominationPlanFlow { stage: PlanStage::ReserveCounter, needed, ..f }, PlanAction::ReserveCounter(needed))
            } else {
                build_denomination(DenominationPlanFlow { needed: 0, counter: 0, ..f })
            }
        } else {
            (f, PlanAction::Unexpected)
        },
        PlanEvent::CounterReserved(nc) => if f.stage == PlanStage::ReserveCounter {
            build_denomination(DenominationPlanFlow { counter: reserved_start(f.needed, nc), ..f })
        } else {
            (f, PlanAction::Unexpected)
        },
        PlanEvent::SendBuilt(len) => if f.stage == PlanStage::BuildSend {
            let counter = (f.counter + (len as u32)) as u32;
            (DenominationPlanFlow { stage: PlanStage::BuildChange, send_len: len, counter, ..f },
             PlanAction::BuildChangeSecrets { counter, amount: f.change })
        } else {
            (f, PlanAction::Unexpected)
        },
        PlanEvent::ChangeBuilt(len) => if f.stage == PlanStage::BuildChange {
            let derived = (len + f.send_len) as u32;
            (DenominationPlanFlow { stage: PlanStage::Finished, proofs: None, derived, ..f },
             PlanAction::Finish(Ok(DenominationPlan {
                keyset_id: f.keyset_id,
                derived_secret_count: derived,
                fee: f.fee,
                send_amount: f.send,
                change_amount: f.change,
                proofs: f.proofs->0,
             })))
        } else {
            (f, PlanAction::Unexpected)
        },
    }
}

/// What preparing a denomination swap does once the keyset's fees are loaded:
/// the input proofs need a total (`AmountOverflow`) and known points
/// (`NoValidPoint`), and are then reserved.
pub open spec fn plan_fees_loaded(f: DenominationPlanFlow, g: DenominationPlanFlow, a: PlanAction) -> bool {
    if f.stage != PlanStage::LoadFees {
        g == f && a is Unexpected
    } else {
        let ps = f.proofs->0@;
        if sum_amounts(ps) > u64::MAX {
            g.stage == PlanStage::Finished && a == PlanAction::Finish(Err(Error::AmountOverflow))
        } else if !all_points_known(ps) {
            g.stage == PlanStage::Finished && a == PlanAction::Finish(Err(Error::NoValidPoint))
        } else {
            &&& g == (DenominationPlanFlow { stage: PlanStage::Reserve, total: sum_amounts(ps) as Amount, ..f })
            &&& a is ReserveProofs
            &&& a->ReserveProofs_0@ == points_of(ps)
        }
    }
}

/// The events that keep the wallet's arithmetic in range: no amount or count
/// overflows or underflows.
pub open spec fn plan_event_allowed(f: DenominationPlanFlow, ev: PlanEvent) -> bool {
    match ev {
        PlanEvent::ProofsFee(fee) => f.stage == PlanStage::Fee ==> or_zero(f.amount) + fee <= f.total,
        PlanEvent::RedeemFeeIs(r) => f.stage == PlanStage::RedeemFee ==> {
            &&& f.amount is Some ==> f.amount->0 + r <= u64::MAX
            &&& r <= f.change
        },
        PlanEvent::ChangeCounted(n) => f.stage == PlanStage::CountChange ==> (or_zero(f.send) as u32) + (n as u32) <= u32::MAX,
        PlanEvent::CounterReserved(nc) => f.stage == PlanStage::ReserveCounter ==> f.needed <= nc,
        PlanEvent::SendBuilt(len) => f.stage == PlanStage::BuildSend ==> f.counter + (len as u32) <= u32::MAX,
        PlanEvent::ChangeBuilt(len) => f.stage == PlanStage::BuildChange ==> len + f.send_len <= usize::MAX,
        _ => true,
    }
}

impl DenominationPlanFlow {
    fn build_denomination(self) -> (res: (DenominationPlanFlow, PlanAction))
        ensures
            res == build_denomination(self),
    {
        let counter = self.counter;
        let amount = match self.send {
            Some(s) => s,
            None => 0,
        };
        let denomination = self.denomination;
        (DenominationPlanFlow { stage: PlanStage::BuildSend, ..self },
         PlanAction::BuildDenominationSecrets { counter, amount, denomination })
    }

    /// Moves the preparation on by the event `ev`.
    pub fn step(self, ev: PlanEvent) -> (res: (DenominationPlanFlow, PlanAction))
        requires
            self.wf(),
            plan_event_allowed(self, ev),
        ensures
            res.0.wf(),
            ev is FeesLoaded ==> plan_fees_loaded(self, res.0, res.1),
            !(ev is FeesLoaded) ==> res == plan_next(self, ev),
    {
        match ev {
            PlanEvent::Failed(e) => {
                if self.stage == PlanStage::Finished {
                    (self, PlanAction::Unexpected)
                } else {
                    (DenominationPlanFlow { stage: PlanStage::Finished, ..self }, PlanAction::Finish(Err(e)))
                }
            },
            PlanEvent::ActiveKeyset(id) => {
                if self.stage != PlanStage::LoadKeyset {
                    return (self, PlanAction::Unexpected);
                }
                let id2 = id.clone();
                (DenominationPlanFlow { stage: PlanStage::LoadFees, keyset_id: id, ..self }, PlanAction::GetFeeAndAmounts(id2))
            },
            PlanEvent::FeesLoaded => {
                if self.stage != PlanStage::LoadFees {
                    return (self, PlanAction::Unexpected);
                }
                let (total, ys) = match &self.proofs {
                    Some(ps) => {
                        let total = match total_amount(ps) {
                            Ok(t) => t,
                            Err(e) => return (DenominationPlanFlow { stage: PlanStage::Finished, ..self }, PlanAction::Finish(Err(e))),
                        };
                        let ys = match proofs_ys(ps) {
                            Ok(ys) => ys,
                            Err(e) => return (DenominationPlanFlow { stage: PlanStage::Finished, ..self }, PlanAction::Finish(Err(e))),
                        };
                        (total, ys)
                    },
                    None => { proof { assert(false); } return (self, PlanAction::Unexpected) },
                };
                (DenominationPlanFlow { stage: PlanStage::Reserve, total, ..self }, PlanAction::ReserveProofs(ys))
            },
            PlanEvent::Reserved => {
                if self.stage != PlanStage::Reserve {
                    return (self, PlanAction::Unexpected);
                }
                (DenominationPlanFlow { stage: PlanStage::Fee, ..self }, PlanAction::GetProofsFee)
            },
            PlanEvent::ProofsFee(fee) => {
                if self.stage != PlanStage::Fee {
                    return (self, PlanAction::Unexpected);
                }
                let change = denomination_change_amount(self.total, self.amount, fee);
                (DenominationPlanFlow { stage: PlanStage::ChangeTarget, fee, change, ..self }, PlanAction::DetermineChangeTarget(change))
            },
            PlanEvent::ChangeTargetSet => {
                if self.stage != PlanStage::ChangeTarget {
                    return (self, PlanAction::Unexpected);
                }
                if self.include_fees {
                    let a = match self.amount {
                        Some(a) => a,
                        None => 0,
                    };
                    (DenominationPlanFlow { stage: PlanStage::SplitForFee, ..self }, PlanAction::CountSplit(a))
                } else {
                    let send = self.amount;
                    let change = self.change;
                    (DenominationPlanFlow { stage: PlanStage::CountChange, send, ..self }, PlanAction::CountChange(change))
                }
            },
            PlanEvent::SplitCounted(n) => {
                if self.stage != PlanStage::SplitForFee {
                    return (self, PlanAction::Unexpected);
                }
                (DenominationPlanFlow { stage: PlanStage::RedeemFee, ..self }, PlanAction::RedeemFee(n as u64))
            },
            PlanEvent::RedeemFeeIs(r) => {
                if self.stage != PlanStage::RedeemFee {
                    return (self, PlanAction::Unexpected);
                }
                let (send, change) = denomination_include_redeem_fee(self.amount, self.change, r);
                (DenominationPlanFlow { stage: PlanStage::CountChange, send, change, ..self }, PlanAction::CountChange(change))
            },
            PlanEvent::ChangeCounted(n) => {
                if self.stage != PlanStage::CountChange {
                    return (self, PlanAction::Unexpected);
                }
                let needed = denomination_secrets_needed(self.send, n);
                if needed > 0 {
                    (DenominationPlanFlow { stage: PlanStage::ReserveCounter, needed, ..self }, PlanAction::ReserveCounter(needed))
                } else {
                    DenominationPlanFlow { needed: 0, counter: 0, ..self }.build_denomination()
                }
            },
            PlanEvent::CounterReserved(nc) => {
                if self.stage != PlanStage::ReserveCounter {
                    return (self, PlanAction::Unexpected);
                }
                let counter = first_reserved_counter(self.needed, nc);
                DenominationPlanFlow { counter, ..self }.build_denomination()
            },
            PlanEvent::SendBuilt(len) => {
                if self.stage != PlanStage::BuildSend {
                    return (self, PlanAction::Unexpected);
                }
                let counter = advance_counter(self.counter, len);
                let amount = self.change;
                (DenominationPlanFlow { stage: PlanStage::BuildChange, send_len: len, counter, ..self },
                 PlanAction::BuildChangeSecrets { counter, amount })
            },
            PlanEvent::ChangeBuilt(len) => {
                if self.stage != PlanStage::BuildChange {
                    return (self, PlanAction::Unexpected);
                }
                let derived = derived_secret_count(false, self.send_len, len);
                let proofs = match self.proofs {
                    Some(ps) => ps,
                    None => { proof { assert(false); } return (DenominationPlanFlow { proofs: None, ..self }, PlanAction::Unexpected) },
                };
                let plan = DenominationPlan {
                    keyset_id: self.keyset_id.clone(),
                    derived_secret_count: derived,
                    fee: self.fee,
                    send_amount: self.send,
                    change_amount: self.change,
                    proofs,
                };
                (DenominationPlanFlow { stage: PlanStage::Finished, proofs: None, derived, ..self }, PlanAction::Finish(Ok(plan)))
            },
        }
    }
}

/// Once the change is known, what is sent, the change and the fee add up to the
/// value of the proofs swapped.
pub open spec fn plan_balanced(f: DenominationPlanFlow) -> bool {
    &&& (f.stage == PlanStage::ChangeTarget || f.stage == PlanStage::SplitForFee || f.stage == PlanStage::RedeemFee)
        ==> or_zero(f.amount) + f.change + f.fee == f.total
    &&& (f.stage == PlanStage::CountChange || f.stage == PlanStage::ReserveCounter || f.stage == PlanStage::BuildSend
        || f.stage == PlanStage::BuildChange) ==> or_zero(f.send) + f.change + f.fee == f.total
}

/// Law: preparing a denomination swap keeps its value: every step keeps the
/// balance of what is sent, the change and the fee against the value swapped,
/// and a prepared swap's plan adds up to that value. (With nothing to send, the
/// redeem fee of no proof is 0.)
pub proof fn law_denomination_plan_keeps_value(f: DenominationPlanFlow, ev: PlanEvent)
    requires
        plan_balanced(f),
        plan_event_allowed(f, ev),
        !(ev is FeesLoaded),
        (f.stage == PlanStage::RedeemFee && ev is RedeemFeeIs && f.amount is None) ==> ev->RedeemFeeIs_0 == 0,
    ensures
        plan_balanced(plan_next(f, ev).0),
        ({
            let a = plan_next(f, ev).1;
            a is Finish && a->Finish_0 is Ok ==> {
                let plan = a->Finish_0->Ok_0;
                or_zero(plan.send_amount) + plan.change_amount + plan.fee == f.total
            }
        }),
{
    match ev {
        PlanEvent::RedeemFeeIs(r) => {
            if f.stage == PlanStage::RedeemFee {
                crate::swap::law_denomination_swap_conserves_value(f.total, f.amount, f.fee, r);
            }
        },
        _ => {},
    }
}

/// Law: loading the keyset's fees keeps the balance (the change is not known yet).
pub proof fn law_denomination_plan_fees_loaded_keeps_value(f: DenominationPlanFlow, g: DenominationPlanFlow, a: PlanAction)
    requires
        plan_balanced(f),
        plan_fees_loaded(f, g, a),
    ensures
        plan_balanced(g),
{
}

/// Law: the secrets that a denomination swap derives from the seed stay within
/// the counter range that it reserved, each index once. The store moves the
/// counter from `c` to `nc` = `c` + the amount to send (taken as a count) + the
/// number of change proofs; the secrets of the denomination take the indices
/// from `c` on, the change the indices after them, all below `nc`; the plan's
/// derived count is the number of secrets made. Where none is needed, the
/// counter is not moved and none is derived. This holds where the change
/// secrets are as many as counted and the denomination secrets no more than the
/// amount to send.
pub proof fn law_denomination_secrets_stay_in_the_reserved_range(f: DenominationPlanFlow, n: usize, sl: usize, nc: u32)
    requires
        f.stage == PlanStage::CountChange,
        f.proofs is Some,
        or_zero(f.send) + n <= u32::MAX,
        or_zero(f.send) + n > 0 ==> or_zero(f.send) + n <= nc,
        sl <= or_zero(f.send),
    ensures
        ({
            let needed: int = or_zero(f.send) + n;
            let start: int = reserved_end(needed, nc) - needed;
            let (f1, a1) = plan_next(f, PlanEvent::ChangeCounted(n));
            let (f2, a2) = if needed > 0 { plan_next(f1, PlanEvent::CounterReserved(nc)) } else { (f1, a1) };
            let (f3, a3) = plan_next(f2, PlanEvent::SendBuilt(sl));
            let (f4, a4) = plan_next(f3, PlanEvent::ChangeBuilt(n));
            &&& needed > 0 ==> a1 == PlanAction::ReserveCounter(needed as u32)
            &&& needed == 0 ==> !(a1 is ReserveCounter)
            &&& 0 <= start
            &&& a2 == (PlanAction::BuildDenominationSecrets {
                counter: start as u32,
                amount: or_zero(f.send),
                denomination: f.denomination,
            })
            &&& a3 == (PlanAction::BuildChangeSecrets { counter: (start + sl) as u32, amount: f.change })
            &&& start + sl + n <= reserved_end(needed, nc)
            &&& a4 is Finish && a4->Finish_0 is Ok
            &&& a4->Finish_0->Ok_0.derived_secret_count == sl + n
        }),
{
}

/// Law: with the fees included, the fee `r` that the receiver will pay to
/// redeem the proofs sent moves from the change to the amount sent: the amount
/// to send becomes the amount asked for plus `r` (none stays none), the change
/// drops by `r`, and the change counted is that reduced change. Without the
/// fees included, the amount and the change are left as they are.
pub proof fn law_denomination_redeem_fee_moves_to_the_amount_sent(f: DenominationPlanFlow, r: Amount)
    requires
        plan_event_allowed(f, PlanEvent::RedeemFeeIs(r)),
    ensures
        f.stage == PlanStage::RedeemFee ==> {
            let (g, a) = plan_next(f, PlanEvent::RedeemFeeIs(r));
            &&& g.send == match f.amount {
                Some(x) => Some((x + r) as Amount),
                None => None::<Amount>,
            }
            &&& g.change == f.change - r
            &&& a == PlanAction::CountChange((f.change - r) as Amount)
            &&& f.amount is Some ==> or_zero(g.send) == or_zero(f.amount) + r
        },
        f.stage == PlanStage::ChangeTarget ==> {
            let (g, a) = plan_next(f, PlanEvent::ChangeTargetSet);
            &&& f.include_fees ==> g.stage == PlanStage::SplitForFee && a == PlanAction::CountSplit(or_zero(f.amount))
            &&& !f.include_fees ==> g.send == f.amount && g.change == f.change && a == PlanAction::CountChange(f.change)
        },
{
}

// ---------------------------------------------------------------------------
// Reclaiming the proofs of a failed swap
// ---------------------------------------------------------------------------

#[derive(Debug, Clone, Copy, PartialEq, Eq, Structural)]
pub enum ReclaimStage {
    CheckState,
    SwapBack,
    Record,
    Finished,
}

pub enum ReclaimFlowAction {
    /// Ask the mint for the state of the proofs of these points.
    CheckState(Vec<String>),
    /// Swap these unspent proofs back into the wallet.
    SwapBack(Vec<Proof>),
    /// Store this transaction.
    RecordTransaction(Transaction),
    /// Reclaiming is over.
    Finish(Result<(), Error>),
    /// The event does not belong to the stage: nothing happens.
    Unexpected,
}

pub enum ReclaimEvent {
    /// The mint's answer on the state of the proofs.
    States(Result<Vec<ProofState>, Error>),
    Swapped,
    Recorded,
    /// The action failed with this error.
    Failed(Error),
}

/// Reclaiming the input proofs of a swap that failed, or recording its
/// transaction where their state cannot be learnt.
pub struct ReclaimFlow {
    pub stage: ReclaimStage,
    pub inputs: Option<Vec<Proof>>,
    pub tx: Option<Transaction>,
    pub failure: Option<Error>,
}

impl ReclaimFlow {
    pub open spec fn wf(self) -> bool {
        &&& self.stage == ReclaimStage::CheckState ==> self.inputs is Some && self.tx is Some
        &&& self.stage == ReclaimStage::Record ==> self.failure is Some
    }

    /// Reclaiming `inputs`, the proofs of the failed swap recorded by `tx`: their
    /// points must be known (`NoValidPoint`), and their state is asked.
    pub fn new(inputs: Vec<Proof>, tx: Transaction) -> (res: (ReclaimFlow, ReclaimFlowAction))
        ensures
            res.0.wf(),
            all_points_known(inputs@) ==> {
                &&& res.0 == (ReclaimFlow { stage: ReclaimStage::CheckState, inputs: Some(inputs), tx: Some(tx), failure: None })
                &&& res.1 is CheckState
                &&& res.1->CheckState_0@ == points_of(inputs@)
            },
            !all_points_known(inputs@) ==> res.0.stage == ReclaimStage::Finished
                && res.1 == ReclaimFlowAction::Finish(Err(Error::NoValidPoint)),
    {
        match proofs_ys(&inputs) {
            Ok(ys) => (ReclaimFlow { stage: ReclaimStage::CheckState, inputs: Some(inputs), tx: Some(tx), failure: None },
                ReclaimFlowAction::CheckState(ys)),
            Err(e) => (ReclaimFlow { stage: ReclaimStage::Finished, inputs: Some(inputs), tx: Some(tx), failure: None },
                ReclaimFlowAction::Finish(Err(e))),
        }
    }
}

/// What reclaiming does on each event.
pub open spec fn reclaim_step(f: ReclaimFlow, ev: ReclaimEvent, g: ReclaimFlow, a: ReclaimFlowAction) -> bool {
    match ev {
        ReclaimEvent::Failed(e) => if f.stage == ReclaimStage::Finished {
            g == f && a is Unexpected
        } else {
            g.stage == ReclaimStage::Finished && a == ReclaimFlowAction::Finish(Err(e))
        },
        ReclaimEvent::States(checked) => if f.stage == ReclaimStage::CheckState {
            match checked {
                Ok(states) => {
                    let u = unspent_proofs(f.inputs->0@, states@);
                    if u.len() == 0 {
                        g.stage == ReclaimStage::Finished && a == ReclaimFlowAction::Finish(Ok(()))
                    } else {
                        &&& g == (ReclaimFlow { stage: ReclaimStage::SwapBack, inputs: None, ..f })
                        &&& a is SwapBack
                        &&& a->SwapBack_0@ == u
                    }
                },
                Err(e) => {
                    &&& g == (ReclaimFlow { stage: ReclaimStage::Record, inputs: None, tx: None, failure: Some(e) })
                    &&& a == ReclaimFlowAction::RecordTransaction(f.tx->0)
                },
            }
        } else {
            g == f && a is Unexpected
        },
        ReclaimEvent::Swapped => if f.stage == ReclaimStage::SwapBack {
            g.stage == ReclaimStage::Finished && a == ReclaimFlowAction::Finish(Ok(()))
        } else {
            g == f && a is Unexpected
        },
        ReclaimEvent::Recorded => if f.stage == ReclaimStage::Record {
            g.stage == ReclaimStage::Finished && a == ReclaimFlowAction::Finish(Err(f.failure->0))
        } else {
            g == f && a is Unexpected
        },
    }
}

/// Law: after a failed swap, the input proofs that the mint reports unspent
/// are swapped back into the wallet, and only those: every proof swapped back
/// is an input whose state, at its position, is unspent, and nothing is swapped
/// back only where no input is reported unspent. Where the state cannot be
/// learnt, the swap's transaction is recorded and reclaiming ends in that error.
pub proof fn law_reclaim_swaps_back_only_unspent_inputs(
    f: ReclaimFlow,
    checked: Result<Vec<ProofState>, Error>,
    g: ReclaimFlow,
    a: ReclaimFlowAction,
    g2: ReclaimFlow,
    a2: ReclaimFlowAction,
)
    requires
        f.wf(),
        f.stage == ReclaimStage::CheckState,
        reclaim_step(f, ReclaimEvent::States(checked), g, a),
        checked is Err ==> reclaim_step(g, ReclaimEvent::Recorded, g2, a2),
    ensures
        checked is Err ==> {
            &&& a == ReclaimFlowAction::RecordTransaction(f.tx->0)
            &&& a2 == ReclaimFlowAction::Finish(Err(checked->Err_0))
        },
        checked is Ok ==> {
            let ins = f.inputs->0@;
            let states = checked->Ok_0@;
            let n = if ins.len() <= states.len() { ins.len() as int } else { states.len() as int };
            &&& (forall|i: int| 0 <= i < n ==> states[i] != ProofState::Unspent) ==> a == ReclaimFlowAction::Finish(Ok(()))
            &&& (exists|i: int| 0 <= i < n && states[i] == ProofState::Unspent) ==> {
                &&& a is SwapBack
                &&& a->SwapBack_0@.len() <= n
                &&& forall|j: int| 0 <= j < a->SwapBack_0@.len() ==> exists|i: int|
                    0 <= i < n && states[i] == ProofState::Unspent && #[trigger] a->SwapBack_0@[j] == ins[i]
            }
        },
{
    if checked is Ok {
        let ins = f.inputs->0@;
        let states = checked->Ok_0@;
        let n = if ins.len() <= states.len() { ins.len() as int } else { states.len() as int };
        crate::swap::lemma_unspent_prefix_members(ins, states, n);
        assert(unspent_proofs(ins, states) == unspent_prefix(ins, states, n));
    }
}

impl ReclaimFlow {
    /// Moves the reclaiming on by the event `ev`.
    pub fn step(self, ev: ReclaimEvent) -> (res: (ReclaimFlow, ReclaimFlowAction))
        requires
            self.wf(),
        ensures
            reclaim_step(self, ev, res.0, res.1),
            res.0.wf(),
    {
        match ev {
            ReclaimEvent::Failed(e) => {
                if self.stage == ReclaimStage::Finished {
                    (self, ReclaimFlowAction::Unexpected)
                } else {
                    (ReclaimFlow { stage: ReclaimStage::Finished, ..self }, ReclaimFlowAction::Finish(Err(e)))
                }
            },
            ReclaimEvent::States(checked) => {
                if self.stage != ReclaimStage::CheckState {
                    return (self, ReclaimFlowAction::Unexpected);
                }
                let inputs = match self.inputs {
                    Some(i) => i,
                    None => { proof { assert(false); } return (ReclaimFlow { inputs: None, ..self }, ReclaimFlowAction::Unexpected) },
                };
                match reclaim_action(inputs, checked) {
                    ReclaimAction::NothingToReclaim => (ReclaimFlow { stage: ReclaimStage::Finished, inputs: None, ..self },
                        ReclaimFlowAction::Finish(Ok(()))),
                    ReclaimAction::SwapBack(u) => (ReclaimFlow { stage: ReclaimStage::SwapBack, inputs: None, ..self },
                        ReclaimFlowAction::SwapBack(u)),
                    ReclaimAction::RecordAndFail(e) => {
                        let tx = match self.tx {
                            Some(t) => t,
                            None => { proof { assert(false); } return (ReclaimFlow { inputs: None, tx: None, ..self }, ReclaimFlowAction::Unexpected) },
                        };
                        (ReclaimFlow { stage: ReclaimStage::Record, inputs: None, tx: None, failure: Some(e) },
                         ReclaimFlowAction::RecordTransaction(tx))
                    },
                }
            },
            ReclaimEvent::Swapped => {
                if self.stage != ReclaimStage::SwapBack {
                    return (self, ReclaimFlowAction::Unexpected);
                }
                (ReclaimFlow { stage: ReclaimStage::Finished, ..self }, ReclaimFlowAction::Finish(Ok(())))
            },
            ReclaimEvent::Recorded => {
                if self.stage != ReclaimStage::Record {
                    return (self, ReclaimFlowAction::Unexpected);
                }
                match self.failure {
                    Some(e) => (ReclaimFlow { stage: ReclaimStage::Finished, failure: None, ..self }, ReclaimFlowAction::Finish(Err(e))),
                    None => { proof { assert(false); } (ReclaimFlow { failure: None, ..self }, ReclaimFlowAction::Unexpected) },
                }
            },
        }
    }
}

// ---------------------------------------------------------------------------
// Swapping to a denomination
// ---------------------------------------------------------------------------

#[derive(Debug, Clone, Copy, PartialEq, Eq, Structural)]
pub enum DenomStage {
    PostSwap,
    Reclaiming,
    LoadKeys,
    Construct,
    IncrementCounter,
    SplitAmount,
    UpdateProofs,
    Record,
    Finished,
}

pub enum DenomAction {
    /// Send the swap request, waiting a bounded time.
    PostSwap,
    /// Reclaim the input proofs of the failed swap, recorded by `tx`.
    Reclaim { inputs: Vec<Proof>, tx: Transaction },
    /// Look up the keys of this keyset in the store.
    GetKeys(String),
    /// Unblind the signatures into proofs with the keys of this keyset.
    ConstructProofs(String),
    /// Move the keyset's counter by `by`.
    IncrementCounter { keyset_id: String, by: u32 },
    /// Split `amount` by the amounts `amounts` into the wanted proofs `target`
    /// (the standard split, aimed at `amount` proofs of the denomination).
    SplitAmount { amount: Amount, target: Vec<Amount>, amounts: Vec<Amount> },
    /// Store `added` in the state `state`, as proofs of the mint `mint_url` in
    /// the unit `unit`, and remove the proofs of `deleted_ys`.
    UpdateProofs { added: Vec<Proof>, deleted_ys: Vec<String>, mint_url: String, unit: String, state: ProofState },
    /// Store this transaction.
    RecordTransaction(Transaction),
    /// The swap is over: the proofs to send, where an amount was asked for.
    Finish(Result<Option<Vec<Proof>>, Error>),
    /// The event does not belong to the stage: nothing happens.
    Unexpected,
}

pub enum DenomEvent {
    /// The mint signed the new proofs.
    Swapped,
    /// The swap request failed.
    PostFailed(RequestFailure),
    /// The input proofs were reclaimed or the transaction recorded.
    Reclaimed,
    /// Whether the store holds the keyset's keys.
    KeysFound(bool),
    /// The proofs that the mint signed.
    ProofsConstructed(Vec<Proof>),
    CounterIncremented,
    /// The amounts wanted.
    AmountSplit(Vec<Amount>),
    ProofsUpdated,
    Recorded,
    /// The action failed with this error.
    Failed(Error),
}

/// The state of a swap to a denomination, once prepared.
pub struct DenominationSwapFlow {
    pub stage: DenomStage,
    /// The mint of the wallet.
    pub mint_url: String,
    /// The unit of the wallet.
    pub unit: String,
    pub amount: Option<Amount>,
    pub denomination: Amount,
    pub keyset_id: String,
    pub derived: u32,
    pub inputs: Option<Vec<Proof>>,
    pub tx: Option<Transaction>,
    pub post: Option<Vec<Proof>>,
    pub send: Option<Option<Vec<Proof>>>,
    pub failure: Option<Error>,
}

/// The record of a denomination swap before the mint answers.
pub open spec fn denomination_tx_for(
    t: Transaction,
    mint_url: String,
    unit: String,
    fee: Amount,
    ys: Seq<String>,
    token: String,
    now: u64,
) -> bool {
    &&& t.mint_url == mint_url
    &&& t.direction == TransactionDirection::Split
    &&& t.kind == TransactionKind::Cashu
    &&& t.amount == DENOMINATION_SWAP_RECORDED_AMOUNT
    &&& t.fee == fee
    &&& t.unit == unit
    &&& t.ys@ == ys
    &&& t.token == token
    &&& t.status == TransactionStatus::Failed
    &&& t.timestamp == now
    &&& t.memo is None
    &&& t.metadata@.len() == 0
    &&& t.quote_id is None
    &&& t.payment_request is None
    &&& t.payment_proof is None
    &&& t.payment_method is None
    &&& t.saga_id is None
}

impl DenominationSwapFlow {
    pub open spec fn wf(self) -> bool {
        &&& (self.stage == DenomStage::PostSwap || self.stage == DenomStage::LoadKeys || self.stage == DenomStage::Construct
            || self.stage == DenomStage::IncrementCounter || self.stage == DenomStage::SplitAmount)
            ==> self.inputs is Some && self.tx is Some
        &&& (self.stage == DenomStage::IncrementCounter || self.stage == DenomStage::SplitAmount) ==> self.post is Some
        &&& self.stage == DenomStage::Reclaiming ==> self.failure is Some
        &&& self.stage == DenomStage::UpdateProofs ==> self.tx is Some && self.send is Some
        &&& self.stage == DenomStage::Record ==> self.send is Some
    }

    /// The swap of `inputs` prepared into proofs of `denomination` with the keyset
    /// `keyset_id`, sending `amount`: its transaction is recorded as failed until
    /// it settles. The points of the inputs must be known (`NoValidPoint`).
    pub fn new(
        mint_url: String,
        unit: String,
        amount: Option<Amount>,
        denomination: Amount,
        keyset_id: String,
        fee: Amount,
        derived: u32,
        inputs: Vec<Proof>,
        token: String,
        now: u64,
    ) -> (res: (DenominationSwapFlow, DenomAction))
        ensures
            denom_started(res.0, res.1, mint_url, unit, amount, denomination, keyset_id, fee, derived, inputs, token, now),
    {
        let ys = match proofs_ys(&inputs) {
            Ok(ys) => ys,
            Err(e) => return (DenominationSwapFlow {
                stage: DenomStage::Finished,
                mint_url,
                unit,
                amount,
                denomination,
                keyset_id,
                derived,
                inputs: Some(inputs),
                tx: None,
                post: None,
                send: None,
                failure: None,
            }, DenomAction::Finish(Err(e))),
        };
        let tx = denomination_swap_transaction(mint_url.clone(), unit.clone(), fee, ys, token, now);
        (DenominationSwapFlow {
            stage: DenomStage::PostSwap,
            mint_url,
            unit,
            amount,
            denomination,
            keyset_id,
            derived,
            inputs: Some(inputs),
            tx: Some(tx),
            post: None,
            send: None,
            failure: None,
        }, DenomAction::PostSwap)
    }

    /// A swap to a denomination once its preparation (`prepared`) is over: where
    /// preparing failed, the swap ends in that error and nothing is sent to the
    /// mint; else the prepared swap starts, as `new` starts it.
    pub fn start(
        prepared: Result<DenominationPlan, Error>,
        mint_url: String,
        unit: String,
        amount: Option<Amount>,
        denomination: Amount,
        token: String,
        now: u64,
    ) -> (res: (DenominationSwapFlow, DenomAction))
        ensures
            match prepared {
                Err(e) => res.0.stage == DenomStage::Finished && res.1 == DenomAction::Finish(Err(e)),
                Ok(p) => denom_started(res.0, res.1, mint_url, unit, amount, denomination, p.keyset_id, p.fee,
                    p.derived_secret_count, p.proofs, token, now),
            },
    {
        match prepared {
            Err(e) => (DenominationSwapFlow {
                stage: DenomStage::Finished,
                mint_url,
                unit,
                amount,
                denomination,
                keyset_id: String::new(),
                derived: 0,
                inputs: None,
                tx: None,
                post: None,
                send: None,
                failure: None,
            }, DenomAction::Finish(Err(e))),
            Ok(p) => DenominationSwapFlow::new(
                mint_url, unit, amount, denomination, p.keyset_id, p.fee, p.derived_secret_count, p.proofs, token, now),
        }
    }
}

/// How a swap to a denomination starts: with the points of the inputs known,
/// it sends the swap request, its transaction recorded as failed until it
/// settles; else it ends in `NoValidPoint`.
pub open spec fn denom_started(
    f: DenominationSwapFlow,
    a: DenomAction,
    mint_url: String,
    unit: String,
    amount: Option<Amount>,
    denomination: Amount,
    keyset_id: String,
    fee: Amount,
    derived: u32,
    inputs: Vec<Proof>,
    token: String,
    now: u64,
) -> bool {
    &&& f.wf()
    &&& all_points_known(inputs@) ==> {
        &&& f.stage == DenomStage::PostSwap
        &&& f.mint_url == mint_url
        &&& f.unit == unit
        &&& f.amount == amount
        &&& f.denomination == denomination
        &&& f.keyset_id == keyset_id
        &&& f.derived == derived
        &&& f.inputs == Some(inputs)
        &&& f.tx is Some
        &&& denomination_tx_for(f.tx->0, mint_url, unit, fee, points_of(inputs@), token, now)
        &&& f.post is None
        &&& f.send is None
        &&& f.failure is None
        &&& a is PostSwap
    }
    &&& !all_points_known(inputs@) ==> f.stage == DenomStage::Finished
        && a == DenomAction::Finish(Err(Error::NoValidPoint))
}

/// Settling the swap once the wanted amounts (`split`) are known.
pub open spec fn denom_settle(f: DenominationSwapFlow, split: Seq<Amount>, g: DenominationSwapFlow, a: DenomAction) -> bool {
    let (sent, kept) = denomination_split(f.amount, f.post->0@, split);
    if all_points_known(sent) && all_points_known(kept) && all_points_known(f.inputs->0@) {
        &&& g.stage == DenomStage::UpdateProofs
        &&& g.tx == f.tx
        &&& g.post is None
        &&& g.send is Some
        &&& (f.amount is Some ==> g.send->0 is Some && g.send->0->0@ == sent)
        &&& (f.amount is None ==> g.send->0 is None)
        &&& a is UpdateProofs
        &&& a->added@ == sent + kept
        &&& a->deleted_ys@ == points_of(f.inputs->0@)
        &&& a->mint_url == f.mint_url
        &&& a->unit == f.unit
        &&& a->state == ProofState::Unspent
    } else {
        g.stage == DenomStage::Finished && a == DenomAction::Finish(Err(Error::NoValidPoint))
    }
}

/// What a swap to a denomination does on each event.
pub open spec fn denom_step(f: DenominationSwapFlow, ev: DenomEvent, g: DenominationSwapFlow, a: DenomAction) -> bool {
    match ev {
        DenomEvent::Failed(e) => if f.stage == DenomStage::Finished {
            g == f && a is Unexpected
        } else {
            g.stage == DenomStage::Finished && a == DenomAction::Finish(Err(e))
        },
        DenomEvent::Swapped => if f.stage == DenomStage::PostSwap {
            g == (DenominationSwapFlow { stage: DenomStage::LoadKeys, ..f }) && a == DenomAction::GetKeys(f.keyset_id)
        } else {
            g == f && a is Unexpected
        },
        DenomEvent::PostFailed(failure) => if f.stage == DenomStage::PostSwap {
            let e = match failure {
                RequestFailure::Rejected(e) => e,
                RequestFailure::TimedOut => Error::Timeout,
            };
            &&& g == (DenominationSwapFlow { stage: DenomStage::Reclaiming, inputs: None, tx: None, failure: Some(e), ..f })
            &&& a == (DenomAction::Reclaim { inputs: f.inputs->0, tx: f.tx->0 })
        } else {
            g == f && a is Unexpected
        },
        DenomEvent::Reclaimed => if f.stage == DenomStage::Reclaiming {
            g.stage == DenomStage::Finished && a == DenomAction::Finish(Err(f.failure->0))
        } else {
            g == f && a is Unexpected
        },
        DenomEvent::KeysFound(found) => if f.stage == DenomStage::LoadKeys {
            if found {
                g == (DenominationSwapFlow { stage: DenomStage::Construct, ..f }) && a == DenomAction::ConstructProofs(f.keyset_id)
            } else {
                g.stage == DenomStage::Finished && a == DenomAction::Finish(Err(Error::NoActiveKeyset))
            }
        } else {
            g == f && a is Unexpected
        },
        DenomEvent::ProofsConstructed(ps) => if f.stage == DenomStage::Construct {
            &&& g == (DenominationSwapFlow { stage: DenomStage::IncrementCounter, post: Some(ps), ..f })
            &&& a == (DenomAction::IncrementCounter { keyset_id: f.keyset_id, by: f.derived })
        } else {
            g == f && a is Unexpected
        },
        DenomEvent::CounterIncremented => if f.stage == DenomStage::IncrementCounter {
            match f.amount {
                Some(x) => {
                    &&& g == (DenominationSwapFlow { stage: DenomStage::SplitAmount, ..f })
                    &&& a is SplitAmount
                    &&& a->SplitAmount_amount == x
                    &&& a->target@.len() == x as usize
                    &&& (forall|i: int| 0 <= i < a->target@.len() ==> a->target@[i] == f.denomination)
                    &&& a->amounts@.len() == 32
                    &&& (forall|i: int| 0 <= i < 32 ==> a->amounts@[i] == vstd::arithmetic::power2::pow2(i as nat))
                },
                None => denom_settle(f, Seq::empty(), g, a),
            }
        } else {
            g == f && a is Unexpected
        },
        DenomEvent::AmountSplit(split) => if f.stage == DenomStage::SplitAmount {
            denom_settle(f, split@, g, a)
        } else {
            g == f && a is Unexpected
        },
        DenomEvent::ProofsUpdated => if f.stage == DenomStage::UpdateProofs {
            &&& g.stage == DenomStage::Record
            &&& g.send == f.send
            &&& a == DenomAction::RecordTransaction(Transaction { status: TransactionStatus::Success, ..f.tx->0 })
        } else {
            g == f && a is Unexpected
        },
        DenomEvent::Recorded => if f.stage == DenomStage::Record {
            g.stage == DenomStage::Finished && a == DenomAction::Finish(Ok(f.send->0))
        } else {
            g == f && a is Unexpected
        },
    }
}

/// Law: a denomination swap with an amount stores exactly the signed proofs
/// without a spending condition (those sent and the change), and removes the
/// input proofs; without an amount it stores every signed proof. The proofs
/// are stored as unspent proofs of the wallet's mint and unit.
pub proof fn law_denomination_swap_stores_signed_proofs(f: DenominationSwapFlow, split: Seq<Amount>, g: DenominationSwapFlow, a: DenomAction)
    requires
        denom_settle(f, split, g, a),
        a is UpdateProofs,
    ensures
        f.amount is Some ==> a->added@.to_multiset() == crate::swap::unconditioned(f.post->0@).to_multiset(),
        f.amount is None ==> a->added@ == f.post->0@,
        a->deleted_ys@ == points_of(f.inputs->0@),
        a->mint_url == f.mint_url,
        a->unit == f.unit,
        a->state == ProofState::Unspent,
{
    if f.amount is Some {
        crate::swap::law_denomination_selection_partitions(f.post->0@, split.to_multiset());
    } else {
        assert(Seq::<Proof>::empty() + f.post->0@ =~= f.post->0@);
    }
}

impl DenominationSwapFlow {
    fn settle(self, split: Vec<Amount>) -> (res: (DenominationSwapFlow, DenomAction))
        requires
            self.post is Some,
            self.inputs is Some,
            self.tx is Some,
        ensures
            denom_settle(self, split@, res.0, res.1),
            res.0.wf(),
    {
        let post = match self.post {
            Some(p) => p,
            None => { proof { assert(false); } return (DenominationSwapFlow { post: None, ..self }, DenomAction::Unexpected) },
        };
        let settled = match &self.inputs {
            Some(inputs) => settle_denomination_swap(self.amount, post, split, inputs),
            None => { proof { assert(false); } return (DenominationSwapFlow { post: None, ..self }, DenomAction::Unexpected) },
        };
        match settled {
            Err(e) => (DenominationSwapFlow { stage: DenomStage::Finished, post: None, ..self }, DenomAction::Finish(Err(e))),
            Ok(outcome) => {
                let mint_url = self.mint_url.clone();
                let unit = self.unit.clone();
                (DenominationSwapFlow { stage: DenomStage::UpdateProofs, post: None, send: Some(outcome.send), ..self },
                 DenomAction::UpdateProofs {
                    added: outcome.added,
                    deleted_ys: outcome.deleted_ys,
                    mint_url,
                    unit,
                    state: ProofState::Unspent,
                 })
            },
        }
    }

    /// Moves the swap on by the event `ev`.
    pub fn step(self, ev: DenomEvent) -> (res: (DenominationSwapFlow, DenomAction))
        requires
            self.wf(),
        ensures
            denom_step(self, ev, res.0, res.1),
            res.0.wf(),
    {
        match ev {
            DenomEvent::Failed(e) => {
                if self.stage == DenomStage::Finished {
                    (self, DenomAction::Unexpected)
                } else {
                    (DenominationSwapFlow { stage: DenomStage::Finished, ..self }, DenomAction::Finish(Err(e)))
                }
            },
            DenomEvent::Swapped => {
                if self.stage != DenomStage::PostSwap {
                    return (self, DenomAction::Unexpected);
                }
                let id = self.keyset_id.clone();
                (DenominationSwapFlow { stage: DenomStage::LoadKeys, ..self }, DenomAction::GetKeys(id))
            },
            DenomEvent::PostFailed(failure) => {
                if self.stage != DenomStage::PostSwap {
                    return (self, DenomAction::Unexpected);
                }
                let e = request_failure_error(failure);
                match (self.inputs, self.tx) {
                    (Some(inputs), Some(tx)) => (
                        DenominationSwapFlow { stage: DenomStage::Reclaiming, inputs: None, tx: None, failure: Some(e), ..self },
                        DenomAction::Reclaim { inputs, tx },
                    ),
                    _ => { proof { assert(false); } (DenominationSwapFlow { stage: DenomStage::Finished, inputs: None, tx: None, ..self }, DenomAction::Unexpected) },
                }
            },
            DenomEvent::Reclaimed => {
                if self.stage != DenomStage::Reclaiming {
                    return (self, DenomAction::Unexpected);
                }
                match self.failure {
                    Some(e) => (DenominationSwapFlow { stage: DenomStage::Finished, failure: None, ..self }, DenomAction::Finish(Err(e))),
                    None => { proof { assert(false); } (DenominationSwapFlow { failure: None, ..self }, DenomAction::Unexpected) },
                }
            },
            DenomEvent::KeysFound(found) => {
                if self.stage != DenomStage::LoadKeys {
                    return (self, DenomAction::Unexpected);
                }
                if found {
                    let id = self.keyset_id.clone();
                    (DenominationSwapFlow { stage: DenomStage::Construct, ..self }, DenomAction::ConstructProofs(id))
                } else {
                    (DenominationSwapFlow { stage: DenomStage::Finished, ..self }, DenomAction::Finish(Err(Error::NoActiveKeyset)))
                }
            },
            DenomEvent::ProofsConstructed(ps) => {
                if self.stage != DenomStage::Construct {
                    return (self, DenomAction::Unexpected);
                }
                let keyset_id = self.keyset_id.clone();
                let by = self.derived;
                (DenominationSwapFlow { stage: DenomStage::IncrementCounter, post: Some(ps), ..self },
                 DenomAction::IncrementCounter { keyset_id, by })
            },
            DenomEvent::CounterIncremented => {
                if self.stage != DenomStage::IncrementCounter {
                    return (self, DenomAction::Unexpected);
                }
                match self.amount {
                    Some(x) => {
                        let target = crate::swap::denomination_target(self.denomination, x);
                        let amounts = crate::swap::power_of_two_amounts();
                        (DenominationSwapFlow { stage: DenomStage::SplitAmount, ..self },
                         DenomAction::SplitAmount { amount: x, target, amounts })
                    },
                    None => {
                        let empty: Vec<Amount> = Vec::new();
                        assert(empty@ =~= Seq::<Amount>::empty());
                        self.settle(empty)
                    },
                }
            },
            DenomEvent::AmountSplit(split) => {
                if self.stage != DenomStage::SplitAmount {
                    return (self, DenomAction::Unexpected);
                }
                self.settle(split)
            },
            DenomEvent::ProofsUpdated => {
                if self.stage != DenomStage::UpdateProofs {
                    return (self, DenomAction::Unexpected);
                }
                match self.tx {
                    Some(t) => {
                        let mut t = t;
                        t.status = TransactionStatus::Success;
                        (DenominationSwapFlow { stage: DenomStage::Record, tx: None, ..self }, DenomAction::RecordTransaction(t))
                    },
                    None => { proof { assert(false); } (DenominationSwapFlow { tx: None, ..self }, DenomAction::Unexpected) },
                }
            },
            DenomEvent::Recorded => {
                if self.stage != DenomStage::Record {
                    return (self, DenomAction::Unexpected);
                }
                match self.send {
                    Some(send) => (DenominationSwapFlow { stage: DenomStage::Finished, send: None, ..self }, DenomAction::Finish(Ok(send))),
                    None => { proof { assert(false); } (DenominationSwapFlow { send: None, ..self }, DenomAction::Unexpected) },
                }
            },
        }
    }
}

/// Law: once the mint signed, a denomination swap loads the keyset's keys
/// (ending in `NoActiveKeyset` where the store has none), moves the keyset
/// counter by exactly the number of secrets it derived, and, once the proofs are
/// stored, records its transaction as successful and hands out the proofs to
/// send.
pub proof fn law_denomination_swap_settles_its_record(
    f: DenominationSwapFlow,
    ev: DenomEvent,
    g: DenominationSwapFlow,
    a: DenomAction,
)
    requires
        denom_step(f, ev, g, a),
    ensures
        (f.stage == DenomStage::PostSwap && ev is Swapped) ==> a == DenomAction::GetKeys(f.keyset_id),
        (f.stage == DenomStage::LoadKeys && ev == DenomEvent::KeysFound(false)) ==>
            a == DenomAction::Finish(Err(Error::NoActiveKeyset)),
        (f.stage == DenomStage::Construct && ev is ProofsConstructed) ==>
            a == (DenomAction::IncrementCounter { keyset_id: f.keyset_id, by: f.derived }),
        (f.stage == DenomStage::UpdateProofs && ev is ProofsUpdated) ==> {
            &&& a is RecordTransaction
            &&& a->RecordTransaction_0.status == TransactionStatus::Success
            &&& a->RecordTransaction_0 == (Transaction { status: TransactionStatus::Success, ..f.tx->0 })
        },
        (f.stage == DenomStage::Record && ev is Recorded) ==> a == DenomAction::Finish(Ok(f.send->0)),
        (f.stage == DenomStage::Reclaiming && ev is Reclaimed) ==> a == DenomAction::Finish(Err(f.failure->0)),
{
}

} // verus!
