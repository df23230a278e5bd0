//! The committed ledger across all users, and the laws that hold of every
//! sequence of instructions against it.
//!
//! The host serializes every instruction that touches the vault, so the
//! committed state evolves by one deposit or withdrawal at a time; an
//! aborted instruction is rolled back whole. This module states that
//! evolution abstractly — the vault's pooled balance and every user's
//! tracked claim — and proves conservation and non-negativity over whole
//! sequences of attempted operations.

use vstd::prelude::*;
use crate::accounts::{ActionView, ConfigView};
use crate::ledger::{
    deposit_after, deposit_allowed, withdraw_after, withdraw_allowed,
};

verus! {

/// The committed ledger as the host sees it between instructions: the
/// vault's pooled balance and each user's tracked claim, one entry per
/// user.
#[verifier::ext_equal]
pub struct LedgerModel {
    pub vault: int,
    pub claims: Seq<int>,
}

/// One attempted instruction against the shared vault, naming the user's
/// record by its position in the ledger.
pub enum LedgerOp {
    Deposit { user: int, amount: int },
    Withdraw { user: int, amount: int },
}

/// The sum of all tracked claims.
pub open spec fn total_claims(claims: Seq<int>) -> int
    decreases claims.len(),
{
    if claims.len() == 0 {
        0
    } else {
        claims[0] + total_claims(claims.drop_first())
    }
}

/// Conservation: the pooled vault holds exactly the sum of every user's
/// tracked claim.
pub open spec fn conserved(m: LedgerModel) -> bool {
    m.vault == total_claims(m.claims)
}

/// No tracked claim is ever negative.
pub open spec fn non_negative(m: LedgerModel) -> bool {
    forall|i: int| 0 <= i < m.claims.len() ==> m.claims[i] >= 0
}

/// When an operation succeeds, per the preconditions of the two
/// transitions: a deposit clears the dust floor strictly, a withdrawal
/// leaves the claim strictly positive.
pub open spec fn op_allowed(m: LedgerModel, op: LedgerOp, floor: int) -> bool {
    match op {
        LedgerOp::Deposit { user, amount } => 0 <= user < m.claims.len() && amount > floor,
        LedgerOp::Withdraw { user, amount } => 0 <= user < m.claims.len() && 0 <= amount
            && m.claims[user] > amount,
    }
}

/// The committed ledger after a successful operation: the vault and the
/// one named claim move together by exactly the amount.
pub open spec fn apply_op(m: LedgerModel, op: LedgerOp) -> LedgerModel {
    match op {
        LedgerOp::Deposit { user, amount } => LedgerModel {
            vault: m.vault + amount,
            claims: m.claims.update(user, m.claims[user] + amount),
        },
        LedgerOp::Withdraw { user, amount } => LedgerModel {
            vault: m.vault - amount,
            claims: m.claims.update(user, m.claims[user] - amount),
        },
    }
}

/// Run a sequence of attempted operations in order. A disallowed one
/// aborts and leaves the ledger unchanged, as the host rolls back an
/// aborted instruction whole.
pub open spec fn run(m: LedgerModel, ops: Seq<LedgerOp>, floor: int) -> LedgerModel
    decreases ops.len(),
{
    if ops.len() == 0 {
        m
    } else {
        let next = if op_allowed(m, ops[0], floor) {
            apply_op(m, ops[0])
        } else {
            m
        };
        run(next, ops.drop_first(), floor)
    }
}

/// Updating one entry moves the sum by exactly the difference.
proof fn lemma_total_claims_update(claims: Seq<int>, i: int, v: int)
    requires
        0 <= i < claims.len(),
    ensures
        total_claims(claims.update(i, v)) == total_claims(claims) - claims[i] + v,
    decreases claims.len(),
{
    if i == 0 {
        assert(claims.update(0, v).drop_first() =~= claims.drop_first());
    } else {
        lemma_total_claims_update(claims.drop_first(), i - 1, v);
        assert(claims.update(i, v).drop_first() =~= claims.drop_first().update(i - 1, v));
        assert(claims.update(i, v)[0] == claims[0]);
    }
}

/// Conservation holds of every sequence of attempted deposits and
/// withdrawals: a successful operation moves the vault and exactly one
/// claim by the same amount, and an aborted one changes nothing.
pub proof fn lemma_conservation(m: LedgerModel, ops: Seq<LedgerOp>, floor: int)
    requires
        conserved(m),
    ensures
        conserved(run(m, ops, floor)),
    decreases ops.len(),
{
    if ops.len() > 0 {
        let op = ops[0];
        let next = if op_allowed(m, op, floor) {
            apply_op(m, op)
        } else {
            m
        };
        if op_allowed(m, op, floor) {
            match op {
                LedgerOp::Deposit { user, amount } => {
                    lemma_total_claims_update(m.claims, user, m.claims[user] + amount);
                },
                LedgerOp::Withdraw { user, amount } => {
                    lemma_total_claims_update(m.claims, user, m.claims[user] - amount);
                },
            }
        }
        lemma_conservation(next, ops.drop_first(), floor);
    }
}

/// No claim ever goes negative over any sequence of attempted operations:
/// a successful deposit adds a positive amount, and a withdrawal is allowed
/// only strictly below the current claim, so the claim stays strictly
/// positive.
pub proof fn lemma_non_negative(m: LedgerModel, ops: Seq<LedgerOp>, floor: int)
    requires
        non_negative(m),
        floor >= 0,
    ensures
        non_negative(run(m, ops, floor)),
    decreases ops.len(),
{
    if ops.len() > 0 {
        let op = ops[0];
        let next = if op_allowed(m, op, floor) {
            apply_op(m, op)
        } else {
            m
        };
        assert(non_negative(next));
        lemma_non_negative(next, ops.drop_first(), floor);
    }
}

/// A ledger as it stands before any instruction: no value pooled, every
/// claim zero.
pub open spec fn fresh_ledger(users: nat) -> LedgerModel {
    LedgerModel { vault: 0, claims: Seq::new(users, |i: int| 0) }
}

/// All-zero claims sum to zero.
proof fn lemma_total_claims_zero(claims: Seq<int>)
    requires
        forall|i: int| 0 <= i < claims.len() ==> claims[i] == 0,
    ensures
        total_claims(claims) == 0,
    decreases claims.len(),
{
    if claims.len() > 0 {
        lemma_total_claims_zero(claims.drop_first());
    }
}

/// The ledger every deployment starts from is conserved and non-negative,
/// so by the two laws above both invariants hold at every observable point
/// of every history.
pub proof fn lemma_fresh_ledger_invariants(users: nat)
    ensures
        conserved(fresh_ledger(users)),
        non_negative(fresh_ledger(users)),
{
    lemma_total_claims_zero(fresh_ledger(users).claims);
}

/// A successful deposit on the supplied accounts refines the ledger step:
/// committing the changed vault and claim back into the ledger lands on
/// exactly the state the model's deposit gives.
pub proof fn lemma_deposit_refines(
    cfg: ConfigView,
    a: ActionView,
    amount: int,
    m: LedgerModel,
    user: int,
)
    requires
        0 <= user < m.claims.len(),
        m.vault == a.vault_lamports,
        m.claims[user] == a.balance,
        deposit_allowed(cfg, a, amount),
    ensures
        op_allowed(m, LedgerOp::Deposit { user, amount }, cfg.rent_floor),
        apply_op(m, LedgerOp::Deposit { user, amount }).vault
            == deposit_after(cfg, a, amount).vault_lamports,
        apply_op(m, LedgerOp::Deposit { user, amount }).claims[user]
            == deposit_after(cfg, a, amount).balance,
{
}

/// A successful withdrawal on the supplied accounts refines the ledger
/// step in the same way.
pub proof fn lemma_withdraw_refines(
    cfg: ConfigView,
    a: ActionView,
    amount: int,
    m: LedgerModel,
    user: int,
)
    requires
        0 <= user < m.claims.len(),
        0 <= amount,
        m.vault == a.vault_lamports,
        m.claims[user] == a.balance,
        withdraw_allowed(cfg, a, amount),
    ensures
        op_allowed(m, LedgerOp::Withdraw { user, amount }, cfg.rent_floor),
        apply_op(m, LedgerOp::Withdraw { user, amount }).vault
            == withdraw_after(cfg, a, amount).vault_lamports,
        apply_op(m, LedgerOp::Withdraw { user, amount }).claims[user]
            == withdraw_after(cfg, a, amount).balance,
{
}

} // verus!
