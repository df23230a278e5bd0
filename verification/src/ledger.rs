//! The two ledger transitions, deposit and withdraw, with their full
//! functional specifications, and the laws that relate them.
//!
//! Either operation first validates the supplied accounts, then checks its
//! own preconditions, and only then commits every effect together: an
//! instruction that fails anywhere leaves every account exactly as supplied.

use vstd::prelude::*;
use crate::accounts::{
    ActionView, Config, ConfigView, VaultAction, VaultError, spec_validate, validate_accounts,
};
use crate::addr::{VaultAuthority, vault_seed_bytes, vault_signer_seeds};

verus! {

/// What allocating the record costs the user in this call: the record's
/// rent when it does not exist yet, nothing otherwise.
pub open spec fn deposit_rent_due(cfg: ConfigView, a: ActionView) -> int {
    if a.record_exists {
        0
    } else {
        cfg.record_rent
    }
}

/// When a deposit succeeds: the accounts validate; the user can fund the
/// record's allocation; the amount clears the dust floor strictly; the user
/// can fund the amount itself; and neither credited balance overflows.
pub open spec fn deposit_allowed(cfg: ConfigView, a: ActionView, amount: int) -> bool {
    &&& spec_validate(cfg, a) is Ok
    &&& a.user_lamports >= deposit_rent_due(cfg, a)
    &&& amount > cfg.rent_floor
    &&& a.user_lamports - deposit_rent_due(cfg, a) >= amount
    &&& a.balance + amount <= u64::MAX
    &&& a.vault_lamports + amount <= u64::MAX
}

/// The error a failing deposit aborts with: the validator's error first,
/// then the funding, floor and overflow checks in order. Meaningful only
/// when the deposit is not allowed.
pub open spec fn deposit_error(cfg: ConfigView, a: ActionView, amount: int) -> VaultError {
    match spec_validate(cfg, a) {
        Err(e) => e,
        Ok(_) => {
            if a.user_lamports < deposit_rent_due(cfg, a) {
                VaultError::InsufficientFunds
            } else if amount <= cfg.rent_floor {
                VaultError::InvalidAmount
            } else if a.user_lamports - deposit_rent_due(cfg, a) < amount {
                VaultError::InsufficientFunds
            } else {
                VaultError::ArithmeticFault
            }
        },
    }
}

/// The accounts after a successful deposit: the user pays the allocation
/// (first time only) and the amount; the vault gains exactly the amount;
/// the record exists, is owned by the program, and its tracked balance
/// grows by exactly the amount.
pub open spec fn deposit_after(cfg: ConfigView, a: ActionView, amount: int) -> ActionView {
    ActionView {
        user_lamports: a.user_lamports - deposit_rent_due(cfg, a) - amount,
        vault_lamports: a.vault_lamports + amount,
        record_lamports: a.record_lamports + deposit_rent_due(cfg, a),
        record_exists: true,
        record_owner: cfg.program_id,
        balance: a.balance + amount,
        ..a
    }
}

/// Deposit: move `amount` from the authorizing user into the pooled vault,
/// allocating the user's deposit record on first use, and credit the user's
/// tracked balance by exactly the amount. All effects land together or not
/// at all.
pub fn deposit(cfg: &Config, action: &mut VaultAction, amount: u64) -> (r: Result<(), VaultError>)
    requires
        cfg.wf(),
        old(action).wf(),
    ensures
        match r {
            Ok(()) => deposit_allowed(cfg@, old(action)@, amount as int)
                && final(action)@ == deposit_after(cfg@, old(action)@, amount as int)
                && final(action).wf(),
            Err(e) => !deposit_allowed(cfg@, old(action)@, amount as int)
                && e == deposit_error(cfg@, old(action)@, amount as int)
                && *final(action) == *old(action),
        },
{
    match validate_accounts(cfg, action) {
        Ok(_) => (),
        Err(e) => {
            return Err(e);
        },
    }
    let rent_due: u64 = if action.user_deposit.exists {
        0
    } else {
        cfg.record_rent
    };
    if action.user.lamports < rent_due {
        return Err(VaultError::InsufficientFunds);
    }
    if amount <= cfg.rent_floor {
        return Err(VaultError::InvalidAmount);
    }
    if action.user.lamports - rent_due < amount {
        return Err(VaultError::InsufficientFunds);
    }
    if amount > u64::MAX - action.user_deposit.record.balance {
        return Err(VaultError::ArithmeticFault);
    }
    if amount > u64::MAX - action.vault.lamports {
        return Err(VaultError::ArithmeticFault);
    }
    // Every check has passed: commit all effects together.
    if !action.user_deposit.exists {
        action.user_deposit.exists = true;
        action.user_deposit.owner = cfg.program_id.dup();
        action.user_deposit.lamports = cfg.record_rent;
    }
    action.user.lamports = action.user.lamports - rent_due - amount;
    action.vault.lamports = action.vault.lamports + amount;
    action.user_deposit.record.balance = action.user_deposit.record.balance + amount;
    proof {
        assert(action@ =~= deposit_after(cfg@, old(action)@, amount as int));
    }
    Ok(())
}

/// When a withdrawal succeeds: the accounts validate; the record exists;
/// the user's tracked claim exceeds the amount strictly (draining the whole
/// claim in one call is refused by design); the vault really holds the
/// amount; and crediting the user does not overflow.
pub open spec fn withdraw_allowed(cfg: ConfigView, a: ActionView, amount: int) -> bool {
    &&& spec_validate(cfg, a) is Ok
    &&& a.record_exists
    &&& a.balance > amount
    &&& a.vault_lamports >= amount
    &&& a.user_lamports + amount <= u64::MAX
}

/// The error a failing withdrawal aborts with: the validator's error first,
/// then the record's existence, the strict balance bound, the vault's real
/// funds, and overflow, in order. Meaningful only when the withdrawal is
/// not allowed.
pub open spec fn withdraw_error(cfg: ConfigView, a: ActionView, amount: int) -> VaultError {
    match spec_validate(cfg, a) {
        Err(e) => e,
        Ok(_) => {
            if !a.record_exists {
                VaultError::InvalidAccount
            } else if a.balance <= amount {
                VaultError::InvalidAmount
            } else if a.vault_lamports < amount {
                VaultError::InsufficientFunds
            } else {
                VaultError::ArithmeticFault
            }
        },
    }
}

/// The accounts after a successful withdrawal: the vault loses exactly the
/// amount, the user gains it, and the tracked claim shrinks by it.
pub open spec fn withdraw_after(cfg: ConfigView, a: ActionView, amount: int) -> ActionView {
    ActionView {
        user_lamports: a.user_lamports + amount,
        vault_lamports: a.vault_lamports - amount,
        balance: a.balance - amount,
        ..a
    }
}

/// Withdraw: move `amount` out of the pooled vault back to the authorizing
/// user, signed by the vault's own derived authority, and debit the user's
/// tracked balance by exactly the amount. All effects land together or not
/// at all.
pub fn withdraw(cfg: &Config, action: &mut VaultAction, amount: u64) -> (r: Result<(), VaultError>)
    requires
        cfg.wf(),
        old(action).wf(),
    ensures
        match r {
            Ok(()) => withdraw_allowed(cfg@, old(action)@, amount as int)
                && final(action)@ == withdraw_after(cfg@, old(action)@, amount as int)
                && final(action).wf(),
            Err(e) => !withdraw_allowed(cfg@, old(action)@, amount as int)
                && e == withdraw_error(cfg@, old(action)@, amount as int)
                && *final(action) == *old(action),
        },
{
    let vault_bump = match validate_accounts(cfg, action) {
        Ok(bump) => bump,
        Err(e) => {
            return Err(e);
        },
    };
    if !action.user_deposit.exists {
        return Err(VaultError::InvalidAccount);
    }
    if action.user_deposit.record.balance <= amount {
        return Err(VaultError::InvalidAmount);
    }
    if action.vault.lamports < amount {
        return Err(VaultError::InsufficientFunds);
    }
    if amount > u64::MAX - action.user.lamports {
        return Err(VaultError::ArithmeticFault);
    }
    // The vault signs for itself through its derived authority. Validation
    // proved that these seeds and this bump reconstruct the vault's address,
    // so this transfer-time check can never refuse; a stale or wrong bump
    // would reconstruct a different address and be refused here.
    let authority = VaultAuthority { seed: vault_seed_bytes(), bump: vault_bump };
    proof {
        assert(authority.seeds() =~~= vault_signer_seeds(vault_bump));
    }
    if !authority.controls(&action.vault.address, &cfg.program_id) {
        return Err(VaultError::Unauthorized);
    }
    action.vault.lamports = action.vault.lamports - amount;
    action.user.lamports = action.user.lamports + amount;
    action.user_deposit.record.balance = action.user_deposit.record.balance - amount;
    proof {
        assert(action@ =~= withdraw_after(cfg@, old(action)@, amount as int));
    }
    Ok(())
}

/// Depositing twice for a fresh user allocates the record exactly once: the
/// first success creates and funds it and charges the user its rent; the
/// second finds it existing, charges no allocation again, and only moves
/// the balances.
pub proof fn lemma_record_created_once(cfg: ConfigView, a: ActionView, amt1: int, amt2: int)
    requires
        !a.record_exists,
        deposit_allowed(cfg, a, amt1),
    ensures
        deposit_after(cfg, a, amt1).record_exists,
        deposit_after(cfg, a, amt1).record_lamports == a.record_lamports + cfg.record_rent,
        deposit_after(cfg, a, amt1).user_lamports == a.user_lamports - cfg.record_rent - amt1,
        deposit_allowed(cfg, deposit_after(cfg, a, amt1), amt2) ==> {
            let a1 = deposit_after(cfg, a, amt1);
            let a2 = deposit_after(cfg, a1, amt2);
            &&& a2.record_lamports == a1.record_lamports
            &&& a2.user_lamports == a1.user_lamports - amt2
            &&& a2.balance == a1.balance + amt2
            &&& a2.record_exists
        },
{
}

/// A successful deposit moves the vault and the user's tracked claim in
/// lockstep: both grow by exactly the amount, so their difference is
/// invariant at the instruction level.
pub proof fn lemma_deposit_delta(cfg: ConfigView, a: ActionView, amount: int)
    requires
        deposit_allowed(cfg, a, amount),
    ensures
        deposit_after(cfg, a, amount).vault_lamports - a.vault_lamports == amount,
        deposit_after(cfg, a, amount).balance - a.balance == amount,
{
}

/// A successful withdrawal moves the vault and the user's tracked claim in
/// lockstep: both shrink by exactly the amount, and the claim stays
/// strictly positive under the strict bound.
pub proof fn lemma_withdraw_delta(cfg: ConfigView, a: ActionView, amount: int)
    requires
        withdraw_allowed(cfg, a, amount),
    ensures
        a.vault_lamports - withdraw_after(cfg, a, amount).vault_lamports == amount,
        a.balance - withdraw_after(cfg, a, amount).balance == amount,
        withdraw_after(cfg, a, amount).balance > 0,
{
}

} // verus!
