//! The accounts an instruction names, the injected host configuration, and
//! the validation that runs before either ledger operation.

use vstd::prelude::*;
use crate::addr::{
    Address, derive_record_address, derive_vault_address, find_derived, record_seeds, vault_seeds,
    vault_signer_seeds, create_derived,
};

verus! {

/// Host-supplied configuration, injected by the embedding rather than read
/// from global state: the program's own identity, the identity of the host's
/// value-transfer service, and the host's allocation floors.
#[derive(Debug)]
pub struct Config {
    pub program_id: Address,
    pub system_program_id: Address,
    /// The minimum non-prunable balance of a zero-data account: deposits at
    /// or under this floor are rejected as dust.
    pub rent_floor: u64,
    /// What allocating one deposit record (header plus balance) costs the
    /// paying user.
    pub record_rent: u64,
}

/// The mathematical content of a `Config`.
#[verifier::ext_equal]
pub struct ConfigView {
    pub program_id: Seq<u8>,
    pub system_program_id: Seq<u8>,
    pub rent_floor: int,
    pub record_rent: int,
}

impl View for Config {
    type V = ConfigView;

    open spec fn view(&self) -> ConfigView {
        ConfigView {
            program_id: self.program_id@,
            system_program_id: self.system_program_id@,
            rent_floor: self.rent_floor as int,
            record_rent: self.record_rent as int,
        }
    }
}

impl Config {
    pub open spec fn wf(&self) -> bool {
        self.program_id.wf() && self.system_program_id.wf()
    }
}

/// The authorizing user's account as the instruction sees it.
#[derive(Debug)]
pub struct UserAccount {
    pub address: Address,
    pub lamports: u64,
    /// Whether the user cryptographically co-signed the instruction.
    pub is_signer: bool,
}

/// The pooled vault: a derived address holding only native value.
#[derive(Debug)]
pub struct VaultAccount {
    pub address: Address,
    pub lamports: u64,
}

/// A user's tracked claim against the pooled vault, in native units.
#[derive(Debug, Clone, Copy, PartialEq, Eq, Structural)]
pub struct UserDeposit {
    pub balance: u64,
}

/// The per-user deposit record account. Until its first deposit it does not
/// exist on the host ledger: it holds no value and no data.
#[derive(Debug)]
pub struct RecordAccount {
    pub address: Address,
    pub lamports: u64,
    pub exists: bool,
    /// The program that owns the record on the host ledger.
    pub owner: Address,
    pub record: UserDeposit,
}

/// The fixed account list a caller supplies with a deposit or withdraw
/// instruction.
#[derive(Debug)]
pub struct VaultAction {
    pub user: UserAccount,
    pub vault: VaultAccount,
    pub user_deposit: RecordAccount,
    /// The address supplied for the host's value-transfer service.
    pub system_program: Address,
}

/// The mathematical content of a `VaultAction`.
#[verifier::ext_equal]
pub struct ActionView {
    pub user_addr: Seq<u8>,
    pub user_lamports: int,
    pub user_signer: bool,
    pub vault_addr: Seq<u8>,
    pub vault_lamports: int,
    pub record_addr: Seq<u8>,
    pub record_lamports: int,
    pub record_exists: bool,
    pub record_owner: Seq<u8>,
    pub balance: int,
    pub system_program: Seq<u8>,
}

impl View for VaultAction {
    type V = ActionView;

    open spec fn view(&self) -> ActionView {
        ActionView {
            user_addr: self.user.address@,
            user_lamports: self.user.lamports as int,
            user_signer: self.user.is_signer,
            vault_addr: self.vault.address@,
            vault_lamports: self.vault.lamports as int,
            record_addr: self.user_deposit.address@,
            record_lamports: self.user_deposit.lamports as int,
            record_exists: self.user_deposit.exists,
            record_owner: self.user_deposit.owner@,
            balance: self.user_deposit.record.balance as int,
            system_program: self.system_program@,
        }
    }
}

impl VaultAction {
    /// Shape validity: whole addresses, and a record that does not exist on
    /// the host ledger yet holds no value and no balance, as a fresh host
    /// account does.
    pub open spec fn wf(&self) -> bool {
        &&& self.user.address.wf()
        &&& self.vault.address.wf()
        &&& self.user_deposit.address.wf()
        &&& self.user_deposit.owner.wf()
        &&& self.system_program.wf()
        &&& (!self.user_deposit.exists ==> self.user_deposit.lamports == 0
            && self.user_deposit.record.balance == 0)
    }
}

/// Why an instruction aborted. Any failure aborts the whole instruction
/// with no partial effect: every account is left exactly as supplied.
#[derive(Debug, Clone, Copy, PartialEq, Eq, Structural)]
pub enum VaultError {
    /// The required co-signature is missing.
    Unauthorized,
    /// A supplied account fails derivation or ownership recomputation.
    InvalidAccount,
    /// The amount fails the deposit floor or the strict withdraw bound.
    InvalidAmount,
    /// A balance update would overflow.
    ArithmeticFault,
    /// The paying side of the value transfer is short of real funds.
    InsufficientFunds,
}

/// The account checks that run, in this order, before either operation:
/// the user's co-signature; the vault address against its derivation; the
/// record address against its derivation from this user's identity; the
/// record's owning program, when the record already exists; the transfer
/// service's identity. On success, the vault's canonical bump is handed
/// back for the withdraw path to sign with.
pub open spec fn spec_validate(cfg: ConfigView, a: ActionView) -> Result<u8, VaultError> {
    if !a.user_signer {
        Err(VaultError::Unauthorized)
    } else {
        match find_derived(vault_seeds(), cfg.program_id) {
            None => Err(VaultError::InvalidAccount),
            Some(vault_found) => {
                if a.vault_addr != vault_found.0 {
                    Err(VaultError::InvalidAccount)
                } else {
                    match find_derived(record_seeds(a.user_addr), cfg.program_id) {
                        None => Err(VaultError::InvalidAccount),
                        Some(record_found) => {
                            if a.record_addr != record_found.0 {
                                Err(VaultError::InvalidAccount)
                            } else if a.record_exists && a.record_owner != cfg.program_id {
                                Err(VaultError::InvalidAccount)
                            } else if a.system_program != cfg.system_program_id {
                                Err(VaultError::InvalidAccount)
                            } else {
                                Ok(vault_found.1)
                            }
                        },
                    }
                }
            },
        }
    }
}

/// Run the account checks; nothing is mutated. Beyond matching the checks'
/// specification, a successful validation also guarantees that the vault's
/// signer seeds at the returned bump reconstruct the supplied vault address,
/// which is what lets the withdraw path sign as the vault.
pub fn validate_accounts(cfg: &Config, action: &VaultAction) -> (r: Result<u8, VaultError>)
    requires
        cfg.wf(),
        action.wf(),
    ensures
        r == spec_validate(cfg@, action@),
        r matches Ok(bump) ==> create_derived(vault_signer_seeds(bump), cfg@.program_id)
            == Some(action@.vault_addr),
{
    if !action.user.is_signer {
        return Err(VaultError::Unauthorized);
    }
    let (vault_addr, vault_bump) = match derive_vault_address(&cfg.program_id) {
        Some(found) => found,
        None => {
            return Err(VaultError::InvalidAccount);
        },
    };
    if !vault_addr.equals(&action.vault.address) {
        return Err(VaultError::InvalidAccount);
    }
    let (record_addr, _record_bump) = match derive_record_address(
        &action.user.address,
        &cfg.program_id,
    ) {
        Some(found) => found,
        None => {
            return Err(VaultError::InvalidAccount);
        },
    };
    if !record_addr.equals(&action.user_deposit.address) {
        return Err(VaultError::InvalidAccount);
    }
    if action.user_deposit.exists && !action.user_deposit.owner.equals(&cfg.program_id) {
        return Err(VaultError::InvalidAccount);
    }
    if !action.system_program.equals(&cfg.system_program_id) {
        return Err(VaultError::InvalidAccount);
    }
    Ok(vault_bump)
}

} // verus!
