//! Scenario and error-path coverage for the ledger, the derivation, and
//! the persisted record layout.

use vault_ledger::accounts::{
    Config, RecordAccount, UserAccount, UserDeposit, VaultAccount, VaultAction, VaultError,
};
use vault_ledger::addr::{
    derive_record_address, derive_vault_address, vault_seed_bytes, Address, VaultAuthority,
};
use vault_ledger::codec::{decode_record, encode_balance, record_data};
use vault_ledger::ledger::{deposit, withdraw};

const LAMPORTS_PER_SOL: u64 = 1_000_000_000;

fn addr_of(byte: u8) -> Address {
    Address { bytes: vec![byte; 32] }
}

fn test_config() -> Config {
    let rent = anchor_lang::prelude::Rent::default();
    Config {
        program_id: addr_of(7),
        system_program_id: addr_of(0),
        rent_floor: rent.minimum_balance(0),
        record_rent: rent.minimum_balance(16),
    }
}

fn fresh_action(cfg: &Config, user_tag: u8, user_lamports: u64) -> VaultAction {
    let user = addr_of(user_tag);
    let (vault_addr, _vault_bump) = derive_vault_address(&cfg.program_id).unwrap();
    let (record_addr, _record_bump) = derive_record_address(&user, &cfg.program_id).unwrap();
    VaultAction {
        user: UserAccount {
            address: user,
            lamports: user_lamports,
            is_signer: true,
        },
        vault: VaultAccount {
            address: vault_addr,
            lamports: 0,
        },
        user_deposit: RecordAccount {
            address: record_addr,
            lamports: 0,
            exists: false,
            owner: addr_of(0),
            record: UserDeposit { balance: 0 },
        },
        system_program: addr_of(0),
    }
}

/// Everything an aborted instruction must leave untouched.
fn snapshot(action: &VaultAction) -> (u64, u64, u64, bool, u64) {
    (
        action.user.lamports,
        action.vault.lamports,
        action.user_deposit.lamports,
        action.user_deposit.exists,
        action.user_deposit.record.balance,
    )
}

#[test]
fn scenario_fresh_deposit() {
    let cfg = test_config();
    let mut action = fresh_action(&cfg, 42, LAMPORTS_PER_SOL * 2);
    assert!(deposit(&cfg, &mut action, 1_000_000_000).is_ok());
    assert_eq!(action.user_deposit.record.balance, 1_000_000_000);
    assert_eq!(action.vault.lamports, 1_000_000_000);
}

#[test]
fn scenario_partial_withdraw() {
    let cfg = test_config();
    let mut action = fresh_action(&cfg, 42, LAMPORTS_PER_SOL * 2);
    assert!(deposit(&cfg, &mut action, 1_000_000_000).is_ok());
    assert!(withdraw(&cfg, &mut action, 500_000_000).is_ok());
    assert_eq!(action.user_deposit.record.balance, 500_000_000);
    assert_eq!(action.vault.lamports, 500_000_000);
}

#[test]
fn scenario_full_withdraw_refused() {
    let cfg = test_config();
    let mut action = fresh_action(&cfg, 42, LAMPORTS_PER_SOL * 2);
    assert!(deposit(&cfg, &mut action, 1_000_000_000).is_ok());
    let before = snapshot(&action);
    // Withdrawing the entire tracked balance is refused: the bound is strict.
    let result = withdraw(&cfg, &mut action, 1_000_000_000);
    assert_eq!(result, Err(VaultError::InvalidAmount));
    assert_eq!(snapshot(&action), before);
}

#[test]
fn scenario_dust_deposit_refused() {
    let cfg = test_config();
    let mut action = fresh_action(&cfg, 42, LAMPORTS_PER_SOL * 2);
    let before = snapshot(&action);
    // Exactly the floor is still dust: the check is strict.
    let result = deposit(&cfg, &mut action, cfg.rent_floor);
    assert_eq!(result, Err(VaultError::InvalidAmount));
    assert_eq!(snapshot(&action), before);
    // No record was allocated by the aborted call.
    assert!(!action.user_deposit.exists);
    assert_eq!(action.user_deposit.lamports, 0);
    // One unit above the floor is accepted.
    assert!(deposit(&cfg, &mut action, cfg.rent_floor + 1).is_ok());
    assert_eq!(action.user_deposit.record.balance, cfg.rent_floor + 1);
}

#[test]
fn scenario_foreign_record_refused() {
    let cfg = test_config();
    // User 42 deposits normally, creating their record.
    let mut action = fresh_action(&cfg, 42, LAMPORTS_PER_SOL * 2);
    assert!(deposit(&cfg, &mut action, 1_000_000_000).is_ok());
    // User 43 now names user 42's record in a withdraw attempt.
    let thief = addr_of(43);
    let mut forged = VaultAction {
        user: UserAccount {
            address: thief,
            lamports: LAMPORTS_PER_SOL,
            is_signer: true,
        },
        vault: VaultAccount {
            address: action.vault.address.dup(),
            lamports: action.vault.lamports,
        },
        user_deposit: RecordAccount {
            address: action.user_deposit.address.dup(),
            lamports: action.user_deposit.lamports,
            exists: true,
            owner: action.user_deposit.owner.dup(),
            record: UserDeposit {
                balance: action.user_deposit.record.balance,
            },
        },
        system_program: addr_of(0),
    };
    let before = snapshot(&forged);
    let result = withdraw(&cfg, &mut forged, 100_000_000);
    assert_eq!(result, Err(VaultError::InvalidAccount));
    assert_eq!(snapshot(&forged), before);
}

#[test]
fn deposit_without_signature_refused() {
    let cfg = test_config();
    let mut action = fresh_action(&cfg, 42, LAMPORTS_PER_SOL * 2);
    action.user.is_signer = false;
    let before = snapshot(&action);
    assert_eq!(
        deposit(&cfg, &mut action, 1_000_000_000),
        Err(VaultError::Unauthorized)
    );
    assert_eq!(snapshot(&action), before);
    assert_eq!(
        withdraw(&cfg, &mut action, 1),
        Err(VaultError::Unauthorized)
    );
}

#[test]
fn wrong_vault_address_refused() {
    let cfg = test_config();
    let mut action = fresh_action(&cfg, 42, LAMPORTS_PER_SOL * 2);
    action.vault.address = addr_of(9);
    assert_eq!(
        deposit(&cfg, &mut action, 1_000_000_000),
        Err(VaultError::InvalidAccount)
    );
}

#[test]
fn wrong_system_program_refused() {
    let cfg = test_config();
    let mut action = fresh_action(&cfg, 42, LAMPORTS_PER_SOL * 2);
    action.system_program = addr_of(5);
    assert_eq!(
        deposit(&cfg, &mut action, 1_000_000_000),
        Err(VaultError::InvalidAccount)
    );
}

#[test]
fn squatted_record_refused() {
    let cfg = test_config();
    let mut action = fresh_action(&cfg, 42, LAMPORTS_PER_SOL * 2);
    // The record pre-exists under a foreign owner.
    action.user_deposit.exists = true;
    action.user_deposit.lamports = cfg.record_rent;
    action.user_deposit.owner = addr_of(9);
    action.user_deposit.record.balance = 0;
    assert_eq!(
        deposit(&cfg, &mut action, 1_000_000_000),
        Err(VaultError::InvalidAccount)
    );
}

#[test]
fn underfunded_user_refused() {
    let cfg = test_config();
    // Cannot even fund the record's allocation.
    let mut action = fresh_action(&cfg, 42, cfg.record_rent - 1);
    let before = snapshot(&action);
    assert_eq!(
        deposit(&cfg, &mut action, 1_000_000_000),
        Err(VaultError::InsufficientFunds)
    );
    assert_eq!(snapshot(&action), before);
    // Can fund the allocation but not the amount on top of it.
    let mut action = fresh_action(&cfg, 42, cfg.record_rent + 1_000_000);
    assert_eq!(
        deposit(&cfg, &mut action, 2_000_000),
        Err(VaultError::InsufficientFunds)
    );
}

#[test]
fn deposit_overflow_faults() {
    let cfg = test_config();
    let mut action = fresh_action(&cfg, 42, LAMPORTS_PER_SOL * 2);
    action.user_deposit.exists = true;
    action.user_deposit.lamports = cfg.record_rent;
    action.user_deposit.owner = cfg.program_id.dup();
    action.user_deposit.record.balance = u64::MAX - 5;
    let before = snapshot(&action);
    assert_eq!(
        deposit(&cfg, &mut action, 1_000_000_000),
        Err(VaultError::ArithmeticFault)
    );
    assert_eq!(snapshot(&action), before);
}

#[test]
fn vault_short_on_withdraw() {
    let cfg = test_config();
    let mut action = fresh_action(&cfg, 42, LAMPORTS_PER_SOL);
    // A tracked claim larger than what the vault really holds: the transfer
    // primitive's own funds check refuses.
    action.user_deposit.exists = true;
    action.user_deposit.lamports = cfg.record_rent;
    action.user_deposit.owner = cfg.program_id.dup();
    action.user_deposit.record.balance = 2_000_000_000;
    action.vault.lamports = 1_000_000_000;
    assert_eq!(
        withdraw(&cfg, &mut action, 1_500_000_000),
        Err(VaultError::InsufficientFunds)
    );
}

#[test]
fn withdraw_without_record_refused() {
    let cfg = test_config();
    let mut action = fresh_action(&cfg, 42, LAMPORTS_PER_SOL);
    assert_eq!(
        withdraw(&cfg, &mut action, 1),
        Err(VaultError::InvalidAccount)
    );
}

#[test]
fn record_allocated_exactly_once() {
    let cfg = test_config();
    let mut action = fresh_action(&cfg, 42, LAMPORTS_PER_SOL * 4);
    let start_lamports = action.user.lamports;
    assert!(deposit(&cfg, &mut action, 1_000_000_000).is_ok());
    // The first deposit allocates and funds the record once.
    assert!(action.user_deposit.exists);
    assert_eq!(action.user_deposit.lamports, cfg.record_rent);
    assert_eq!(
        action.user.lamports,
        start_lamports - cfg.record_rent - 1_000_000_000
    );
    let after_first = action.user.lamports;
    // The second deposit finds it existing and only moves the balances.
    assert!(deposit(&cfg, &mut action, 1_000_000_000).is_ok());
    assert!(action.user_deposit.exists);
    assert_eq!(action.user_deposit.lamports, cfg.record_rent);
    assert_eq!(action.user.lamports, after_first - 1_000_000_000);
    assert_eq!(action.user_deposit.record.balance, 2_000_000_000);
    assert_eq!(action.vault.lamports, 2_000_000_000);
}

#[test]
fn conservation_across_interleaved_users() {
    let cfg = test_config();
    let mut first = fresh_action(&cfg, 42, LAMPORTS_PER_SOL * 4);
    let mut second = fresh_action(&cfg, 43, LAMPORTS_PER_SOL * 4);

    // The host serializes every instruction that touches the vault, so an
    // interleaving is a sequence; the shared vault balance is carried from
    // each committed instruction to the next.
    fn conserved(first: &VaultAction, second: &VaultAction) -> bool {
        first.vault.lamports
            == first.user_deposit.record.balance + second.user_deposit.record.balance
    }

    assert!(deposit(&cfg, &mut first, 1_000_000_000).is_ok());
    second.vault.lamports = first.vault.lamports;
    assert!(conserved(&first, &second));

    assert!(deposit(&cfg, &mut second, 2_000_000_000).is_ok());
    first.vault.lamports = second.vault.lamports;
    assert!(conserved(&first, &second));

    assert!(withdraw(&cfg, &mut first, 500_000_000).is_ok());
    second.vault.lamports = first.vault.lamports;
    assert!(conserved(&first, &second));

    // An aborted instruction in the middle changes nothing at all.
    assert_eq!(
        withdraw(&cfg, &mut second, 2_000_000_000),
        Err(VaultError::InvalidAmount)
    );
    first.vault.lamports = second.vault.lamports;
    assert!(conserved(&first, &second));

    assert!(withdraw(&cfg, &mut second, 1_500_000_000).is_ok());
    first.vault.lamports = second.vault.lamports;
    assert!(conserved(&first, &second));

    assert_eq!(first.vault.lamports, 1_000_000_000);
    assert_eq!(first.user_deposit.record.balance, 500_000_000);
    assert_eq!(second.user_deposit.record.balance, 500_000_000);
}

#[test]
fn derivation_matches_host_search() {
    let cfg = test_config();
    let pid = solana_pubkey::Pubkey::try_from(cfg.program_id.bytes.as_slice()).unwrap();

    let (vault_addr, vault_bump) = derive_vault_address(&cfg.program_id).unwrap();
    let (expected, expected_bump) = solana_pubkey::Pubkey::find_program_address(&[b"vault"], &pid);
    assert_eq!(vault_addr.bytes, expected.to_bytes().to_vec());
    assert_eq!(vault_bump, expected_bump);

    let user = addr_of(42);
    let (record_addr, record_bump) = derive_record_address(&user, &cfg.program_id).unwrap();
    let (expected_record, expected_record_bump) = solana_pubkey::Pubkey::find_program_address(
        &[b"user_deposit", user.bytes.as_slice()],
        &pid,
    );
    assert_eq!(record_addr.bytes, expected_record.to_bytes().to_vec());
    assert_eq!(record_bump, expected_record_bump);
}

#[test]
fn derivation_is_reproducible_and_keyed() {
    let cfg = test_config();
    let (vault_a, bump_a) = derive_vault_address(&cfg.program_id).unwrap();
    let (vault_b, bump_b) = derive_vault_address(&cfg.program_id).unwrap();
    assert_eq!(vault_a.bytes, vault_b.bytes);
    assert_eq!(bump_a, bump_b);
    // Different users get different records; neither is the vault.
    let (record_x, _bx) = derive_record_address(&addr_of(42), &cfg.program_id).unwrap();
    let (record_y, _by) = derive_record_address(&addr_of(43), &cfg.program_id).unwrap();
    assert_ne!(record_x.bytes, record_y.bytes);
    assert_ne!(record_x.bytes, vault_a.bytes);
    // A different program identity derives a different vault.
    let (other_vault, _ob) = derive_vault_address(&addr_of(8)).unwrap();
    assert_ne!(other_vault.bytes, vault_a.bytes);
}

#[test]
fn authority_controls_only_canonical_bump() {
    let cfg = test_config();
    let (vault_addr, bump) = derive_vault_address(&cfg.program_id).unwrap();
    let good = VaultAuthority {
        seed: vault_seed_bytes(),
        bump,
    };
    assert!(good.controls(&vault_addr, &cfg.program_id));
    // A stale bump reconstructs a different address, or none at all.
    let stale = VaultAuthority {
        seed: vault_seed_bytes(),
        bump: bump.wrapping_sub(1),
    };
    assert!(!stale.controls(&vault_addr, &cfg.program_id));
}

#[test]
fn record_bytes_round_trip() {
    let header = vec![1u8, 2, 3, 4, 5, 6, 7, 8];
    let record = UserDeposit {
        balance: 123_456_789_000,
    };
    let data = record_data(&header, &record);
    assert_eq!(data.len(), 16);
    assert_eq!(&data[0..8], header.as_slice());
    let back = decode_record(&data).unwrap();
    assert_eq!(back.balance, record.balance);
}

#[test]
fn record_bytes_exact() {
    assert_eq!(
        encode_balance(1_000_000_000),
        vec![0x00, 0xCA, 0x9A, 0x3B, 0x00, 0x00, 0x00, 0x00]
    );
    assert_eq!(encode_balance(0), vec![0u8; 8]);
    assert_eq!(encode_balance(u64::MAX), vec![0xFFu8; 8]);
}

#[test]
fn record_bytes_wrong_length_refused() {
    assert!(decode_record(&vec![0u8; 15]).is_none());
    assert!(decode_record(&vec![0u8; 17]).is_none());
    assert!(decode_record(&Vec::new()).is_none());
}
