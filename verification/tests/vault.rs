use pda_vault::address::{derive_address, Address};
use pda_vault::error::VaultError;
use pda_vault::ops::{
    check_authorization, deposit, transfer_units, vault_tag_bytes, withdraw, Account, VaultAction,
};

const MINIMUM_BALANCE: u64 = 890_880;

fn addr(byte: u8) -> Address {
    Address::new(vec![byte; 32]).unwrap()
}

fn derived_vault(owner: &Address, program: &Address) -> (Address, u8) {
    let tag = vault_tag_bytes();
    derive_address(&tag, owner, program).unwrap()
}

/// An action whose vault is the derived holding account for the signer,
/// empty, with the signer holding `signer_lamports`.
fn action(owner: &Address, program: &Address, signer_lamports: u64) -> VaultAction {
    let (vault_address, _bump) = derived_vault(owner, program);
    VaultAction {
        signer: Account { address: owner.clone(), lamports: signer_lamports },
        signer_authorized: true,
        vault: Account { address: vault_address, lamports: 0 },
        program_id: program.clone(),
    }
}

#[test]
fn address_new_rejects_wrong_length() {
    assert!(Address::new(vec![1u8; 31]).is_none());
    assert!(Address::new(vec![1u8; 33]).is_none());
    assert!(Address::new(Vec::new()).is_none());
    assert!(Address::new(vec![1u8; 32]).is_some());
}

#[test]
fn address_matches_is_bit_for_bit() {
    let a = addr(5);
    let b = addr(5);
    let c = addr(6);
    assert!(a.matches(&b));
    assert!(!a.matches(&c));
}

#[test]
fn derivation_is_deterministic() {
    let owner = addr(1);
    let program = addr(7);
    let (a1, b1) = derived_vault(&owner, &program);
    let (a2, b2) = derived_vault(&owner, &program);
    assert!(a1.matches(&a2));
    assert_eq!(b1, b2);
}

#[test]
fn derivation_separates_owners() {
    let program = addr(7);
    let (a1, _) = derived_vault(&addr(1), &program);
    let (a2, _) = derived_vault(&addr(2), &program);
    assert!(!a1.matches(&a2));
}

#[test]
fn derivation_agrees_with_ledger_search() {
    let owner = addr(9);
    let program = addr(7);
    let (a, bump) = derived_vault(&owner, &program);
    let pid = solana_pubkey::Pubkey::new_from_array([7u8; 32]);
    let (expected, expected_bump) = solana_pubkey::Pubkey::find_program_address(
        &[b"vault", owner.as_bytes().as_slice()],
        &pid,
    );
    assert_eq!(a.as_bytes().as_slice(), expected.to_bytes().as_slice());
    assert_eq!(bump, expected_bump);
}

#[test]
fn derived_address_is_not_the_owner() {
    let owner = addr(3);
    let program = addr(7);
    let (a, _) = derived_vault(&owner, &program);
    assert!(!a.matches(&owner));
}

#[test]
fn derivation_fails_on_inadmissible_tag() {
    // A seed longer than the ledger admits makes the search fail for every
    // bump: the defined `DerivationExhausted` path.
    let owner = addr(1);
    let program = addr(7);
    let tag = vec![0u8; 33];
    let r = derive_address(&tag, &owner, &program);
    assert!(matches!(r, Err(VaultError::DerivationExhausted)));
}

#[test]
fn vault_tag_is_the_word_vault() {
    assert_eq!(vault_tag_bytes(), b"vault".to_vec());
}

#[test]
fn authorization_returns_the_bump() {
    let owner = addr(4);
    let program = addr(7);
    let (_, bump) = derived_vault(&owner, &program);
    let ctx = action(&owner, &program, 0);
    assert_eq!(check_authorization(&ctx), Ok(bump));
}

#[test]
fn deposit_fills_empty_vault() {
    let owner = addr(1);
    let program = addr(7);
    let mut ctx = action(&owner, &program, 5_000_000);
    assert_eq!(deposit(&mut ctx, 1_000_000, MINIMUM_BALANCE), Ok(()));
    assert_eq!(ctx.vault.lamports, 1_000_000);
    assert_eq!(ctx.signer.lamports, 4_000_000);
}

#[test]
fn deposit_rejects_nonzero_vault() {
    let owner = addr(1);
    let program = addr(7);
    let mut ctx = action(&owner, &program, 5_000_000);
    ctx.vault.lamports = 1;
    assert_eq!(
        deposit(&mut ctx, 1_000_000, MINIMUM_BALANCE),
        Err(VaultError::VaultAlreadyExists)
    );
    assert_eq!(ctx.vault.lamports, 1);
    assert_eq!(ctx.signer.lamports, 5_000_000);
}

#[test]
fn deposit_rejects_amount_at_minimum() {
    let owner = addr(1);
    let program = addr(7);
    let mut ctx = action(&owner, &program, 5_000_000);
    assert_eq!(
        deposit(&mut ctx, 890_880, MINIMUM_BALANCE),
        Err(VaultError::InvalidAmount)
    );
    assert_eq!(ctx.vault.lamports, 0);
}

#[test]
fn deposit_accepts_amount_just_above_minimum() {
    let owner = addr(1);
    let program = addr(7);
    let mut ctx = action(&owner, &program, 5_000_000);
    assert_eq!(deposit(&mut ctx, 890_881, MINIMUM_BALANCE), Ok(()));
    assert_eq!(ctx.vault.lamports, 890_881);
    assert_eq!(ctx.signer.lamports, 5_000_000 - 890_881);
}

#[test]
fn deposit_rejects_unauthorized_caller() {
    let owner = addr(1);
    let program = addr(7);
    let mut ctx = action(&owner, &program, 5_000_000);
    ctx.signer_authorized = false;
    assert_eq!(
        deposit(&mut ctx, 1_000_000, MINIMUM_BALANCE),
        Err(VaultError::Unauthorized)
    );
}

#[test]
fn deposit_rejects_wrong_vault_address() {
    let owner = addr(1);
    let program = addr(7);
    let mut ctx = action(&owner, &program, 5_000_000);
    ctx.vault.address = addr(200);
    assert_eq!(
        deposit(&mut ctx, 1_000_000, MINIMUM_BALANCE),
        Err(VaultError::InvalidVaultAddress)
    );
    // The same rejection regardless of balance.
    ctx.vault.lamports = 123;
    assert_eq!(
        deposit(&mut ctx, 1_000_000, MINIMUM_BALANCE),
        Err(VaultError::InvalidVaultAddress)
    );
}

#[test]
fn deposit_propagates_transfer_failure() {
    let owner = addr(1);
    let program = addr(7);
    let mut ctx = action(&owner, &program, 900_000);
    assert_eq!(
        deposit(&mut ctx, 1_000_000, MINIMUM_BALANCE),
        Err(VaultError::TransferFailure)
    );
    assert_eq!(ctx.signer.lamports, 900_000);
    assert_eq!(ctx.vault.lamports, 0);
}

#[test]
fn withdraw_empties_the_vault() {
    let owner = addr(1);
    let program = addr(7);
    let mut ctx = action(&owner, &program, 5_000_000);
    assert_eq!(deposit(&mut ctx, 1_000_000, MINIMUM_BALANCE), Ok(()));
    assert_eq!(withdraw(&mut ctx), Ok(()));
    assert_eq!(ctx.vault.lamports, 0);
    assert_eq!(ctx.signer.lamports, 5_000_000);
}

#[test]
fn withdraw_of_empty_vault_is_a_no_op() {
    let owner = addr(1);
    let program = addr(7);
    let mut ctx = action(&owner, &program, 2_500_000);
    assert_eq!(withdraw(&mut ctx), Ok(()));
    assert_eq!(ctx.vault.lamports, 0);
    assert_eq!(ctx.signer.lamports, 2_500_000);
}

#[test]
fn withdraw_rejects_unauthorized_caller() {
    let owner = addr(1);
    let program = addr(7);
    let mut ctx = action(&owner, &program, 5_000_000);
    ctx.signer_authorized = false;
    assert_eq!(withdraw(&mut ctx), Err(VaultError::Unauthorized));
}

#[test]
fn withdraw_rejects_foreign_signer() {
    let owner = addr(1);
    let intruder = addr(2);
    let program = addr(7);
    // The vault was derived for `owner`, but `intruder` signs.
    let (vault_address, _) = derived_vault(&owner, &program);
    let mut ctx = VaultAction {
        signer: Account { address: intruder, lamports: 0 },
        signer_authorized: true,
        vault: Account { address: vault_address, lamports: 1_000_000 },
        program_id: program,
    };
    assert_eq!(withdraw(&mut ctx), Err(VaultError::InvalidVaultAddress));
    assert_eq!(ctx.vault.lamports, 1_000_000);
}

#[test]
fn withdraw_propagates_transfer_failure_on_overflow() {
    let owner = addr(1);
    let program = addr(7);
    let mut ctx = action(&owner, &program, u64::MAX);
    ctx.vault.lamports = 1;
    assert_eq!(withdraw(&mut ctx), Err(VaultError::TransferFailure));
    assert_eq!(ctx.vault.lamports, 1);
    assert_eq!(ctx.signer.lamports, u64::MAX);
}

#[test]
fn transfer_units_moves_or_fails_whole() {
    assert_eq!(transfer_units(10, 5, 4), Ok((6, 9)));
    assert_eq!(transfer_units(10, 5, 0), Ok((10, 5)));
    assert_eq!(transfer_units(3, 5, 4), Err(VaultError::TransferFailure));
    assert_eq!(transfer_units(10, u64::MAX, 1), Err(VaultError::TransferFailure));
}

#[test]
fn full_vault_lifecycle() {
    let owner = addr(11);
    let program = addr(7);
    let mut ctx = action(&owner, &program, 5_000_000);

    // Deposit on an empty vault succeeds.
    assert_eq!(deposit(&mut ctx, 1_000_000, MINIMUM_BALANCE), Ok(()));
    assert_eq!(ctx.vault.lamports, 1_000_000);

    // An immediate second deposit fails: the vault already exists.
    assert_eq!(
        deposit(&mut ctx, 1_000_000, MINIMUM_BALANCE),
        Err(VaultError::VaultAlreadyExists)
    );
    assert_eq!(ctx.vault.lamports, 1_000_000);

    // Withdrawal empties the vault and returns the funds to the owner.
    assert_eq!(withdraw(&mut ctx), Ok(()));
    assert_eq!(ctx.vault.lamports, 0);
    assert_eq!(ctx.signer.lamports, 5_000_000);

    // A second withdrawal succeeds as a no-op; balances are unchanged.
    assert_eq!(withdraw(&mut ctx), Ok(()));
    assert_eq!(ctx.vault.lamports, 0);
    assert_eq!(ctx.signer.lamports, 5_000_000);
}
