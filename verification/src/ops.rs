//! The deposit and withdraw operations over the modeled ledger state.
//!
//! Each operation is a single atomic unit of work: it first re-derives the
//! expected holding-account address, compares it against the account the
//! caller supplied, checks the caller's signing authority, and only then
//! moves value. On any failure the state is returned unchanged — no partial
//! balance mutation is ever observable.

use vstd::prelude::*;

use crate::address::{derive_address, pda_result, Address};
use crate::error::VaultError;

verus! {

/// The domain tag under which holding accounts are derived: the bytes of the
/// literal `"vault"`.
pub open spec fn vault_tag() -> Seq<u8> {
    seq![118u8, 97u8, 117u8, 108u8, 116u8]
}

/// The domain tag as a byte vector, for the executable derivation.
pub fn vault_tag_bytes() -> (r: Vec<u8>)
    ensures
        r@ == vault_tag(),
{
    let mut v: Vec<u8> = Vec::new();
    v.push(118);
    v.push(97);
    v.push(117);
    v.push(108);
    v.push(116);
    proof {
        assert(v@ =~= vault_tag());
    }
    v
}

/// A ledger account as the operations see it: its address and its balance in
/// the ledger's smallest unit.
pub struct Account {
    /// The account's address.
    pub address: Address,
    /// The account's current balance.
    pub lamports: u64,
}

/// The mathematical value of an [`Account`].
#[verifier::ext_equal]
pub ghost struct AccountV {
    /// The address bytes.
    pub address: Seq<u8>,
    /// The balance.
    pub lamports: u64,
}

impl View for Account {
    type V = AccountV;

    open spec fn view(&self) -> AccountV {
        AccountV { address: self.address@, lamports: self.lamports }
    }
}

impl Account {
    /// A well-formed account carries a well-formed address.
    pub open spec fn wf(&self) -> bool {
        self.address.wf()
    }
}

/// The fixed account set that both operations take: the authorizing owner,
/// the holding account, and the identity of the program under which the
/// holding account is derived.
pub struct VaultAction {
    /// The owner: the account that signs the operation and that funds move
    /// from (deposit) or to (withdraw).
    pub signer: Account,
    /// Whether the ledger has verified the caller's signature over the
    /// signer identity — a fact delegated to the external runtime and
    /// consumed here as a boolean.
    pub signer_authorized: bool,
    /// The holding account the caller claims custodies the funds.
    pub vault: Account,
    /// The program identity under which the holding account is derived;
    /// configuration, fixed per deployment.
    pub program_id: Address,
}

/// The mathematical value of a [`VaultAction`].
#[verifier::ext_equal]
pub ghost struct VaultActionV {
    /// The owner account.
    pub signer: AccountV,
    /// The verified-signature fact.
    pub signer_authorized: bool,
    /// The holding account.
    pub vault: AccountV,
    /// The program identity bytes.
    pub program_id: Seq<u8>,
}

impl View for VaultAction {
    type V = VaultActionV;

    open spec fn view(&self) -> VaultActionV {
        VaultActionV {
            signer: self.signer@,
            signer_authorized: self.signer_authorized,
            vault: self.vault@,
            program_id: self.program_id@,
        }
    }
}

impl VaultAction {
    /// A well-formed action carries well-formed addresses throughout.
    pub open spec fn wf(&self) -> bool {
        self.signer.wf() && self.vault.wf() && self.program_id.wf()
    }
}

/// What the authorization check decides: the bump on success, or the first
/// failing condition. The caller must have proven control of the owner
/// identity, and the supplied holding account must equal the address the
/// derivation computes for (tag, owner identity, program identity).
pub open spec fn auth_spec(st: VaultActionV) -> Result<u8, VaultError> {
    if !st.signer_authorized {
        Err(VaultError::Unauthorized)
    } else {
        match pda_result(vault_tag(), st.signer.address, st.program_id) {
            None => Err(VaultError::DerivationExhausted),
            Some(p) => if st.vault.address != p.0 {
                Err(VaultError::InvalidVaultAddress)
            } else {
                Ok(p.1)
            },
        }
    }
}

/// True when the supplied holding account is exactly the one the derivation
/// yields for the signer identity.
pub open spec fn vault_matches_derivation(st: VaultActionV) -> bool {
    match pda_result(vault_tag(), st.signer.address, st.program_id) {
        Some(p) => st.vault.address == p.0,
        None => false,
    }
}

/// Confirms the caller's authority and re-derives the holding-account
/// address; returns the bump, the capability under which program logic may
/// later move funds out of the holding account.
pub fn check_authorization(ctx: &VaultAction) -> (r: Result<u8, VaultError>)
    requires
        ctx.wf(),
    ensures
        r == auth_spec(ctx@),
{
    if !ctx.signer_authorized {
        return Err(VaultError::Unauthorized);
    }
    let tag = vault_tag_bytes();
    match derive_address(&tag, &ctx.signer.address, &ctx.program_id) {
        Err(e) => Err(e),
        Ok((derived, bump)) => {
            if ctx.vault.address.matches(&derived) {
                Ok(bump)
            } else {
                Err(VaultError::InvalidVaultAddress)
            }
        },
    }
}

/// The observable effect of the external value-transfer primitive on the two
/// balances it touches: it either moves the whole amount or fails without
/// moving anything.
pub open spec fn transfer_spec(from: u64, to: u64, amount: u64) -> Result<(u64, u64), VaultError> {
    if amount > from || to + amount > u64::MAX {
        Err(VaultError::TransferFailure)
    } else {
        Ok(((from - amount) as u64, (to + amount) as u64))
    }
}

/// Moves `amount` units from one balance to another, failing exactly when
/// the source holds too little or the destination would overflow.
pub fn transfer_units(from: u64, to: u64, amount: u64) -> (r: Result<(u64, u64), VaultError>)
    ensures
        r == transfer_spec(from, to, amount),
{
    if amount > from || amount > u64::MAX - to {
        Err(VaultError::TransferFailure)
    } else {
        Ok((from - amount, to + amount))
    }
}

/// What a deposit decides and does, checked in order, first failure wins:
/// the authorization check, then the holding account must be empty, then the
/// amount must strictly exceed the minimum viable balance, and finally the
/// transfer itself must go through.
pub open spec fn deposit_spec(st: VaultActionV, amount: u64, minimum_balance: u64) -> Result<
    VaultActionV,
    VaultError,
> {
    match auth_spec(st) {
        Err(e) => Err(e),
        Ok(_) => if st.vault.lamports != 0 {
            Err(VaultError::VaultAlreadyExists)
        } else if amount <= minimum_balance {
            Err(VaultError::InvalidAmount)
        } else {
            match transfer_spec(st.signer.lamports, st.vault.lamports, amount) {
                Err(e) => Err(e),
                Ok(b) => Ok(
                    VaultActionV {
                        signer: AccountV { lamports: b.0, ..st.signer },
                        vault: AccountV { lamports: b.1, ..st.vault },
                        ..st
                    },
                ),
            }
        },
    }
}

/// What a withdrawal decides and does: after the authorization check — whose
/// bump is the capability presented to the transfer primitive in place of a
/// private-key signature — the holding account's entire balance moves back
/// to the owner. An empty holding account withdraws zero units and succeeds
/// as a no-op.
pub open spec fn withdraw_spec(st: VaultActionV) -> Result<VaultActionV, VaultError> {
    match auth_spec(st) {
        Err(e) => Err(e),
        Ok(_) => match transfer_spec(st.vault.lamports, st.signer.lamports, st.vault.lamports) {
            Err(e) => Err(e),
            Ok(b) => Ok(
                VaultActionV {
                    signer: AccountV { lamports: b.1, ..st.signer },
                    vault: AccountV { lamports: b.0, ..st.vault },
                    ..st
                },
            ),
        },
    }
}

/// Deposits `amount` units from the owner into the empty holding account.
///
/// On success the holding balance equals `amount` and the owner balance
/// decreases by `amount`; on any failure the state is unchanged and the
/// error names the first failing precondition.
pub fn deposit(ctx: &mut VaultAction, amount: u64, minimum_balance: u64) -> (r: Result<
    (),
    VaultError,
>)
    requires
        old(ctx).wf(),
    ensures
        final(ctx).wf(),
        match r {
            Ok(()) => deposit_spec(old(ctx)@, amount, minimum_balance) == Ok::<
                VaultActionV,
                VaultError,
            >(final(ctx)@),
            Err(e) => deposit_spec(old(ctx)@, amount, minimum_balance) == Err::<
                VaultActionV,
                VaultError,
            >(e) && final(ctx)@ == old(ctx)@,
        },
{
    match check_authorization(ctx) {
        Err(e) => {
            return Err(e);
        },
        Ok(_) => {},
    }
    if ctx.vault.lamports != 0 {
        return Err(VaultError::VaultAlreadyExists);
    }
    if amount <= minimum_balance {
        return Err(VaultError::InvalidAmount);
    }
    match transfer_units(ctx.signer.lamports, ctx.vault.lamports, amount) {
        Err(e) => Err(e),
        Ok((from_after, to_after)) => {
            ctx.signer.lamports = from_after;
            ctx.vault.lamports = to_after;
            Ok(())
        },
    }
}

/// Withdraws the holding account's entire balance back to the owner.
///
/// On success the holding balance is zero and the owner balance increases by
/// the pre-withdrawal holding balance; an already-empty holding account is a
/// well-formed no-op. On any failure the state is unchanged.
pub fn withdraw(ctx: &mut VaultAction) -> (r: Result<(), VaultError>)
    requires
        old(ctx).wf(),
    ensures
        final(ctx).wf(),
        match r {
            Ok(()) => withdraw_spec(old(ctx)@) == Ok::<VaultActionV, VaultError>(final(ctx)@),
            Err(e) => withdraw_spec(old(ctx)@) == Err::<VaultActionV, VaultError>(e)
                && final(ctx)@ == old(ctx)@,
        },
{
    match check_authorization(ctx) {
        Err(e) => {
            return Err(e);
        },
        Ok(_) => {},
    }
    match transfer_units(ctx.vault.lamports, ctx.signer.lamports, ctx.vault.lamports) {
        Err(e) => Err(e),
        Ok((from_after, to_after)) => {
            ctx.vault.lamports = from_after;
            ctx.signer.lamports = to_after;
            Ok(())
        },
    }
}

/// A deposit against a holding account that already has a nonzero balance
/// fails with `VaultAlreadyExists`, whatever the amount, provided the
/// authorization check itself passes.
pub proof fn lemma_deposit_requires_empty_vault(st: VaultActionV, amount: u64, minimum_balance: u64)
    requires
        st.signer_authorized,
        vault_matches_derivation(st),
        st.vault.lamports != 0,
    ensures
        deposit_spec(st, amount, minimum_balance) == Err::<VaultActionV, VaultError>(
            VaultError::VaultAlreadyExists,
        ),
{
}

/// A deposit whose amount is at or below the minimum viable balance fails
/// with `InvalidAmount`, provided the authorization check passes and the
/// holding account is empty.
pub proof fn lemma_deposit_requires_viable_amount(
    st: VaultActionV,
    amount: u64,
    minimum_balance: u64,
)
    requires
        st.signer_authorized,
        vault_matches_derivation(st),
        st.vault.lamports == 0,
        amount <= minimum_balance,
    ensures
        deposit_spec(st, amount, minimum_balance) == Err::<VaultActionV, VaultError>(
            VaultError::InvalidAmount,
        ),
{
}

/// After a successful deposit of `amount` the holding balance equals
/// `amount`, the owner balance has decreased by `amount`, the holding
/// account was empty beforehand, and no address changed.
pub proof fn lemma_deposit_effect(
    st: VaultActionV,
    st2: VaultActionV,
    amount: u64,
    minimum_balance: u64,
)
    requires
        deposit_spec(st, amount, minimum_balance) == Ok::<VaultActionV, VaultError>(st2),
    ensures
        st.vault.lamports == 0,
        st2.vault.lamports == amount,
        st2.signer.lamports == st.signer.lamports - amount,
        amount > minimum_balance,
        st2.vault.address == st.vault.address,
        st2.signer.address == st.signer.address,
        st2.program_id == st.program_id,
{
}

/// After a successful withdrawal the holding balance is zero and the owner
/// balance has increased by the pre-withdrawal holding balance; no address
/// changed.
pub proof fn lemma_withdraw_effect(st: VaultActionV, st2: VaultActionV)
    requires
        withdraw_spec(st) == Ok::<VaultActionV, VaultError>(st2),
    ensures
        st2.vault.lamports == 0,
        st2.signer.lamports == st.signer.lamports + st.vault.lamports,
        st2.vault.address == st.vault.address,
        st2.signer.address == st.signer.address,
        st2.program_id == st.program_id,
{
}

/// A withdrawal against an already-empty holding account succeeds as a
/// no-op: it moves zero units and leaves both balances as they were.
pub proof fn lemma_withdraw_empty_vault_no_op(st: VaultActionV)
    requires
        st.signer_authorized,
        vault_matches_derivation(st),
        st.vault.lamports == 0,
    ensures
        withdraw_spec(st) matches Ok(st2) && st2.vault.lamports == 0 && st2.signer.lamports
            == st.signer.lamports && st2.vault.address == st.vault.address && st2.signer.address
            == st.signer.address,
{
}

/// A deposit followed by a withdrawal returns the owner to the starting
/// balance and leaves the holding account empty.
pub proof fn lemma_deposit_withdraw_round_trip(
    st: VaultActionV,
    mid: VaultActionV,
    fin: VaultActionV,
    amount: u64,
    minimum_balance: u64,
)
    requires
        deposit_spec(st, amount, minimum_balance) == Ok::<VaultActionV, VaultError>(mid),
        withdraw_spec(mid) == Ok::<VaultActionV, VaultError>(fin),
    ensures
        fin.signer.lamports == st.signer.lamports,
        fin.vault.lamports == 0,
        fin.signer.address == st.signer.address,
        fin.vault.address == st.vault.address,
{
}

/// A holding-account reference that is not the derived address makes both
/// operations fail with `InvalidVaultAddress`, regardless of any balance.
pub proof fn lemma_address_mismatch_rejected(
    st: VaultActionV,
    amount: u64,
    minimum_balance: u64,
    derived: (Seq<u8>, u8),
)
    requires
        st.signer_authorized,
        pda_result(vault_tag(), st.signer.address, st.program_id) == Some(derived),
        st.vault.address != derived.0,
    ensures
        deposit_spec(st, amount, minimum_balance) == Err::<VaultActionV, VaultError>(
            VaultError::InvalidVaultAddress,
        ),
        withdraw_spec(st) == Err::<VaultActionV, VaultError>(VaultError::InvalidVaultAddress),
{
}

/// A caller who has not proven control of the owner identity is rejected
/// with `Unauthorized` by both operations, before anything else is looked
/// at.
pub proof fn lemma_unauthorized_rejected(st: VaultActionV, amount: u64, minimum_balance: u64)
    requires
        !st.signer_authorized,
    ensures
        deposit_spec(st, amount, minimum_balance) == Err::<VaultActionV, VaultError>(
            VaultError::Unauthorized,
        ),
        withdraw_spec(st) == Err::<VaultActionV, VaultError>(VaultError::Unauthorized),
{
}

/// A signer who is not the identity used at derivation time is rejected: the
/// vault was derived for `owner`, the signer's own derivation yields a
/// different address, so the recomputation detects the mismatch and the
/// withdrawal fails with `InvalidVaultAddress`.
pub proof fn lemma_foreign_signer_rejected(
    st: VaultActionV,
    owner: Seq<u8>,
    derived_for_owner: (Seq<u8>, u8),
    derived_for_signer: (Seq<u8>, u8),
)
    requires
        st.signer_authorized,
        pda_result(vault_tag(), owner, st.program_id) == Some(derived_for_owner),
        st.vault.address == derived_for_owner.0,
        st.signer.address != owner,
        pda_result(vault_tag(), st.signer.address, st.program_id) == Some(derived_for_signer),
        derived_for_signer.0 != derived_for_owner.0,
    ensures
        withdraw_spec(st) == Err::<VaultActionV, VaultError>(VaultError::InvalidVaultAddress),
{
}

} // verus!
