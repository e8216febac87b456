//! Deterministic holding-account addresses.
//!
//! An address is 32 bytes. The holding account's address is never stored as
//! an independent credential: it is re-derived on every operation from the
//! domain tag and the owner identity, together with a disambiguation value
//! ("bump") that guarantees the address is off-curve, so that no private key
//! for it exists.

use vstd::prelude::*;

use crate::error::VaultError;

verus! {

/// The number of bytes in a ledger address.
pub const ADDRESS_LEN: usize = 32;

/// A ledger address: the identity of an account, 32 bytes long.
#[derive(Clone, Debug)]
pub struct Address {
    bytes: Vec<u8>,
}

impl View for Address {
    type V = Seq<u8>;

    closed spec fn view(&self) -> Seq<u8> {
        self.bytes@
    }
}

impl Address {
    /// A well-formed address holds exactly 32 bytes.
    pub open spec fn wf(&self) -> bool {
        self@.len() == ADDRESS_LEN
    }

    /// Builds an address from its raw bytes; rejects any length other
    /// than 32.
    pub fn new(bytes: Vec<u8>) -> (r: Option<Address>)
        ensures
            match r {
                Some(a) => a@ == bytes@ && a.wf(),
                None => bytes@.len() != ADDRESS_LEN,
            },
    {
        if bytes.len() == ADDRESS_LEN {
            Some(Address { bytes })
        } else {
            None
        }
    }

    /// The raw bytes of the address.
    pub fn as_bytes(&self) -> (r: &Vec<u8>)
        ensures
            r@ == self@,
    {
        &self.bytes
    }

    /// Bit-for-bit equality of two addresses.
    pub fn matches(&self, other: &Address) -> (r: bool)
        ensures
            r == (self@ == other@),
    {
        if self.bytes.len() != other.bytes.len() {
            return false;
        }
        let n = self.bytes.len();
        let mut i: usize = 0;
        while i < n
            invariant
                n == self@.len(),
                n == other@.len(),
                i <= n,
                forall|j: int| 0 <= j < i ==> self@[j] == other@[j],
            decreases n - i,
        {
            if self.bytes[i] != other.bytes[i] {
                return false;
            }
            i += 1;
        }
        proof {
            assert(self@ =~= other@);
        }
        true
    }
}

/// The address and bump that the ledger's program-derived-address search
/// yields for the given seed pair and program identity, or `None` when no
/// bump in the admissible range yields an off-curve address. The search is
/// deterministic: it depends on its arguments alone.
pub uninterp spec fn pda_result(tag: Seq<u8>, owner: Seq<u8>, program: Seq<u8>) -> Option<(Seq<u8>, u8)>;

/// Relies on `Pubkey::try_find_program_address` of solana_pubkey (re-exported
/// by anchor_lang): a pure, deterministic search over bump values, from 255
/// downward, for the first seed extension whose hash is off-curve; it returns
/// that 32-byte address with its bump, or `None` when no bump works or a seed
/// is over the admissible length.
#[verifier::external_body]
fn find_program_address_raw(tag: &Vec<u8>, owner: &Vec<u8>, program: &Vec<u8>) -> (r: Option<(Vec<u8>, u8)>)
    requires
        program@.len() == ADDRESS_LEN,
    ensures
        match r {
            Some(p) => pda_result(tag@, owner@, program@) == Some((p.0@, p.1)) && p.0@.len() == ADDRESS_LEN,
            None => pda_result(tag@, owner@, program@) is None,
        },
{
    let mut pid_bytes = [0u8; 32];
    pid_bytes.copy_from_slice(program.as_slice());
    let pid = anchor_lang::prelude::Pubkey::new_from_array(pid_bytes);
    let seeds: [&[u8]; 2] = [tag.as_slice(), owner.as_slice()];
    anchor_lang::prelude::Pubkey::try_find_program_address(&seeds, &pid)
        .map(|(addr, bump)| (addr.to_bytes().to_vec(), bump))
}

/// Derives the holding-account address and bump for a domain tag, an owner
/// identity and a program identity.
///
/// Deterministic: identical inputs always yield identical outputs. The only
/// failure is `DerivationExhausted`, exactly when no admissible bump yields
/// an off-curve address.
pub fn derive_address(tag: &Vec<u8>, owner: &Address, program: &Address) -> (r: Result<(Address, u8), VaultError>)
    requires
        program.wf(),
    ensures
        match r {
            Ok(p) => pda_result(tag@, owner@, program@) == Some((p.0@, p.1)) && p.0.wf(),
            Err(e) => e == VaultError::DerivationExhausted
                && pda_result(tag@, owner@, program@) is None,
        },
{
    match find_program_address_raw(tag, owner.as_bytes(), program.as_bytes()) {
        Some((bytes, bump)) => Ok((Address { bytes }, bump)),
        None => Err(VaultError::DerivationExhausted),
    }
}

/// Repeated derivations from identical inputs yield identical results: the
/// derivation is a pure function of the tag, the owner and the program.
pub proof fn lemma_derivation_deterministic(
    tag: Seq<u8>,
    owner: Seq<u8>,
    program: Seq<u8>,
    r1: Option<(Seq<u8>, u8)>,
    r2: Option<(Seq<u8>, u8)>,
)
    requires
        r1 == pda_result(tag, owner, program),
        r2 == pda_result(tag, owner, program),
    ensures
        r1 == r2,
{
}

} // verus!
