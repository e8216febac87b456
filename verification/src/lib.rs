//! A minimal custodial vault over an account-based value ledger.
//!
//! A single owner deposits funds into a holding account whose address is
//! derived deterministically from a domain tag and the owner's identity, and
//! later withdraws the full balance back to themselves. The holding account
//! has no private key: program logic proves its authority over the account by
//! re-deriving the address together with a disambiguation value ("bump").

pub mod address;
pub mod error;
pub mod ops;
