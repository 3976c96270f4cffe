//! Identities of the parties that own and sign for records.

use vstd::prelude::*;

verus! {

/// A cryptographic identity, as the core logic sees it.
///
/// On the ledger an identity is a public key; the core only ever compares
/// identities for equality, so a plain numeric key stands for it here. The
/// runtime that checks signatures hands each operation the identity of the
/// caller that actually signed.
#[derive(Clone, Copy, Debug, Hash, PartialEq, Eq, Structural)]
pub struct Identity {
    pub key: u64,
}

} // verus!
