//! Account identities. An identity is a `Pubkey` of `solana_program`; the
//! engine stores identities, hands them to collaborators and compares them,
//! and never looks inside one.

use solana_program::pubkey::Pubkey;
use vstd::prelude::*;

verus! {

/// `solana_program::pubkey::Pubkey`, carried through as an opaque value.
#[verifier::external_type_specification]
#[verifier::external_body]
pub struct ExPubkey(Pubkey);

/// Calls `Pubkey::eq`, which `solana_program` derives over the key's 32
/// bytes: two identities compare equal exactly when they are the same value.
#[verifier::external_body]
pub(crate) fn same_identity(a: &Pubkey, b: &Pubkey) -> (same: bool)
    ensures
        same == (*a == *b),
{
    a.eq(b)
}

/// `Pubkey::clone`, which `solana_program` derives for this `Copy` type: the
/// clone is the identity itself.
pub assume_specification[ <Pubkey as Clone>::clone ](key: &Pubkey) -> (copy: Pubkey)
    ensures
        copy == *key,
;

/// Calls `Pubkey::default`, the identity that `solana_program` derives as
/// the default. Nothing is claimed of it.
#[verifier::external_body]
pub(crate) fn default_identity() -> Pubkey {
    Pubkey::default()
}

} // verus!
