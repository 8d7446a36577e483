//! Identities. The ledger treats an identity as an opaque token that can only
//! be compared with another.

use vstd::prelude::*;
use anchor_lang::prelude::Pubkey;

verus! {

/// The outside type `Pubkey`: an identity of 32 bytes, opaque here.
#[verifier::external_type_specification]
#[verifier::external_body]
pub struct ExPubkey(anchor_lang::prelude::Pubkey);

/// Trusted: `Pubkey`'s `clone`. A key is a plain value, and its clone is the
/// same key.
pub assume_specification[ <Pubkey as Clone>::clone ](key: &Pubkey) -> (r: Pubkey)
    ensures
        r == *key,
;

/// Trusted: `Pubkey`'s `==`, which compares the 32 bytes of the two keys.
/// The contract takes that comparison as equality of the keys.
#[verifier::external_body]
pub(crate) fn same_key(a: &Pubkey, b: &Pubkey) -> (r: bool)
    ensures
        r == (*a == *b),
{
    a == b
}

} // verus!
