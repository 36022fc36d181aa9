//! The account address type of the Solana runtime, as the engine uses it: an opaque
//! identity that is stored, handed on and compared, never taken apart.
use anchor_lang::prelude::Pubkey;
use vstd::prelude::*;

verus! {

/// Makes `anchor_lang::prelude::Pubkey` known to the verifier as an opaque type.
#[verifier::external_type_specification]
#[verifier::external_body]
pub struct ExPubkey(Pubkey);

/// The key that `Pubkey::new_from_array` makes of 32 bytes.
pub uninterp spec fn key_of_bytes(bytes: Seq<u8>) -> Pubkey;

/// The key of 32 zero bytes, which stands where a record has no key to show.
pub open spec fn zero_key() -> Pubkey {
    key_of_bytes(Seq::new(32, |i: int| 0u8))
}

/// Calls `==` of `Pubkey`, which the type derives over its 32 bytes. Trusted: it
/// returns `true` exactly when both arguments are the same key.
#[verifier::external_body]
pub(crate) fn same_key(a: &Pubkey, b: &Pubkey) -> (same: bool)
    ensures
        same == (*a == *b),
{
    a == b
}

/// Calls `Pubkey::new_from_array`. Trusted: the key depends on the bytes alone.
#[verifier::external_body]
pub(crate) fn key_from_bytes(bytes: [u8; 32]) -> (key: Pubkey)
    ensures
        key == key_of_bytes(bytes@),
{
    Pubkey::new_from_array(bytes)
}

/// Makes the key of 32 zero bytes.
pub(crate) fn default_key() -> (key: Pubkey)
    ensures
        key == zero_key(),
{
    let bytes = [0u8;32];
    assert(bytes@ =~= Seq::new(32, |i: int| 0u8));
    key_from_bytes(bytes)
}

/// Makes an array of keys of 32 zero bytes. Every slot is written once more by hand:
/// of an array of keys that is made in one go the verifier sees the length alone.
pub(crate) fn default_keys<const N: usize>() -> (keys: [Pubkey; N])
    ensures
        forall|i: int| 0 <= i < N ==> keys[i] == zero_key(),
{
    let key = default_key();
    let mut keys = [key;N];
    let mut i: usize = 0;
    while i < N
        invariant
            i <= N,
            key == zero_key(),
            forall|j: int| 0 <= j < i ==> keys[j] == zero_key(),
        decreases N - i,
    {
        keys[i] = key;
        i += 1;
    }
    keys
}

} // verus!
