//! The account keys that the list holds, as the library sees them.

use vstd::prelude::*;
use anchor_lang::prelude::Pubkey;

verus! {

/// The 32-byte account key of the platform. The library stores keys, hands
/// them on and compares them; it never looks inside one.
#[verifier::external_type_specification]
#[verifier::external_body]
pub struct ExPubkey(anchor_lang::prelude::Pubkey);

/// `Pubkey` is `Copy`, and its derived `clone` returns the key it was given.
pub assume_specification[ <anchor_lang::prelude::Pubkey as Clone>::clone ](
    key: &anchor_lang::prelude::Pubkey,
) -> (copy: anchor_lang::prelude::Pubkey)
    ensures
        copy == *key,
;

/// Compares two keys with `Pubkey`'s `==`, which holds exactly when both are
/// the same 32 bytes, that is, the same key.
#[verifier::external_body]
pub(crate) fn same_key(a: &Pubkey, b: &Pubkey) -> (same: bool)
    ensures
        same == (*a == *b),
{
    a == b
}

/// The keys of `src` from position `from` up to, not including, `to`.
pub fn copy_keys(src: &Vec<Pubkey>, from: usize, to: usize) -> (out: Vec<Pubkey>)
    requires
        from <= to <= src@.len(),
    ensures
        out@ == src@.subrange(from as int, to as int),
{
    let mut out: Vec<Pubkey> = Vec::new();
    let mut i: usize = from;
    while i < to
        invariant
            from <= i <= to <= src@.len(),
            out@ == src@.subrange(from as int, i as int),
        decreases to - i,
    {
        out.push(src[i]);
        i += 1;
    }
    out
}

} // verus!
