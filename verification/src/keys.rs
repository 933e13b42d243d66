//! Key-material configuration and public-key presentation. Derivation and
//! signing themselves belong to the cryptographic collaborator outside this
//! library, which re-derives from the fixed path on every call and keeps no
//! private material between calls.

use crate::format::{hex_lower, spec_hex_lower};
use crate::tx::copy_range;
use vstd::prelude::*;

verus! {

/// The fixed derivation path as indices: 44', 535348', 0', 0, 0, hardened
/// indices carrying the high bit.
pub open spec fn spec_derivation_path() -> Seq<u32> {
    seq![0x8000002Cu32, 0x80082B34u32, 0x80000000u32, 0u32, 0u32]
}

/// The process-wide constant derivation path, read by both the public-key
/// and signing operations. Configuration, never mutated.
pub fn derivation_path() -> (r: Vec<u32>)
    ensures
        r@ == spec_derivation_path(),
{
    let mut p: Vec<u32> = Vec::new();
    p.push(0x8000002C);
    p.push(0x80082B34);
    p.push(0x80000000);
    p.push(0);
    p.push(0);
    proof {
        assert(p@ =~= spec_derivation_path());
    }
    p
}

/// Splits an uncompressed 65-byte public key (prefix byte, then two 32-byte
/// coordinates) into the two lowercase hex strings shown one after the other.
pub fn pubkey_display_parts(pk: &Vec<u8>) -> (r: (Vec<u8>, Vec<u8>))
    requires
        pk@.len() == 65,
    ensures
        r.0@ == spec_hex_lower(pk@.subrange(1, 33)),
        r.1@ == spec_hex_lower(pk@.subrange(33, 65)),
{
    let x = copy_range(pk, 1, 33);
    let y = copy_range(pk, 33, 65);
    (hex_lower(&x), hex_lower(&y))
}

} // verus!
