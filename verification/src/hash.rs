//! Path normalization and hashing.
//!
//! Logical paths inside the container are addressed by a 32-bit hash of the
//! normalized path bytes. Normalization lowercases ASCII letters and turns
//! backslashes into forward slashes; the hash is 32-bit FNV-1a over the
//! normalized bytes. Both rules are format constants: a lookup that uses any
//! other rule yields a false "not found" (it fails closed), never a wrong
//! entry.

use vstd::prelude::*;

verus! {

/// FNV-1a 32-bit offset basis.
pub const FNV_OFFSET: u32 = 0x811C9DC5;

/// FNV-1a 32-bit prime.
pub const FNV_PRIME: u32 = 0x01000193;

/// One normalized path byte: ASCII letters lowercased, backslash to slash.
pub open spec fn spec_norm_byte(b: u8) -> u8 {
    if b == ('\\' as u8) {
        '/' as u8
    } else if ('A' as u8) <= b <= ('Z' as u8) {
        (b + 0x20) as u8
    } else {
        b
    }
}

/// The normalized form of a whole path.
pub open spec fn spec_norm_path(s: Seq<u8>) -> Seq<u8> {
    s.map_values(|b: u8| spec_norm_byte(b))
}

/// One FNV-1a step: fold the byte in, multiply by the prime modulo 2^32.
pub open spec fn fnv_step(h: u32, b: u8) -> u32 {
    (((h ^ b as u32) as int * FNV_PRIME as int) % 0x100000000) as u32
}

/// FNV-1a folded over `s` from index `i` on, starting from state `h`.
pub open spec fn fnv1a_from(s: Seq<u8>, i: int, h: u32) -> u32
    decreases s.len() - i,
{
    if 0 <= i < s.len() {
        fnv1a_from(s, i + 1, fnv_step(h, s[i]))
    } else {
        h
    }
}

/// FNV-1a 32-bit hash of a byte sequence.
pub open spec fn fnv1a(s: Seq<u8>) -> u32 {
    fnv1a_from(s, 0, FNV_OFFSET)
}

/// The hash a path resolves to: FNV-1a of its normalized bytes.
pub open spec fn spec_path_hash(s: Seq<u8>) -> u32 {
    fnv1a(spec_norm_path(s))
}

/// Normalize one path byte.
pub fn norm_byte(b: u8) -> (r: u8)
    ensures
        r == spec_norm_byte(b),
{
    if b == '\\' as u8 {
        '/' as u8
    } else if 'A' as u8 <= b && b <= 'Z' as u8 {
        b + 0x20
    } else {
        b
    }
}

/// Normalize a whole path.
pub fn normalize_path(path: &[u8]) -> (r: Vec<u8>)
    ensures
        r@ == spec_norm_path(path@),
{
    let mut v: Vec<u8> = Vec::new();
    let mut i: usize = 0;
    while i < path.len()
        invariant
            i <= path@.len(),
            v@ == spec_norm_path(path@).subrange(0, i as int),
        decreases path@.len() - i,
    {
        v.push(norm_byte(path[i]));
        i = i + 1;
        proof {
            assert(v@ =~= spec_norm_path(path@).subrange(0, i as int));
        }
    }
    proof {
        assert(v@ =~= spec_norm_path(path@));
    }
    v
}

/// Hash a path: normalize it, then fold FNV-1a over the normalized bytes.
pub fn path_hash(path: &[u8]) -> (r: u32)
    ensures
        r == spec_path_hash(path@),
{
    let ghost ns = spec_norm_path(path@);
    let mut h: u32 = FNV_OFFSET;
    let mut i: usize = 0;
    while i < path.len()
        invariant
            i <= path@.len(),
            ns == spec_norm_path(path@),
            fnv1a_from(ns, i as int, h) == fnv1a(ns),
        decreases path@.len() - i,
    {
        let nb = norm_byte(path[i]);
        let ghost h0 = h;
        let x: u64 = (h ^ nb as u32) as u64;
        proof {
            assert(ns[i as int] == spec_norm_byte(path@[i as int]));
            assert(x <= 0xFFFF_FFFF);
            assert(x * (FNV_PRIME as u64) <= 0xFFFF_FFFFu64 * (FNV_PRIME as u64))
                by (nonlinear_arith)
                requires
                    x <= 0xFFFF_FFFFu64,
            ;
        }
        let prod: u64 = x * (FNV_PRIME as u64);
        h = (prod % 0x100000000) as u32;
        proof {
            assert(h == fnv_step(h0, nb));
            assert(fnv1a_from(ns, i as int, h0) == fnv1a_from(ns, i + 1, fnv_step(h0, ns[i as int])));
        }
        i = i + 1;
    }
    h
}

} // verus!
