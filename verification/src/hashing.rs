//! Stable hashing for fingerprints.
//!
//! The 64-bit FNV-1a hash is a pure function of the input bytes, so
//! the same value hashes the same in every process and on every
//! machine; cache files depend on that.

use vstd::prelude::*;

verus! {

/// FNV-1a offset basis.
pub const FNV_OFFSET: u64 = 14695981039346656037;

/// FNV-1a prime.
pub const FNV_PRIME: u64 = 1099511628211;

/// FNV-1a over a prefix of the input.
pub open spec fn spec_fnv1a(s: Seq<u8>, k: int) -> u64
    decreases k,
{
    if k <= 0 {
        FNV_OFFSET
    } else {
        ((spec_fnv1a(s, k - 1) ^ (s[k - 1] as u64)) as u64).wrapping_mul(FNV_PRIME)
    }
}

/// The stable 64-bit hash of a byte string.
pub open spec fn spec_hash(s: Seq<u8>) -> u64 {
    spec_fnv1a(s, s.len() as int)
}

/// Hash a byte string: FNV-1a, stable across runs and machines.
pub fn hash_u64(bytes: &[u8]) -> (r: u64)
    ensures
        r == spec_hash(bytes@),
{
    let n = bytes.len();
    let mut h: u64 = FNV_OFFSET;
    let mut i: usize = 0;
    while i < n
        invariant
            0 <= i <= n,
            n == bytes@.len(),
            h == spec_fnv1a(bytes@, i as int),
        decreases n - i,
    {
        h = (h ^ (bytes[i] as u64)).wrapping_mul(FNV_PRIME);
        i = i + 1;
    }
    h
}

/// One hex digit.
pub open spec fn spec_hex_digit(v: u8) -> u8 {
    if v < 10 {
        (48 + v) as u8
    } else {
        (87 + v) as u8
    }
}

/// The sixteen lowercase hex characters of a `u64`, least significant
/// byte first, as the fingerprint files store it.
pub open spec fn spec_to_hex(num: u64) -> Seq<u8> {
    let b = crate::serde_bin::spec_le64(num);
    Seq::new(16, |i: int| spec_hex_digit(
        if i % 2 == 0 {
            (b[i / 2] >> 4) as u8
        } else {
            (b[i / 2] & 0xf) as u8
        }))
}

/// Render a hash as sixteen lowercase hex characters.
pub fn to_hex(num: u64) -> (r: Vec<u8>)
    ensures
        r@ == spec_to_hex(num),
{
    let mut table: Vec<u8> = Vec::new();
    let mut d: u8 = 0;
    while d < 16
        invariant
            table@.len() == d <= 16,
            forall|j: int| 0 <= j < d ==> #[trigger] table@[j] == spec_hex_digit(j as u8),
        decreases 16 - d,
    {
        if d < 10 {
            table.push(48 + d);
        } else {
            table.push(87 + d);
        }
        d = d + 1;
    }
    let mut w = crate::serde_bin::BinaryWriter::new();
    w.write_u64(num);
    let b = w.into_inner();
    let mut out: Vec<u8> = Vec::new();
    let mut i: usize = 0;
    while i < 8
        invariant
            b@ == crate::serde_bin::spec_le64(num),
            b@.len() == 8,
            table@.len() == 16,
            forall|j: int| 0 <= j < 16 ==> #[trigger] table@[j] == spec_hex_digit(j as u8),
            0 <= i <= 8,
            out@.len() == 2 * i,
            forall|j: int| 0 <= j < 2 * i ==> #[trigger] out@[j] == spec_to_hex(num)[j],
        decreases 8 - i,
    {
        let byte = b[i];
        let hi = byte >> 4;
        let lo = byte & 0xf;
        proof {
            assert(hi < 16 && lo < 16) by (bit_vector)
                requires hi == byte >> 4 && lo == byte & 0xf;
        }
        out.push(table[hi as usize]);
        out.push(table[lo as usize]);
        proof {
            assert(out@[2 * i as int] == spec_hex_digit((b@[i as int] >> 4) as u8));
            assert(out@[2 * i + 1] == spec_hex_digit((b@[i as int] & 0xf) as u8));
            assert(forall|j: int| 0 <= j < 2 * (i + 1)
                ==> #[trigger] out@[j] == spec_to_hex(num)[j]);
        }
        i = i + 1;
    }
    proof {
        assert(out@ =~= spec_to_hex(num));
    }
    out
}

/// The stable hash is a function of the bytes alone: equal inputs give
/// equal hashes, in any process, on any machine.
pub proof fn lemma_hash_deterministic(a: Seq<u8>, b: Seq<u8>)
    requires
        a == b,
    ensures
        spec_hash(a) == spec_hash(b),
{
}

} // verus!
