//! Byte-string searching, shared by the tool-output parser and the
//! dependency-file codecs.

use vstd::prelude::*;

verus! {

/// The needle `n` occurs in the haystack `h` at position `i`.
pub open spec fn is_match_at(h: Seq<u8>, n: Seq<u8>, i: int) -> bool {
    0 <= i && i + n.len() <= h.len() && h.subrange(i, i + n.len()) == n
}

/// Relies on memchr::memchr: the index of the first occurrence of the byte.
#[verifier::external_body]
pub fn find_byte(haystack: &[u8], byte: u8) -> (r: Option<usize>)
    ensures
        match r {
            Some(i) => 0 <= i < haystack@.len() && haystack@[i as int] == byte
                && forall|j: int| 0 <= j < i ==> haystack@[j] != byte,
            None => forall|j: int| 0 <= j < haystack@.len() ==> haystack@[j] != byte,
        },
{
    memchr::memchr(byte, haystack)
}

/// Relies on memchr::memrchr: the index of the last occurrence of the byte.
#[verifier::external_body]
pub fn rfind_byte(haystack: &[u8], byte: u8) -> (r: Option<usize>)
    ensures
        match r {
            Some(i) => 0 <= i < haystack@.len() && haystack@[i as int] == byte
                && forall|j: int| i < j < haystack@.len() ==> haystack@[j] != byte,
            None => forall|j: int| 0 <= j < haystack@.len() ==> haystack@[j] != byte,
        },
{
    memchr::memrchr(byte, haystack)
}

/// Relies on memchr::memmem::find: the index of the first occurrence of the needle.
#[verifier::external_body]
pub fn find_sub(haystack: &[u8], needle: &[u8]) -> (r: Option<usize>)
    ensures
        match r {
            Some(i) => is_match_at(haystack@, needle@, i as int)
                && forall|j: int| 0 <= j < i ==> !is_match_at(haystack@, needle@, j),
            None => forall|j: int| !is_match_at(haystack@, needle@, j),
        },
{
    memchr::memmem::find(haystack, needle)
}

/// Relies on memchr::memmem::rfind: the index of the last occurrence of the needle.
#[verifier::external_body]
pub fn rfind_sub(haystack: &[u8], needle: &[u8]) -> (r: Option<usize>)
    ensures
        match r {
            Some(i) => is_match_at(haystack@, needle@, i as int)
                && forall|j: int| j > i ==> !is_match_at(haystack@, needle@, j),
            None => forall|j: int| !is_match_at(haystack@, needle@, j),
        },
{
    memchr::memmem::rfind(haystack, needle)
}

/// The byte string `s` starts with the prefix `p`.
pub open spec fn starts_with_spec(s: Seq<u8>, p: Seq<u8>) -> bool {
    p.len() <= s.len() && s.subrange(0, p.len() as int) == p
}

/// The byte string `s` ends with the suffix `p`.
pub open spec fn ends_with_spec(s: Seq<u8>, p: Seq<u8>) -> bool {
    p.len() <= s.len() && s.subrange(s.len() - p.len(), s.len() as int) == p
}

/// Compare two byte slices for equality.
pub fn bytes_eq(a: &[u8], b: &[u8]) -> (r: bool)
    ensures
        r <==> a@ == b@,
{
    if a.len() != b.len() {
        proof {
            assert(a@.len() != b@.len());
        }
        return false;
    }
    let mut i: usize = 0;
    while i < a.len()
        invariant
            0 <= i <= a@.len(),
            a@.len() == b@.len(),
            forall|j: int| 0 <= j < i ==> a@[j] == b@[j],
        decreases a@.len() - i,
    {
        if a[i] != b[i] {
            return false;
        }
        i = i + 1;
    }
    proof {
        assert(a@ =~= b@);
    }
    true
}

/// Does `s` start with `p`?
pub fn starts_with(s: &[u8], p: &[u8]) -> (r: bool)
    ensures
        r <==> starts_with_spec(s@, p@),
{
    if p.len() > s.len() {
        return false;
    }
    let head = slice_range(s, 0, p.len());
    bytes_eq(head, p)
}

/// Does `s` end with `p`?
pub fn ends_with(s: &[u8], p: &[u8]) -> (r: bool)
    ensures
        r <==> ends_with_spec(s@, p@),
{
    if p.len() > s.len() {
        return false;
    }
    let tail = slice_range(s, s.len() - p.len(), s.len());
    bytes_eq(tail, p)
}

/// Subslice `s[from..to]`.
pub fn slice_range<'a>(s: &'a [u8], from: usize, to: usize) -> (r: &'a [u8])
    requires
        from <= to <= s@.len(),
    ensures
        r@ == s@.subrange(from as int, to as int),
{
    &s[from..to]
}

/// Copy `s[from..to]` into a fresh vector.
pub fn sub_vec(s: &[u8], from: usize, to: usize) -> (r: Vec<u8>)
    requires
        from <= to <= s@.len(),
    ensures
        r@ == s@.subrange(from as int, to as int),
{
    let mut out: Vec<u8> = Vec::new();
    let mut i: usize = from;
    while i < to
        invariant
            from <= i <= to <= s@.len(),
            out@ == s@.subrange(from as int, i as int),
        decreases to - i,
    {
        out.push(s[i]);
        proof {
            assert(out@ =~= s@.subrange(from as int, i + 1));
        }
        i = i + 1;
    }
    out
}

/// Append all of `src` to `dst`.
pub fn push_all(dst: &mut Vec<u8>, src: &[u8])
    ensures
        final(dst)@ == old(dst)@ + src@,
{
    let mut i: usize = 0;
    while i < src.len()
        invariant
            0 <= i <= src@.len(),
            dst@ == old(dst)@ + src@.subrange(0, i as int),
        decreases src@.len() - i,
    {
        dst.push(src[i]);
        proof {
            assert(dst@ =~= old(dst)@ + src@.subrange(0, i + 1));
        }
        i = i + 1;
    }
    proof {
        assert(dst@ =~= old(dst)@ + src@);
    }
}


/// Index of the first occurrence of `n` in `h`, if any.
pub open spec fn spec_find(h: Seq<u8>, n: Seq<u8>) -> Option<int> {
    if exists|i: int| is_match_at(h, n, i) {
        Some(choose|i: int| is_match_at(h, n, i)
            && forall|j: int| 0 <= j < i ==> !is_match_at(h, n, j))
    } else {
        None
    }
}

/// Index of the last occurrence of `n` in `h`, if any.
pub open spec fn spec_rfind(h: Seq<u8>, n: Seq<u8>) -> Option<int> {
    if exists|i: int| is_match_at(h, n, i) {
        Some(choose|i: int| is_match_at(h, n, i)
            && forall|j: int| j > i ==> !is_match_at(h, n, j))
    } else {
        None
    }
}

/// Index of the first occurrence of byte `b` in `h`, if any.
pub open spec fn spec_find_byte(h: Seq<u8>, b: u8) -> Option<int> {
    spec_find(h, seq![b])
}

/// Index of the last occurrence of byte `b` in `h`, if any.
pub open spec fn spec_rfind_byte(h: Seq<u8>, b: u8) -> Option<int> {
    spec_rfind(h, seq![b])
}

/// First occurrence of a needle; the result equals `spec_find`.
pub fn find_first(h: &[u8], n: &[u8]) -> (r: Option<usize>)
    ensures
        match r {
            Some(u) => spec_find(h@, n@) == Some(u as int)
                && is_match_at(h@, n@, u as int)
                && forall|j: int| 0 <= j < u ==> !is_match_at(h@, n@, j),
            None => spec_find(h@, n@) is None
                && forall|j: int| !is_match_at(h@, n@, j),
        },
{
    let r = find_sub(h, n);
    proof {
        match r {
            Some(u) => {
                assert(is_match_at(h@, n@, u as int));
                let i = choose|i: int| is_match_at(h@, n@, i)
                    && forall|j: int| 0 <= j < i ==> !is_match_at(h@, n@, j);
                assert(!(i < u) && !(u < i));
            }
            None => {}
        }
    }
    r
}

/// Last occurrence of a needle; the result equals `spec_rfind`.
pub fn rfind_last(h: &[u8], n: &[u8]) -> (r: Option<usize>)
    ensures
        match r {
            Some(u) => spec_rfind(h@, n@) == Some(u as int)
                && is_match_at(h@, n@, u as int)
                && forall|j: int| j > u ==> !is_match_at(h@, n@, j),
            None => spec_rfind(h@, n@) is None
                && forall|j: int| !is_match_at(h@, n@, j),
        },
{
    let r = rfind_sub(h, n);
    proof {
        match r {
            Some(u) => {
                assert(is_match_at(h@, n@, u as int));
                let i = choose|i: int| is_match_at(h@, n@, i)
                    && forall|j: int| j > i ==> !is_match_at(h@, n@, j);
                assert(!(i < u) && !(u < i));
            }
            None => {}
        }
    }
    r
}

/// First occurrence of a byte; the result equals `spec_find_byte`.
pub fn find_byte_first(h: &[u8], b: u8) -> (r: Option<usize>)
    ensures
        match r {
            Some(u) => spec_find_byte(h@, b) == Some(u as int)
                && u < h@.len() && h@[u as int] == b
                && forall|j: int| 0 <= j < u ==> h@[j] != b,
            None => spec_find_byte(h@, b) is None
                && forall|j: int| 0 <= j < h@.len() ==> h@[j] != b,
        },
{
    let r = find_byte(h, b);
    proof {
        match r {
            Some(u) => {
                assert(h@.subrange(u as int, u as int + 1) =~= seq![b]);
                assert(is_match_at(h@, seq![b], u as int));
                assert forall|j: int| 0 <= j < u implies !is_match_at(h@, seq![b], j) by {
                    if is_match_at(h@, seq![b], j) {
                        assert(h@.subrange(j, j + 1)[0] == h@[j]);
                    }
                }
                let i = choose|i: int| is_match_at(h@, seq![b], i)
                    && forall|j: int| 0 <= j < i ==> !is_match_at(h@, seq![b], j);
                assert(!(i < u) && !(u < i));
            }
            None => {
                assert forall|j: int| !is_match_at(h@, seq![b], j) by {
                    if is_match_at(h@, seq![b], j) {
                        assert(h@.subrange(j, j + 1)[0] == h@[j]);
                    }
                }
            }
        }
    }
    r
}

/// Last occurrence of a byte; the result equals `spec_rfind_byte`.
pub fn rfind_byte_last(h: &[u8], b: u8) -> (r: Option<usize>)
    ensures
        match r {
            Some(u) => spec_rfind_byte(h@, b) == Some(u as int)
                && u < h@.len() && h@[u as int] == b
                && forall|j: int| u < j < h@.len() ==> h@[j] != b,
            None => spec_rfind_byte(h@, b) is None
                && forall|j: int| 0 <= j < h@.len() ==> h@[j] != b,
        },
{
    let r = rfind_byte(h, b);
    proof {
        match r {
            Some(u) => {
                assert(h@.subrange(u as int, u as int + 1) =~= seq![b]);
                assert(is_match_at(h@, seq![b], u as int));
                assert forall|j: int| j > u implies !is_match_at(h@, seq![b], j) by {
                    if is_match_at(h@, seq![b], j) {
                        assert(h@.subrange(j, j + 1)[0] == h@[j]);
                    }
                }
                let i = choose|i: int| is_match_at(h@, seq![b], i)
                    && forall|j: int| j > i ==> !is_match_at(h@, seq![b], j);
                assert(!(i < u) && !(u < i));
            }
            None => {
                assert forall|j: int| !is_match_at(h@, seq![b], j) by {
                    if is_match_at(h@, seq![b], j) {
                        assert(h@.subrange(j, j + 1)[0] == h@[j]);
                    }
                }
            }
        }
    }
    r
}

/// Decimal digits of `n`, most significant first.
pub open spec fn spec_decimal(n: nat) -> Seq<u8>
    decreases n,
{
    if n < 10 {
        seq![(48 + n) as u8]
    } else {
        spec_decimal(n / 10).push((48 + n % 10) as u8)
    }
}

/// Render `n` in decimal.
pub fn format_decimal(n: u64) -> (r: Vec<u8>)
    ensures
        r@ == spec_decimal(n as nat),
{
    let mut digits: Vec<u8> = Vec::new();
    let mut m = n;
    proof {
        assert(digits@.reverse() =~= Seq::<u8>::empty());
        assert(spec_decimal(n as nat) =~= spec_decimal(n as nat) + digits@.reverse());
    }
    loop
        invariant_except_break
            spec_decimal(n as nat) == spec_decimal(m as nat) + digits@.reverse(),
        ensures
            spec_decimal(n as nat) == digits@.reverse(),
        decreases m,
    {
        let ghost pre = digits@;
        let d = (48 + (m % 10) as u8) as u8;
        if m < 10 {
            digits.push(d);
            proof {
                assert(spec_decimal(m as nat) =~= seq![d]);
                assert(digits@.reverse() =~= seq![d] + pre.reverse());
                assert(spec_decimal(n as nat) =~= spec_decimal(m as nat) + pre.reverse());
                assert(spec_decimal(n as nat) =~= digits@.reverse());
            }
            break;
        }
        digits.push(d);
        proof {
            assert(digits@.reverse() =~= seq![d] + pre.reverse());
            assert(spec_decimal(m as nat) =~= spec_decimal((m as nat) / 10) + seq![d]);
            assert((m as nat) / 10 == (m / 10) as nat);
            assert(spec_decimal(n as nat)
                =~= spec_decimal((m / 10) as nat) + digits@.reverse());
        }
        m = m / 10;
    }
    let mut out: Vec<u8> = Vec::new();
    let mut i: usize = digits.len();
    proof {
        assert(out@ =~= digits@.reverse().take(digits@.len() - i));
    }
    while i > 0
        invariant
            0 <= i <= digits@.len(),
            out@ == digits@.reverse().take(digits@.len() - i),
        decreases i,
    {
        i = i - 1;
        out.push(digits[i]);
        proof {
            assert(digits@.reverse()[digits@.len() - i - 1] == digits@[i as int]);
            assert(out@ =~= digits@.reverse().take(digits@.len() - i));
        }
    }
    proof {
        assert(digits@.reverse().take(digits@.len() as int) =~= digits@.reverse());
    }
    out
}


/// A match somewhere means a last match exists.
proof fn lemma_last_match_from(h: Seq<u8>, n: Seq<u8>, i: int)
    requires
        n.len() >= 1,
        is_match_at(h, n, i),
    ensures
        exists|m: int| is_match_at(h, n, m) && forall|j: int| j > m ==> !is_match_at(h, n, j),
    decreases h.len() - i,
{
    if exists|k: int| k > i && is_match_at(h, n, k) {
        let k = choose|k: int| k > i && is_match_at(h, n, k);
        lemma_last_match_from(h, n, k);
    } else {
        assert(is_match_at(h, n, i) && forall|j: int| j > i ==> !is_match_at(h, n, j));
    }
}

/// What a successful `spec_rfind_byte` means.
pub proof fn lemma_rfind_byte_some(h: Seq<u8>, b: u8, j: int)
    requires
        spec_rfind_byte(h, b) == Some(j),
    ensures
        0 <= j < h.len(),
        h[j] == b,
        forall|k: int| j < k < h.len() ==> h[k] != b,
{
    assert(spec_rfind(h, seq![b]) is Some);
    if exists|i: int| is_match_at(h, seq![b], i) {
        let w = choose|w: int| is_match_at(h, seq![b], w);
        lemma_last_match_from(h, seq![b], w);
        let i = choose|i: int| is_match_at(h, seq![b], i)
            && forall|j2: int| j2 > i ==> !is_match_at(h, seq![b], j2);
        assert(i == j);
        assert(h.subrange(j, j + 1)[0] == h[j]);
        assert forall|k: int| j < k < h.len() implies h[k] != b by {
            if h[k] == b {
                assert(h.subrange(k, k + 1) =~= seq![b]);
                assert(is_match_at(h, seq![b], k));
            }
        }
    } else {
        assert(false);
    }
}

/// What a failed `spec_rfind_byte` means.
pub proof fn lemma_rfind_byte_none(h: Seq<u8>, b: u8)
    requires
        spec_rfind_byte(h, b) is None,
    ensures
        forall|k: int| 0 <= k < h.len() ==> h[k] != b,
{
    assert forall|k: int| 0 <= k < h.len() implies h[k] != b by {
        if h[k] == b {
            assert(h.subrange(k, k + 1) =~= seq![b]);
            assert(is_match_at(h, seq![b], k));
            assert(spec_rfind(h, seq![b]) is Some);
        }
    }
}


/// Copy a slice of indices into a fresh vector.
pub fn sub_vec_usize(s: &[usize]) -> (r: Vec<usize>)
    ensures
        r@ == s@,
{
    let mut out: Vec<usize> = Vec::new();
    let n = s.len();
    let mut i: usize = 0;
    while i < n
        invariant
            0 <= i <= n,
            n == s@.len(),
            out@ == s@.subrange(0, i as int),
        decreases n - i,
    {
        out.push(s[i]);
        proof {
            assert(out@ =~= s@.subrange(0, i + 1));
        }
        i = i + 1;
    }
    proof {
        assert(s@.subrange(0, n as int) =~= s@);
    }
    out
}

} // verus!
