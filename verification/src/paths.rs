//! Lexical path manipulation.
//!
//! Paths are byte strings with `/` separators, the same encoding the
//! cache files use on disk.  Nothing here touches the filesystem.

use vstd::prelude::*;
use crate::bytes::{find_byte, rfind_byte, push_all, sub_vec};
use crate::bytes::spec_rfind_byte;

verus! {

/// Path separator.
pub const SEP: u8 = 47;

/// Dot, as in `.` and `..` components and file extensions.
pub const DOT: u8 = 46;

/// Split a byte string on `/`.  The empty string is one empty component;
/// a trailing `/` adds an empty component.
pub open spec fn spec_split(s: Seq<u8>) -> Seq<Seq<u8>>
    decreases s.len(),
{
    if s.len() == 0 {
        seq![Seq::<u8>::empty()]
    } else if s.last() == SEP {
        spec_split(s.drop_last()).push(Seq::<u8>::empty())
    } else {
        let prev = spec_split(s.drop_last());
        prev.update(prev.len() - 1, prev.last().push(s.last()))
    }
}

proof fn lemma_spec_split_len(s: Seq<u8>)
    ensures
        spec_split(s).len() >= 1,
    decreases s.len(),
{
    if s.len() != 0 {
        lemma_spec_split_len(s.drop_last());
    }
}

/// Join components with `/`.
pub open spec fn spec_join(parts: Seq<Seq<u8>>) -> Seq<u8>
    decreases parts.len(),
{
    if parts.len() == 0 {
        Seq::<u8>::empty()
    } else if parts.len() == 1 {
        parts[0]
    } else {
        spec_join(parts.drop_last()).push(SEP) + parts.last()
    }
}

/// One step of lexical normalization: empty and `.` components are
/// dropped, `..` removes the previous component, anything else is kept.
pub open spec fn spec_norm_parts(parts: Seq<Seq<u8>>) -> Seq<Seq<u8>>
    decreases parts.len(),
{
    if parts.len() == 0 {
        Seq::<Seq<u8>>::empty()
    } else {
        let prev = spec_norm_parts(parts.drop_last());
        let c = parts.last();
        if c.len() == 0 || c == seq![DOT] {
            prev
        } else if c == seq![DOT, DOT] {
            if prev.len() > 0 {
                prev.drop_last()
            } else {
                prev
            }
        } else {
            prev.push(c)
        }
    }
}

/// The path is absolute: it starts with `/`.
pub open spec fn spec_is_absolute(s: Seq<u8>) -> bool {
    s.len() > 0 && s[0] == SEP
}

/// Lexical normalization: resolve `.` and `..` without consulting the
/// filesystem, keeping a leading `/`.
pub open spec fn spec_normalize(s: Seq<u8>) -> Seq<u8> {
    let body = spec_join(spec_norm_parts(spec_split(s)));
    if spec_is_absolute(s) {
        seq![SEP] + body
    } else {
        body
    }
}

/// Split a path into its components.
pub fn split_path(p: &[u8]) -> (parts: Vec<Vec<u8>>)
    ensures
        parts@.map_values(|c: Vec<u8>| c@) == spec_split(p@),
{
    let mut parts: Vec<Vec<u8>> = Vec::new();
    let mut cur: Vec<u8> = Vec::new();
    let mut i: usize = 0;
    proof {
        assert(p@.subrange(0, 0) =~= Seq::<u8>::empty());
        assert(parts@.map_values(|c: Vec<u8>| c@).push(cur@)
            =~= spec_split(p@.subrange(0, 0)));
    }
    while i < p.len()
        invariant
            0 <= i <= p@.len(),
            parts@.map_values(|c: Vec<u8>| c@).push(cur@) == spec_split(p@.subrange(0, i as int)),
        decreases p@.len() - i,
    {
        let ghost prefix = p@.subrange(0, i as int);
        let ghost next = p@.subrange(0, i + 1);
        proof {
            assert(next.drop_last() =~= prefix);
            assert(next.last() == p@[i as int]);
        }
        if p[i] == SEP {
            parts.push(cur);
            cur = Vec::new();
            proof {
                assert(parts@.map_values(|c: Vec<u8>| c@).push(cur@)
                    =~= spec_split(prefix).push(Seq::<u8>::empty()));
            }
        } else {
            let ghost old_parts = parts@.map_values(|c: Vec<u8>| c@);
            let ghost old_cur = cur@;
            cur.push(p[i]);
            proof {
                let prev = spec_split(prefix);
                assert(next.drop_last() == prefix);
                assert(prev == old_parts.push(old_cur));
                assert(prev.last() == old_cur);
                assert(prev.len() == old_parts.len() + 1);
                assert(cur@ == old_cur.push(p@[i as int]));
                assert(spec_split(next)
                    == prev.update(prev.len() - 1, prev.last().push(p@[i as int])));
                assert(prev.update(prev.len() - 1, old_cur.push(p@[i as int]))
                    =~= old_parts.push(cur@));
            }
        }
        i = i + 1;
    }
    proof {
        assert(p@.subrange(0, p@.len() as int) =~= p@);
    }
    parts.push(cur);
    parts
}

/// Join components with `/`.
pub fn join_parts(parts: &Vec<Vec<u8>>) -> (r: Vec<u8>)
    ensures
        r@ == spec_join(parts@.map_values(|c: Vec<u8>| c@)),
{
    let ghost view = parts@.map_values(|c: Vec<u8>| c@);
    let mut out: Vec<u8> = Vec::new();
    let mut i: usize = 0;
    while i < parts.len()
        invariant
            0 <= i <= parts@.len(),
            view == parts@.map_values(|c: Vec<u8>| c@),
            out@ == spec_join(view.subrange(0, i as int)),
        decreases parts@.len() - i,
    {
        let ghost before = view.subrange(0, i as int);
        let ghost after = view.subrange(0, i + 1);
        proof {
            assert(after.drop_last() =~= before);
            assert(after.last() == view[i as int]);
        }
        if i > 0 {
            out.push(SEP);
        }
        push_all(&mut out, parts[i].as_slice());
        proof {
            if i == 0 {
                assert(after.len() == 1);
                assert(out@ =~= after[0]);
            } else {
                assert(out@ =~= spec_join(before).push(SEP) + after.last());
            }
        }
        i = i + 1;
    }
    proof {
        assert(view.subrange(0, view.len() as int) =~= view);
    }
    out
}

/// Is one component equal to the given short literal?
fn comp_is(c: &Vec<u8>, a: u8) -> (r: bool)
    ensures
        r <==> c@ == seq![a],
{
    if c.len() == 1 && c[0] == a {
        proof {
            assert(c@ =~= seq![a]);
        }
        true
    } else {
        proof {
            if c@ == seq![a] {
                assert(c@.len() == 1);
            }
        }
        false
    }
}

fn comp_is2(c: &Vec<u8>, a: u8, b: u8) -> (r: bool)
    ensures
        r <==> c@ == seq![a, b],
{
    if c.len() == 2 && c[0] == a && c[1] == b {
        proof {
            assert(c@ =~= seq![a, b]);
        }
        true
    } else {
        proof {
            if c@ == seq![a, b] {
                assert(c@.len() == 2);
            }
        }
        false
    }
}

/// Resolve `.` and `..` in a component list.
pub fn normalize_parts(parts: Vec<Vec<u8>>) -> (r: Vec<Vec<u8>>)
    ensures
        r@.map_values(|c: Vec<u8>| c@) == spec_norm_parts(parts@.map_values(|c: Vec<u8>| c@)),
{
    let ghost view = parts@.map_values(|c: Vec<u8>| c@);
    let mut out: Vec<Vec<u8>> = Vec::new();
    let mut i: usize = 0;
    proof {
        assert(view.subrange(0, 0) =~= Seq::<Seq<u8>>::empty());
        assert(out@.map_values(|c: Vec<u8>| c@) =~= spec_norm_parts(view.subrange(0, 0)));
    }
    while i < parts.len()
        invariant
            0 <= i <= parts@.len(),
            view == parts@.map_values(|c: Vec<u8>| c@),
            out@.map_values(|c: Vec<u8>| c@) == spec_norm_parts(view.subrange(0, i as int)),
        decreases parts@.len() - i,
    {
        let ghost before = view.subrange(0, i as int);
        let ghost after = view.subrange(0, i + 1);
        proof {
            assert(after.drop_last() =~= before);
            assert(after.last() == view[i as int]);
        }
        let c = &parts[i];
        if c.len() == 0 || comp_is(c, DOT) {
            // dropped
        } else if comp_is2(c, DOT, DOT) {
            if out.len() > 0 {
                out.pop();
                proof {
                    assert(out@.map_values(|x: Vec<u8>| x@)
                        =~= spec_norm_parts(before).drop_last());
                }
            }
        } else {
            out.push(c.clone());
            proof {
                assert(out@.map_values(|x: Vec<u8>| x@)
                    =~= spec_norm_parts(before).push(view[i as int]));
            }
        }
        i = i + 1;
    }
    proof {
        assert(view.subrange(0, view.len() as int) =~= view);
    }
    out
}

/// Path normalization - resolves `.` and `..` lexically, without
/// consulting the filesystem.
pub fn normalize(p: &[u8]) -> (r: Vec<u8>)
    ensures
        r@ == spec_normalize(p@),
{
    let parts = split_path(p);
    let cleaned = normalize_parts(parts);
    let body = join_parts(&cleaned);
    if p.len() > 0 && p[0] == SEP {
        let mut out: Vec<u8> = Vec::new();
        out.push(SEP);
        push_all(&mut out, body.as_slice());
        proof {
            assert(out@ =~= seq![SEP] + body@);
        }
        out
    } else {
        body
    }
}

/// Join `base` and `p`: `p` alone when it is absolute.
pub open spec fn spec_join_path(base: Seq<u8>, p: Seq<u8>) -> Seq<u8> {
    if spec_is_absolute(p) {
        p
    } else if base.len() == 0 {
        p
    } else if base.last() == SEP {
        base + p
    } else {
        base.push(SEP) + p
    }
}

/// Join `base` and `p` without normalizing.
pub fn join(base: &[u8], p: &[u8]) -> (r: Vec<u8>)
    ensures
        r@ == spec_join_path(base@, p@),
{
    if p.len() > 0 && p[0] == SEP {
        let r = sub_vec(p, 0, p.len());
        proof {
            assert(r@ =~= p@);
        }
        return r;
    }
    if base.len() == 0 {
        let r = sub_vec(p, 0, p.len());
        proof {
            assert(r@ =~= p@);
        }
        return r;
    }
    let mut out = sub_vec(base, 0, base.len());
    proof {
        assert(out@ =~= base@);
    }
    if base[base.len() - 1] != SEP {
        out.push(SEP);
    }
    push_all(&mut out, p);
    out
}

/// Join `p` onto `cwd` when it is relative, then normalize.
pub fn abs(p: &[u8], cwd: &[u8]) -> (r: Vec<u8>)
    ensures
        r@ == spec_normalize(spec_join_path(cwd@, p@)),
{
    let joined = join(cwd, p);
    normalize(joined.as_slice())
}

/// `p` with the prefix `base` and its separator removed, when `p` lies
/// under `base`; `p` itself otherwise.
pub open spec fn spec_strip_prefix(p: Seq<u8>, base: Seq<u8>) -> Option<Seq<u8>> {
    if p == base {
        Some(Seq::<u8>::empty())
    } else if p.len() > base.len() && p.subrange(0, base.len() as int) == base
        && p[base.len() as int] == SEP {
        Some(p.subrange(base.len() as int + 1, p.len() as int))
    } else {
        None
    }
}

/// Strip `base` (a directory prefix) from `p`.
pub fn strip_prefix(p: &[u8], base: &[u8]) -> (r: Option<Vec<u8>>)
    ensures
        match r {
            Some(rest) => spec_strip_prefix(p@, base@) == Some(rest@),
            None => spec_strip_prefix(p@, base@) is None,
        },
{
    if crate::bytes::bytes_eq(p, base) {
        return Some(Vec::new());
    }
    if p.len() > base.len() {
        let head = crate::bytes::slice_range(p, 0, base.len());
        if crate::bytes::bytes_eq(head, base) && p[base.len()] == SEP {
            return Some(sub_vec(p, base.len() + 1, p.len()));
        }
    }
    None
}

/// The file name: everything after the last `/`.
pub fn file_name(p: &[u8]) -> (r: Vec<u8>)
    ensures
        exists|i: int| 0 <= i <= p@.len() && r@ == p@.subrange(i, p@.len() as int)
            && (forall|k: int| i <= k < p@.len() ==> p@[k] != SEP)
            && (i == 0 || p@[i - 1] == SEP),
{
    let n = p.len();
    match rfind_byte(p, SEP) {
        Some(i) => sub_vec(p, i + 1, n),
        None => sub_vec(p, 0, n),
    }
}

/// The directory part: everything before the last `/`, or empty when
/// there is no separator at all.
pub fn parent(p: &[u8]) -> (r: Vec<u8>)
    ensures
        (exists|i: int| 0 <= i < p@.len() && p@[i] == SEP
            && (forall|k: int| i < k < p@.len() ==> p@[k] != SEP)
            && r@ == p@.subrange(0, i))
        || ((forall|k: int| 0 <= k < p@.len() ==> p@[k] != SEP) && r@ == Seq::<u8>::empty()),
{
    match rfind_byte(p, SEP) {
        Some(i) => sub_vec(p, 0, i),
        None => Vec::new(),
    }
}

/// Where the stem ends: at the last `.` when that dot belongs to the
/// file name and is not its first byte, else at the end of the path.
pub open spec fn spec_stem_end(p: Seq<u8>) -> int {
    match spec_rfind_byte(p, DOT) {
        Some(i) => {
            let after_sep = match spec_rfind_byte(p, SEP) {
                Some(s) => s + 1 < i && s + 1 < p.len(),
                None => i > 0,
            };
            if after_sep {
                i
            } else {
                p.len() as int
            }
        }
        None => p.len() as int,
    }
}

/// The stem of `p` with `.ext` appended when `ext` is nonempty.
pub open spec fn spec_with_extension(p: Seq<u8>, ext: Seq<u8>) -> Seq<u8> {
    let stem = p.subrange(0, spec_stem_end(p));
    if ext.len() > 0 {
        stem.push(DOT) + ext
    } else {
        stem
    }
}

/// Replace the extension of the file-name part of `p`: everything after
/// the last `.` of the file name goes, and `.ext` is appended when `ext`
/// is nonempty.
pub fn with_extension(p: &[u8], ext: &[u8]) -> (r: Vec<u8>)
    ensures
        r@ == spec_with_extension(p@, ext@),
{
    let n = p.len();
    let stem_end = match crate::bytes::rfind_byte_last(p, DOT) {
        Some(i) => {
            // the dot must belong to the file name, not a directory,
            // and must not be its first byte
            let after_sep = match crate::bytes::rfind_byte_last(p, SEP) {
                Some(s) => s + 1 < i && s + 1 < n,
                None => i > 0,
            };
            if after_sep {
                i
            } else {
                n
            }
        }
        None => n,
    };
    proof {
        assert(stem_end as int == spec_stem_end(p@));
    }
    let mut out = sub_vec(p, 0, stem_end);
    if ext.len() > 0 {
        out.push(DOT);
        push_all(&mut out, ext);
        proof {
            assert(out@ =~= p@.subrange(0, spec_stem_end(p@)).push(DOT) + ext@);
        }
    }
    out
}

/// Append `.ext` to `p` even when it already has an extension.
pub fn add_extension(p: &[u8], ext: &[u8]) -> (r: Vec<u8>)
    ensures
        r@ == p@.push(DOT) + ext@,
{
    let mut out = sub_vec(p, 0, p.len());
    proof {
        assert(out@ =~= p@);
    }
    out.push(DOT);
    push_all(&mut out, ext);
    out
}


/// `s` holds no separator.
pub open spec fn sepless(s: Seq<u8>) -> bool {
    forall|i: int| 0 <= i < s.len() ==> s[i] != SEP
}

/// Every component that survives normalization is nonempty and is
/// neither `.` nor `..`, and holds no separator.
pub open spec fn parts_clean(parts: Seq<Seq<u8>>) -> bool {
    forall|i: int| 0 <= i < parts.len() ==>
        (#[trigger] parts[i]).len() > 0 && parts[i] != seq![DOT] && parts[i] != seq![DOT, DOT]
            && sepless(parts[i])
}

/// The components a split yields hold no separator.
proof fn lemma_split_sepless(s: Seq<u8>)
    ensures
        forall|i: int| 0 <= i < spec_split(s).len() ==> sepless(#[trigger] spec_split(s)[i]),
    decreases s.len(),
{
    if s.len() == 0 {
    } else {
        lemma_split_sepless(s.drop_last());
        let prev = spec_split(s.drop_last());
        lemma_spec_split_len(s.drop_last());
        if s.last() == SEP {
        } else {
            assert forall|i: int| 0 <= i < spec_split(s).len()
                implies sepless(#[trigger] spec_split(s)[i]) by {
                if i == prev.len() - 1 {
                    assert(spec_split(s)[i] == prev.last().push(s.last()));
                    assert(sepless(prev[prev.len() - 1]));
                    assert forall|k: int| 0 <= k < prev.last().push(s.last()).len()
                        implies prev.last().push(s.last())[k] != SEP by {
                        if k < prev.last().len() {
                            assert(prev.last().push(s.last())[k] == prev.last()[k]);
                        }
                    }
                } else {
                    assert(spec_split(s)[i] == prev[i]);
                }
            }
        }
    }
}

/// Normalizing keeps components clean.
proof fn lemma_norm_parts_clean(parts: Seq<Seq<u8>>)
    requires
        forall|i: int| 0 <= i < parts.len() ==> sepless(#[trigger] parts[i]),
    ensures
        parts_clean(spec_norm_parts(parts)),
    decreases parts.len(),
{
    if parts.len() > 0 {
        assert(forall|i: int| 0 <= i < parts.drop_last().len()
            ==> #[trigger] parts.drop_last()[i] == parts[i]);
        lemma_norm_parts_clean(parts.drop_last());
        let prev = spec_norm_parts(parts.drop_last());
        let c = parts.last();
        if c.len() == 0 || c == seq![DOT] || c == seq![DOT, DOT] {
        } else {
            assert(sepless(parts[parts.len() - 1]));
            assert forall|i: int| 0 <= i < prev.push(c).len()
                implies (#[trigger] prev.push(c)[i]).len() > 0
                    && prev.push(c)[i] != seq![DOT] && prev.push(c)[i] != seq![DOT, DOT]
                    && sepless(prev.push(c)[i]) by {
                if i < prev.len() {
                    assert(prev.push(c)[i] == prev[i]);
                }
            }
        }
    }
}

/// Normalizing a clean component list keeps it unchanged.
proof fn lemma_norm_parts_of_clean(parts: Seq<Seq<u8>>)
    requires
        parts_clean(parts),
    ensures
        spec_norm_parts(parts) == parts,
    decreases parts.len(),
{
    if parts.len() == 0 {
        assert(spec_norm_parts(parts) =~= parts);
    } else {
        assert(forall|i: int| 0 <= i < parts.drop_last().len()
            ==> #[trigger] parts.drop_last()[i] == parts[i]);
        lemma_norm_parts_of_clean(parts.drop_last());
        assert(parts[parts.len() - 1].len() > 0);
        assert(spec_norm_parts(parts) =~= parts);
    }
}

/// Splitting a separator-free string gives that one component.
proof fn lemma_split_of_sepless(s: Seq<u8>)
    requires
        sepless(s),
    ensures
        spec_split(s) == seq![s],
    decreases s.len(),
{
    if s.len() == 0 {
        assert(spec_split(s) =~~= seq![s]);
    } else {
        assert(s[s.len() - 1] != SEP);
        assert(sepless(s.drop_last())) by {
            assert forall|j: int| 0 <= j < s.drop_last().len()
                implies s.drop_last()[j] != SEP by {
                assert(s.drop_last()[j] == s[j]);
            }
        }
        lemma_split_of_sepless(s.drop_last());
        let prev = spec_split(s.drop_last());
        assert(prev == seq![s.drop_last()]);
        assert(spec_split(s) == prev.update(0, s.drop_last().push(s.last())));
        assert(s.drop_last().push(s.last()) =~= s);
        assert(spec_split(s) =~~= seq![s]);
    }
}

/// Appending a separator-free tail only extends the last component.
proof fn lemma_split_append_sepless(a: Seq<u8>, b: Seq<u8>)
    requires
        sepless(b),
    ensures
        spec_split(a + b) == spec_split(a).update(
            spec_split(a).len() - 1,
            spec_split(a).last() + b,
        ),
    decreases b.len(),
{
    lemma_spec_split_len(a);
    if b.len() == 0 {
        assert(a + b =~= a);
        assert(spec_split(a).last() + b =~= spec_split(a).last());
        assert(spec_split(a).update(spec_split(a).len() - 1, spec_split(a).last() + b)
            =~~= spec_split(a));
    } else {
        assert(sepless(b.drop_last())) by {
            assert forall|j: int| 0 <= j < b.drop_last().len()
                implies b.drop_last()[j] != SEP by {
                assert(b.drop_last()[j] == b[j]);
            }
        }
        lemma_split_append_sepless(a, b.drop_last());
        assert(b[b.len() - 1] != SEP);
        assert((a + b).len() > 0);
        assert((a + b).last() == b.last());
        assert((a + b).drop_last() =~= a + b.drop_last());
        let prev = spec_split(a + b.drop_last());
        assert(spec_split(a + b) == prev.update(prev.len() - 1, prev.last().push(b.last())));
        let sa = spec_split(a);
        assert(prev == sa.update(sa.len() - 1, sa.last() + b.drop_last()));
        assert(prev.len() == sa.len());
        assert(prev.last() == sa.last() + b.drop_last());
        assert((sa.last() + b.drop_last()).push(b.last()) =~= sa.last() + b);
        assert(spec_split(a + b) =~~= sa.update(sa.len() - 1, sa.last() + b));
    }
}

/// Splitting a join of clean components gives the components back.
proof fn lemma_split_join_clean(parts: Seq<Seq<u8>>)
    requires
        parts_clean(parts),
    ensures
        parts.len() == 0 ==> spec_split(spec_join(parts)) == seq![Seq::<u8>::empty()],
        parts.len() > 0 ==> spec_split(spec_join(parts)) == parts,
    decreases parts.len(),
{
    if parts.len() == 0 {
        assert(spec_join(parts).len() == 0);
        assert(spec_split(spec_join(parts)) =~~= seq![Seq::<u8>::empty()]);
    } else if parts.len() == 1 {
        assert(sepless(parts[0]));
        lemma_split_of_sepless(parts[0]);
        assert(spec_join(parts) == parts[0]);
        assert(spec_split(spec_join(parts)) =~~= parts);
    } else {
        let body = spec_join(parts.drop_last());
        assert(forall|i: int| 0 <= i < parts.drop_last().len()
            ==> #[trigger] parts.drop_last()[i] == parts[i]);
        lemma_split_join_clean(parts.drop_last());
        assert(sepless(parts[parts.len() - 1]));
        lemma_split_append_sepless(body.push(SEP), parts.last());
        assert(spec_join(parts) == body.push(SEP) + parts.last());
        // splitting `body/` adds one empty component
        assert(body.push(SEP).last() == SEP);
        assert(body.push(SEP).drop_last() =~= body);
        let sb = spec_split(body);
        assert(spec_split(body.push(SEP)) == sb.push(Seq::<u8>::empty()));
        assert(sb == parts.drop_last());
        let whole = sb.push(Seq::<u8>::empty());
        assert(spec_split(spec_join(parts))
            == whole.update(whole.len() - 1, whole.last() + parts.last()));
        assert(whole.last() + parts.last() =~= parts.last());
        assert(spec_split(spec_join(parts)) =~~= parts);
    }
}

/// Splitting `/x` prepends one empty component to the split of `x`.
proof fn lemma_split_sep_prefix(s: Seq<u8>)
    ensures
        spec_split(seq![SEP] + s) == seq![Seq::<u8>::empty()] + spec_split(s),
    decreases s.len(),
{
    if s.len() == 0 {
        assert(seq![SEP] + s =~= seq![SEP]);
        assert((seq![SEP]).drop_last() =~= Seq::<u8>::empty());
        assert(spec_split(Seq::<u8>::empty()) == seq![Seq::<u8>::empty()]);
        assert(spec_split(seq![SEP] + s) =~~= seq![Seq::<u8>::empty()] + spec_split(s));
    } else {
        lemma_split_sep_prefix(s.drop_last());
        assert((seq![SEP] + s).len() > 1);
        assert((seq![SEP] + s).drop_last() =~= seq![SEP] + s.drop_last());
        assert((seq![SEP] + s).last() == s.last());
        lemma_spec_split_len(s.drop_last());
        let prev = seq![Seq::<u8>::empty()] + spec_split(s.drop_last());
        if s.last() == SEP {
            assert(spec_split(seq![SEP] + s) == prev.push(Seq::<u8>::empty()));
            assert(spec_split(s) == spec_split(s.drop_last()).push(Seq::<u8>::empty()));
            assert(spec_split(seq![SEP] + s) =~~= seq![Seq::<u8>::empty()] + spec_split(s));
        } else {
            assert(spec_split(seq![SEP] + s) == prev.update(
                prev.len() - 1, prev.last().push(s.last())));
            let ss = spec_split(s.drop_last());
            assert(prev.last() == ss.last());
            assert(spec_split(s) == ss.update(ss.len() - 1, ss.last().push(s.last())));
            assert(spec_split(seq![SEP] + s) =~~= seq![Seq::<u8>::empty()] + spec_split(s));
        }
    }
}

/// A leading empty component is dropped by normalization.
proof fn lemma_norm_parts_prepend_empty(parts: Seq<Seq<u8>>)
    ensures
        spec_norm_parts(seq![Seq::<u8>::empty()] + parts) == spec_norm_parts(parts),
    decreases parts.len(),
{
    if parts.len() == 0 {
        assert((seq![Seq::<u8>::empty()] + parts).len() == 1);
        assert((seq![Seq::<u8>::empty()] + parts).drop_last() =~~= Seq::<Seq<u8>>::empty());
        assert((seq![Seq::<u8>::empty()] + parts).last() =~= Seq::<u8>::empty());
        assert(spec_norm_parts(Seq::<Seq<u8>>::empty()) == Seq::<Seq<u8>>::empty());
        assert(spec_norm_parts(seq![Seq::<u8>::empty()] + parts) =~~= spec_norm_parts(parts));
    } else {
        lemma_norm_parts_prepend_empty(parts.drop_last());
        assert((seq![Seq::<u8>::empty()] + parts).drop_last()
            =~~= seq![Seq::<u8>::empty()] + parts.drop_last());
        assert((seq![Seq::<u8>::empty()] + parts).last() == parts.last());
    }
}

/// The first byte of a join of clean components is the first byte of the
/// first component, which is not a separator.
proof fn lemma_join_first_byte(parts: Seq<Seq<u8>>)
    requires
        parts_clean(parts),
        parts.len() >= 1,
    ensures
        spec_join(parts).len() > 0,
        spec_join(parts)[0] != SEP,
    decreases parts.len(),
{
    if parts.len() == 1 {
        assert(parts[0].len() > 0);
        assert(sepless(parts[0]));
        assert(spec_join(parts) == parts[0]);
    } else {
        assert(forall|i: int| 0 <= i < parts.drop_last().len()
            ==> #[trigger] parts.drop_last()[i] == parts[i]);
        lemma_join_first_byte(parts.drop_last());
        assert(spec_join(parts) == spec_join(parts.drop_last()).push(SEP) + parts.last());
        assert(spec_join(parts)[0] == spec_join(parts.drop_last())[0]);
    }
}

/// Normalization is idempotent: running it twice changes nothing after
/// the first pass.
pub proof fn lemma_normalize_idempotent(s: Seq<u8>)
    ensures
        spec_normalize(spec_normalize(s)) == spec_normalize(s),
{
    lemma_split_sepless(s);
    lemma_norm_parts_clean(spec_split(s));
    let parts = spec_norm_parts(spec_split(s));
    lemma_split_join_clean(parts);
    if spec_is_absolute(s) {
        let once = seq![SEP] + spec_join(parts);
        assert(once[0] == SEP);
        assert(spec_is_absolute(once));
        lemma_split_sep_prefix(spec_join(parts));
        lemma_norm_parts_prepend_empty(spec_split(spec_join(parts)));
        lemma_norm_parts_of_clean(parts);
        if parts.len() == 0 {
            assert(spec_norm_parts(Seq::<Seq<u8>>::empty()) == Seq::<Seq<u8>>::empty());
            assert(seq![Seq::<u8>::empty()].drop_last() =~~= Seq::<Seq<u8>>::empty());
            assert(spec_norm_parts(seq![Seq::<u8>::empty()]) =~~= Seq::<Seq<u8>>::empty());
            assert(spec_norm_parts(spec_split(once)) == parts);
        } else {
            assert(spec_norm_parts(spec_split(once)) == parts);
        }
        assert(spec_normalize(once) =~= spec_normalize(s));
    } else {
        let once = spec_join(parts);
        lemma_norm_parts_of_clean(parts);
        if once.len() > 0 && once[0] == SEP {
            // a clean component list never starts with a separator
            assert(parts.len() >= 1) by {
                if parts.len() == 0 {
                    assert(spec_join(parts).len() == 0);
                }
            }
            lemma_join_first_byte(parts);
            assert(false);
        }
        if parts.len() == 0 {
            assert(once.len() == 0);
            assert(spec_split(once) == seq![Seq::<u8>::empty()]);
            assert(spec_norm_parts(Seq::<Seq<u8>>::empty()) == Seq::<Seq<u8>>::empty());
            assert(seq![Seq::<u8>::empty()].drop_last() =~~= Seq::<Seq<u8>>::empty());
            assert(spec_norm_parts(seq![Seq::<u8>::empty()]) =~~= Seq::<Seq<u8>>::empty());
            assert(spec_normalize(once) =~= once);
        } else {
            assert(spec_norm_parts(spec_split(once)) == parts);
            assert(spec_normalize(once) =~= once);
        }
    }
}


/// The extension of the file-name part: what follows its last `.`,
/// unless that dot is the name's first byte.
pub open spec fn spec_extension(p: Seq<u8>) -> Option<Seq<u8>> {
    let name = match crate::bytes::spec_rfind_byte(p, SEP) {
        Some(i) => p.skip(i + 1),
        None => p,
    };
    match crate::bytes::spec_rfind_byte(name, DOT) {
        Some(d) => if d > 0 {
            Some(name.skip(d + 1))
        } else {
            None
        },
        None => None,
    }
}

/// The extension of the file name, if any.
pub fn extension(p: &[u8]) -> (r: Option<Vec<u8>>)
    ensures
        match r {
            Some(e) => spec_extension(p@) == Some(e@),
            None => spec_extension(p@) is None,
        },
{
    let n = p.len();
    let name = match crate::bytes::rfind_byte_last(p, SEP) {
        Some(i) => sub_vec(p, i + 1, n),
        None => sub_vec(p, 0, n),
    };
    proof {
        assert(p@.subrange(0, p@.len() as int) =~= p@);
    }
    let m = name.len();
    match crate::bytes::rfind_byte_last(name.as_slice(), DOT) {
        Some(d) => {
            if d > 0 {
                Some(sub_vec(name.as_slice(), d + 1, m))
            } else {
                None
            }
        }
        None => None,
    }
}


/// The file-name part of a path: everything after the last `/`.
pub open spec fn spec_file_name_of(p: Seq<u8>) -> Seq<u8> {
    match crate::bytes::spec_rfind_byte(p, SEP) {
        Some(i) => p.skip(i + 1),
        None => p,
    }
}

/// `file_name` returns exactly the file-name part.
pub proof fn lemma_file_name_of(p: Seq<u8>, r: Seq<u8>)
    requires
        exists|i: int| 0 <= i <= p.len() && r == p.subrange(i, p.len() as int)
            && (forall|k: int| i <= k < p.len() ==> p[k] != SEP)
            && (i == 0 || p[i - 1] == SEP),
    ensures
        r == spec_file_name_of(p),
{
    let i = choose|i: int| 0 <= i <= p.len() && r == p.subrange(i, p.len() as int)
        && (forall|k: int| i <= k < p.len() ==> p[k] != SEP)
        && (i == 0 || p[i - 1] == SEP);
    match crate::bytes::spec_rfind_byte(p, SEP) {
        Some(j) => {
            crate::bytes::lemma_rfind_byte_some(p, SEP, j);
            assert(p[j] == SEP);
            assert(j < i);
            assert(j == i - 1) by {
                if i > 0 && j < i - 1 {
                    assert(p[i - 1] == SEP);
                }
            }
            assert(r =~= p.skip(j + 1));
        }
        None => {
            crate::bytes::lemma_rfind_byte_none(p, SEP);
            assert(i == 0) by {
                if i > 0 {
                    assert(p[i - 1] != SEP);
                }
            }
            assert(r =~= p);
        }
    }
}

} // verus!
