//! The on-disk dependency-file formats compilers emit.
//!
//! Unix compilers write `.d` files: space-separated tokens with `\`
//! continuations, where the first two tokens are the object and the
//! primary source.  On Windows a listing is synthesized instead: a
//! recognizable header line, then one include path per line.

use vstd::prelude::*;
use crate::bytes::{push_all, starts_with, starts_with_spec, sub_vec};
use crate::output::{NL, CR};
use crate::paths::SEP;

verus! {

/// `@DEPS@`, the marker that opens a synthesized dependency listing.
pub open spec fn spec_deps_header() -> Seq<u8> {
    seq![64u8, 68u8, 69u8, 80u8, 83u8, 64u8]
}

/// The bytes of the dependency-listing marker.
pub fn deps_header() -> (r: Vec<u8>)
    ensures
        r@ == spec_deps_header(),
{
    let mut v: Vec<u8> = Vec::new();
    v.push(64);
    v.push(68);
    v.push(69);
    v.push(80);
    v.push(83);
    v.push(64);
    proof {
        assert(v@ =~= spec_deps_header());
    }
    v
}

/// A token separator in a `.d` file.
pub open spec fn spec_is_d_sep(b: u8) -> bool {
    b == 32 || b == NL || b == CR || b == 9
}

/// The tokenizer's state after a byte string: the finished tokens and
/// the token still being gathered.
pub open spec fn spec_tok_state(s: Seq<u8>) -> (Seq<Seq<u8>>, Seq<u8>)
    decreases s.len(),
{
    if s.len() == 0 {
        (Seq::<Seq<u8>>::empty(), Seq::<u8>::empty())
    } else {
        let prev = spec_tok_state(s.drop_last());
        if spec_is_d_sep(s.last()) {
            (if prev.1.len() > 0 {
                prev.0.push(prev.1)
            } else {
                prev.0
            }, Seq::<u8>::empty())
        } else {
            (prev.0, prev.1.push(s.last()))
        }
    }
}

/// The nonempty whitespace-separated tokens of a `.d` file.
pub open spec fn spec_d_tokens(s: Seq<u8>) -> Seq<Seq<u8>> {
    let st = spec_tok_state(s);
    if st.1.len() > 0 {
        st.0.push(st.1)
    } else {
        st.0
    }
}

/// A token with `\` continuation marks stripped from both ends.
pub open spec fn spec_trim_bs(t: Seq<u8>) -> Seq<u8>
    decreases t.len(),
{
    if t.len() > 0 && t[0] == 92 {
        spec_trim_bs(t.skip(1))
    } else if t.len() > 0 && t.last() == 92 {
        spec_trim_bs(t.drop_last())
    } else {
        t
    }
}

/// The tokens that survive stripping, in order.
pub open spec fn spec_d_kept(tokens: Seq<Seq<u8>>) -> Seq<Seq<u8>>
    decreases tokens.len(),
{
    if tokens.len() == 0 {
        Seq::<Seq<u8>>::empty()
    } else {
        let prev = spec_d_kept(tokens.drop_last());
        let c = spec_trim_bs(tokens.last());
        if c.len() > 0 {
            prev.push(c)
        } else {
            prev
        }
    }
}

/// What the parser returns: the surviving tokens after the first two
/// (the object file and the primary source).
pub open spec fn spec_parse_d(s: Seq<u8>) -> Seq<Seq<u8>> {
    let kept = spec_d_kept(spec_d_tokens(s));
    if kept.len() >= 2 {
        kept.skip(2)
    } else {
        Seq::<Seq<u8>>::empty()
    }
}

proof fn lemma_trim_bs_at(t: Seq<u8>, a: int, b: int)
    requires
        0 <= a <= b <= t.len(),
        forall|q: int| 0 <= q < a ==> t[q] == 92,
        forall|q: int| b <= q < t.len() ==> t[q] == 92,
        a < b ==> t[a] != 92 && t[b - 1] != 92,
    ensures
        spec_trim_bs(t) == t.subrange(a, b),
    decreases t.len(),
{
    if t.len() == 0 {
        assert(t.subrange(a, b) =~= t);
    } else if t[0] == 92 {
        let u = t.skip(1);
        if a == 0 {
            assert(a == b) by {
                if a < b {
                    assert(t[a] != 92);
                }
            }
            assert(forall|q: int| 0 <= q < u.len() ==> u[q] == t[q + 1]);
            lemma_trim_bs_at(u, 0, 0);
            assert(u.subrange(0, 0) =~= t.subrange(a, b));
        } else {
            assert(forall|q: int| 0 <= q < u.len() ==> u[q] == t[q + 1]);
            lemma_trim_bs_at(u, a - 1, b - 1);
            assert(u.subrange(a - 1, b - 1) =~= t.subrange(a, b));
        }
    } else if t.last() == 92 {
        let u = t.drop_last();
        assert(b < t.len() || (a < b && t[b - 1] != 92) || a == b);
        if b == t.len() {
            assert(a == b) by {
                if a < b {
                    assert(t[b - 1] != 92);
                    assert(t.last() == t[b - 1]);
                }
            }
            assert(a == t.len());
            assert(t[0] == 92);
            assert(false);
        }
        assert(forall|q: int| 0 <= q < u.len() ==> u[q] == t[q]);
        lemma_trim_bs_at(u, a, b);
        assert(u.subrange(a, b) =~= t.subrange(a, b));
    } else {
        assert(a == 0) by {
            if a > 0 {
                assert(t[0] == 92);
            }
        }
        assert(b == t.len()) by {
            if b < t.len() {
                assert(t[t.len() - 1] == 92);
            }
        }
        assert(t.subrange(a, b) =~= t);
    }
}

/// Parse a unix `.d` file: split on whitespace, strip `\` continuation
/// marks, drop the first two surviving tokens (the object file and the
/// primary source).  What remains is the header set.
pub fn parse_dependency_file_unix(deps: &[u8]) -> (paths: Vec<Vec<u8>>)
    ensures
        paths@.map_values(|p: Vec<u8>| p@) == spec_parse_d(deps@),
{
    let n = deps.len();
    let mut tokens: Vec<Vec<u8>> = Vec::new();
    let mut cur: Vec<u8> = Vec::new();
    let mut i: usize = 0;
    proof {
        assert(deps@.subrange(0, 0) =~= Seq::<u8>::empty());
        assert(tokens@.map_values(|t: Vec<u8>| t@) =~= spec_tok_state(deps@.subrange(0, 0)).0);
        assert(cur@ =~= spec_tok_state(deps@.subrange(0, 0)).1);
    }
    while i < n
        invariant
            0 <= i <= n,
            n == deps@.len(),
            tokens@.map_values(|t: Vec<u8>| t@) == spec_tok_state(deps@.subrange(0, i as int)).0,
            cur@ == spec_tok_state(deps@.subrange(0, i as int)).1,
        decreases n - i,
    {
        let ghost prefix = deps@.subrange(0, i as int);
        let ghost next = deps@.subrange(0, i + 1);
        proof {
            assert(next.drop_last() =~= prefix);
            assert(next.last() == deps@[i as int]);
        }
        let b = deps[i];
        if b == 32 || b == NL || b == CR || b == 9 {
            let ghost tv = tokens@.map_values(|t: Vec<u8>| t@);
            if cur.len() > 0 {
                tokens.push(cur);
                cur = Vec::new();
                proof {
                    assert(tokens@.map_values(|t: Vec<u8>| t@)
                        =~~= tv.push(spec_tok_state(prefix).1));
                }
            }
        } else {
            cur.push(b);
        }
        i = i + 1;
    }
    proof {
        assert(deps@.subrange(0, n as int) =~= deps@);
    }
    let ghost finished = tokens@.map_values(|t: Vec<u8>| t@);
    if cur.len() > 0 {
        let ghost tv = tokens@.map_values(|t: Vec<u8>| t@);
        tokens.push(cur);
        proof {
            assert(tokens@.map_values(|t: Vec<u8>| t@) =~~= tv.push(spec_tok_state(deps@).1));
            assert(tokens@.map_values(|t: Vec<u8>| t@) =~~= spec_d_tokens(deps@));
        }
    } else {
        proof {
            assert(tokens@.map_values(|t: Vec<u8>| t@) =~~= spec_d_tokens(deps@));
        }
    }
    // strip continuation marks and skip the first two survivors
    let ghost tokv = tokens@.map_values(|t: Vec<u8>| t@);
    let mut paths: Vec<Vec<u8>> = Vec::new();
    let mut kept: usize = 0;
    let mut t: usize = 0;
    let nt = tokens.len();
    proof {
        assert(tokv.take(0) =~= Seq::<Seq<u8>>::empty());
        assert(spec_d_kept(tokv.take(0)) =~= Seq::<Seq<u8>>::empty());
    }
    while t < nt
        invariant
            0 <= t <= nt,
            nt == tokens@.len(),
            tokv == tokens@.map_values(|x: Vec<u8>| x@),
            kept == spec_d_kept(tokv.take(t as int)).len(),
            kept <= t,
            ({
                let seen = spec_d_kept(tokv.take(t as int));
                paths@.map_values(|p: Vec<u8>| p@) == if seen.len() >= 2 {
                    seen.skip(2)
                } else {
                    Seq::<Seq<u8>>::empty()
                }
            }),
        decreases nt - t,
    {
        let ghost seen0 = spec_d_kept(tokv.take(t as int));
        let tok = &tokens[t];
        proof {
            assert(tokv[t as int] == tok@);
            let tt = tokv.take(t + 1);
            assert(tt.drop_last() =~= tokv.take(t as int));
            assert(tt.last() == tokv[t as int]);
        }
        // trim `\` from both ends, as the continuation marker
        let m = tok.len();
        let mut a: usize = 0;
        let mut b2: usize = m;
        while a < b2 && tok[a] == 92
            invariant
                0 <= a <= b2 <= m,
                m == tok@.len(),
                forall|q: int| 0 <= q < a ==> tok@[q] == 92,
            decreases b2 - a,
        {
            a = a + 1;
        }
        while b2 > a && tok[b2 - 1] == 92
            invariant
                0 <= a <= b2 <= m,
                m == tok@.len(),
                forall|q: int| 0 <= q < a ==> tok@[q] == 92,
                forall|q: int| b2 <= q < m ==> tok@[q] == 92,
            decreases b2,
        {
            b2 = b2 - 1;
        }
        proof {
            lemma_trim_bs_at(tok@, a as int, b2 as int);
        }
        if b2 > a {
            if kept > 1 {
                let piece = sub_vec(tok.as_slice(), a, b2);
                let ghost pv = paths@.map_values(|p: Vec<u8>| p@);
                paths.push(piece);
                proof {
                    assert(paths@.map_values(|p: Vec<u8>| p@)
                        =~~= pv.push(spec_trim_bs(tok@)));
                    assert(spec_d_kept(tokv.take(t + 1))
                        =~= seen0.push(spec_trim_bs(tok@)));
                    assert(paths@.map_values(|p: Vec<u8>| p@)
                        =~~= spec_d_kept(tokv.take(t + 1)).skip(2));
                }
            } else {
                proof {
                    assert(spec_d_kept(tokv.take(t + 1))
                        =~= seen0.push(spec_trim_bs(tok@)));
                    if spec_d_kept(tokv.take(t + 1)).len() >= 2 {
                        assert(paths@.map_values(|p: Vec<u8>| p@)
                            =~~= spec_d_kept(tokv.take(t + 1)).skip(2));
                    }
                }
            }
            kept = kept + 1;
        } else {
            proof {
                assert(spec_trim_bs(tok@).len() == 0);
                assert(spec_d_kept(tokv.take(t + 1)) =~= seen0);
            }
        }
        t = t + 1;
    }
    proof {
        assert(tokv.take(nt as int) =~= tokv);
    }
    paths
}

/// The include paths joined by single line breaks.
pub open spec fn spec_render_deps(includes: Seq<Seq<u8>>) -> Seq<u8>
    decreases includes.len(),
{
    if includes.len() == 0 {
        Seq::<u8>::empty()
    } else if includes.len() == 1 {
        includes[0]
    } else {
        spec_render_deps(includes.drop_last()) + seq![NL] + includes.last()
    }
}

/// Render the synthesized dependency listing: the marker line, a line
/// break, then the paths joined by line breaks.
pub fn render_dependency_file(includes: &Vec<Vec<u8>>) -> (r: Vec<u8>)
    ensures
        r@ == spec_deps_header() + seq![NL]
            + spec_render_deps(includes@.map_values(|p: Vec<u8>| p@)),
        starts_with_spec(r@, spec_deps_header()),
{
    let ghost incl = includes@.map_values(|p: Vec<u8>| p@);
    let mut out = deps_header();
    out.push(NL);
    proof {
        assert(incl.take(0) =~= Seq::<Seq<u8>>::empty());
        assert(out@ =~= spec_deps_header() + seq![NL] + spec_render_deps(incl.take(0)));
    }
    let n = includes.len();
    let mut i: usize = 0;
    while i < n
        invariant
            0 <= i <= n,
            n == includes@.len(),
            incl == includes@.map_values(|p: Vec<u8>| p@),
            out@ == spec_deps_header() + seq![NL] + spec_render_deps(incl.take(i as int)),
        decreases n - i,
    {
        let ghost pre = out@;
        proof {
            assert(incl.take(i + 1).drop_last() =~= incl.take(i as int));
            assert(incl.take(i + 1).last() == incl[i as int]);
        }
        if i > 0 {
            out.push(NL);
        }
        push_all(&mut out, includes[i].as_slice());
        proof {
            if i > 0 {
                assert(out@ =~= pre + seq![NL] + incl[i as int]);
                assert(spec_render_deps(incl.take(i + 1))
                    == spec_render_deps(incl.take(i as int)) + seq![NL] + incl[i as int]);
                assert(out@ =~= spec_deps_header() + seq![NL]
                    + spec_render_deps(incl.take(i + 1)));
            } else {
                assert(spec_render_deps(incl.take(0)) =~= Seq::<u8>::empty());
                assert(spec_render_deps(incl.take(1)) == incl[0]);
                assert(out@ =~= spec_deps_header() + seq![NL]
                    + spec_render_deps(incl.take(1)));
            }
        }
        i = i + 1;
    }
    proof {
        assert(incl.take(n as int) =~= incl);
        assert(out@.subrange(0, spec_deps_header().len() as int) =~= spec_deps_header());
    }
    out
}

/// Read a dependency file's contents: when the marker opens it, the
/// lines after the marker line; the unix `.d` format otherwise.
pub fn read_dependency_data(data: &[u8]) -> (paths: Vec<Vec<u8>>)
    ensures
        starts_with_spec(data@, spec_deps_header())
            ==> paths@.map_values(|p: Vec<u8>| p@)
                == crate::output::spec_stream_lines(data@).skip(1),
        !starts_with_spec(data@, spec_deps_header())
            ==> paths@.map_values(|p: Vec<u8>| p@) == spec_parse_d(data@),
{
    let header = deps_header();
    if starts_with(data, header.as_slice()) {
        // one path per line after the marker line
        let lines = crate::output::split_stream_lines(data);
        let ghost sl = crate::output::spec_stream_lines(data@);
        proof {
            assert(sl.len() > 0) by {
                crate::output::lemma_stream_lines_nonempty(data@);
            }
        }
        let mut out: Vec<Vec<u8>> = Vec::new();
        let n = lines.len();
        let mut i: usize = 1;
        proof {
            assert(out@.map_values(|p: Vec<u8>| p@) =~= sl.subrange(1, 1));
        }
        while i < n
            invariant
                1 <= i <= n || (n == 0 && i == 1),
                n == lines@.len(),
                n == sl.len(),
                lines@.map_values(|l: Vec<u8>| l@) == sl,
                out@.map_values(|p: Vec<u8>| p@) == sl.subrange(1, i as int),
            decreases n - i,
        {
            let ghost pre = out@.map_values(|p: Vec<u8>| p@);
            let piece = sub_vec(lines[i].as_slice(), 0, lines[i].len());
            proof {
                assert(piece@ =~= sl[i as int]);
            }
            out.push(piece);
            proof {
                assert(out@.map_values(|p: Vec<u8>| p@) =~~= pre.push(sl[i as int]));
                assert(out@.map_values(|p: Vec<u8>| p@) =~= sl.subrange(1, i + 1));
            }
            i = i + 1;
        }
        proof {
            assert(sl.subrange(1, n as int) =~= sl.skip(1));
        }
        out
    } else {
        parse_dependency_file_unix(data)
    }
}

/// The include paths that do not sit under the system root, in order.
pub open spec fn spec_filter_sys(v: Seq<Seq<u8>>, root: Seq<u8>) -> Seq<Seq<u8>>
    decreases v.len(),
{
    if v.len() == 0 {
        Seq::<Seq<u8>>::empty()
    } else {
        let prev = spec_filter_sys(v.drop_last(), root);
        if crate::paths::spec_strip_prefix(v.last(), root) is None {
            prev.push(v.last())
        } else {
            prev
        }
    }
}

/// Paths under the detected tool installation root are system headers
/// and stay out of the tracked set.
pub fn filter_system_paths(includes: &Vec<Vec<u8>>, system_root: &[u8]) -> (r: Vec<Vec<u8>>)
    ensures
        r@.map_values(|p: Vec<u8>| p@)
            == spec_filter_sys(includes@.map_values(|p: Vec<u8>| p@), system_root@),
        forall|j: int| 0 <= j < r@.len()
            ==> crate::paths::spec_strip_prefix((#[trigger] r@[j])@, system_root@) is None,
{
    let ghost incl = includes@.map_values(|p: Vec<u8>| p@);
    proof {
        assert(incl.take(0) =~= Seq::<Seq<u8>>::empty());
    }
    let mut out: Vec<Vec<u8>> = Vec::new();
    let n = includes.len();
    let mut i: usize = 0;
    while i < n
        invariant
            0 <= i <= n,
            n == includes@.len(),
            incl == includes@.map_values(|p: Vec<u8>| p@),
            out@.map_values(|p: Vec<u8>| p@) == spec_filter_sys(incl.take(i as int), system_root@),
            forall|j: int| 0 <= j < out@.len()
                ==> crate::paths::spec_strip_prefix((#[trigger] out@[j])@, system_root@) is None,
        decreases n - i,
    {
        let ghost pre = out@.map_values(|p: Vec<u8>| p@);
        proof {
            assert(incl.take(i + 1).drop_last() =~= incl.take(i as int));
            assert(incl.take(i + 1).last() == incl[i as int]);
        }
        if crate::paths::strip_prefix(includes[i].as_slice(), system_root).is_none() {
            let copy = sub_vec(includes[i].as_slice(), 0, includes[i].len());
            proof {
                assert(copy@ =~= includes@[i as int]@);
            }
            out.push(copy);
            proof {
                assert(out@.map_values(|p: Vec<u8>| p@) =~~= pre.push(incl[i as int]));
            }
        }
        i = i + 1;
    }
    proof {
        assert(incl.take(n as int) =~= incl);
    }
    out
}

} // verus!
