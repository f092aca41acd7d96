//! Locating executables on the search path.
//!
//! The pure half of tool discovery: from a tool name and the `PATH`
//! variable's value, compute the candidate file paths in order.  The
//! existence probe itself is I/O and stays with the caller, which
//! keeps the first candidate that exists.

use vstd::prelude::*;
use crate::bytes::sub_vec;
use crate::paths::{join, spec_join_path};

verus! {

/// The `PATH` separator on unix-like systems.
pub const PATH_SEP: u8 = 58;

/// The splitter's state after a prefix of the `PATH` value: the
/// finished entries and the entry still being gathered.
pub open spec fn spec_path_tok_state(s: Seq<u8>) -> (Seq<Seq<u8>>, Seq<u8>)
    decreases s.len(),
{
    if s.len() == 0 {
        (Seq::<Seq<u8>>::empty(), Seq::<u8>::empty())
    } else {
        let prev = spec_path_tok_state(s.drop_last());
        if s.last() == PATH_SEP {
            (if prev.1.len() > 0 {
                prev.0.push(prev.1)
            } else {
                prev.0
            }, Seq::<u8>::empty())
        } else {
            (prev.0, prev.1.push(s.last()))
        }
    }
}

/// The nonempty `:`-separated entries of a `PATH` value, in order.
pub open spec fn spec_path_entries(s: Seq<u8>) -> Seq<Seq<u8>> {
    let st = spec_path_tok_state(s);
    if st.1.len() > 0 {
        st.0.push(st.1)
    } else {
        st.0
    }
}

/// Split a `PATH` value on `:`; empty entries are dropped.
pub fn split_path_entries(path_var: &[u8]) -> (entries: Vec<Vec<u8>>)
    ensures
        entries@.map_values(|e: Vec<u8>| e@) == spec_path_entries(path_var@),
        forall|j: int| 0 <= j < entries@.len() ==> (#[trigger] entries@[j])@.len() > 0,
{
    let n = path_var.len();
    let mut entries: Vec<Vec<u8>> = Vec::new();
    let mut cur: Vec<u8> = Vec::new();
    let mut i: usize = 0;
    proof {
        assert(path_var@.subrange(0, 0) =~= Seq::<u8>::empty());
        assert(entries@.map_values(|e: Vec<u8>| e@)
            =~= spec_path_tok_state(path_var@.subrange(0, 0)).0);
        assert(cur@ =~= spec_path_tok_state(path_var@.subrange(0, 0)).1);
    }
    while i < n
        invariant
            0 <= i <= n,
            n == path_var@.len(),
            entries@.map_values(|e: Vec<u8>| e@)
                == spec_path_tok_state(path_var@.subrange(0, i as int)).0,
            cur@ == spec_path_tok_state(path_var@.subrange(0, i as int)).1,
            forall|j: int| 0 <= j < entries@.len() ==> (#[trigger] entries@[j])@.len() > 0,
        decreases n - i,
    {
        let ghost prefix = path_var@.subrange(0, i as int);
        let ghost next = path_var@.subrange(0, i + 1);
        proof {
            assert(next.drop_last() =~= prefix);
            assert(next.last() == path_var@[i as int]);
        }
        if path_var[i] == PATH_SEP {
            let ghost ev = entries@.map_values(|e: Vec<u8>| e@);
            if cur.len() > 0 {
                entries.push(cur);
                cur = Vec::new();
                proof {
                    assert(entries@.map_values(|e: Vec<u8>| e@)
                        =~~= ev.push(spec_path_tok_state(prefix).1));
                }
            }
        } else {
            cur.push(path_var[i]);
        }
        i = i + 1;
    }
    proof {
        assert(path_var@.subrange(0, n as int) =~= path_var@);
    }
    if cur.len() > 0 {
        let ghost ev = entries@.map_values(|e: Vec<u8>| e@);
        entries.push(cur);
        proof {
            assert(entries@.map_values(|e: Vec<u8>| e@)
                =~~= ev.push(spec_path_tok_state(path_var@).1));
            assert(entries@.map_values(|e: Vec<u8>| e@) =~~= spec_path_entries(path_var@));
        }
    } else {
        proof {
            assert(entries@.map_values(|e: Vec<u8>| e@) =~~= spec_path_entries(path_var@));
        }
    }
    entries
}

/// The candidate paths `which` probes for a bare tool name: each PATH
/// entry joined with the name (and the platform executable extension
/// already applied by the caller), in PATH order.
pub fn which_candidates(exe: &[u8], entries: &Vec<Vec<u8>>) -> (cands: Vec<Vec<u8>>)
    ensures
        cands@.len() == entries@.len(),
        forall|j: int| 0 <= j < entries@.len()
            ==> (#[trigger] cands@[j])@ == spec_join_path((entries@[j])@, exe@),
{
    let n = entries.len();
    let mut cands: Vec<Vec<u8>> = Vec::new();
    let mut i: usize = 0;
    while i < n
        invariant
            0 <= i <= n,
            n == entries@.len(),
            cands@.len() == i,
            forall|j: int| 0 <= j < i
                ==> (#[trigger] cands@[j])@ == spec_join_path((entries@[j])@, exe@),
        decreases n - i,
    {
        cands.push(join(entries[i].as_slice(), exe));
        i = i + 1;
    }
    cands
}

/// Append the platform executable extension when one applies: `name`
/// becomes `name.exe` on Windows and stays as it is elsewhere.
pub fn with_exe_extension(name: &[u8], windows: bool) -> (r: Vec<u8>)
    ensures
        windows ==> r@ == name@ + seq![46u8, 101u8, 120u8, 101u8],
        !windows ==> r@ == name@,
{
    let mut out = sub_vec(name, 0, name.len());
    proof {
        assert(out@ =~= name@);
    }
    if windows {
        out.push(46);
        out.push(101);
        out.push(120);
        out.push(101);
        proof {
            assert(out@ =~= name@ + seq![46u8, 101u8, 120u8, 101u8]);
        }
    }
    out
}

} // verus!
