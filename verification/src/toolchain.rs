//! Toolchain model: which kind of tool runs, which family it belongs
//! to, and the family-specific translation of semantic build settings
//! into concrete command-line flags.

use vstd::prelude::*;

verus! {

/// Kind of tool used (compiler, linker, archiver).
#[derive(Debug, Clone, Copy, PartialEq, Eq, Structural)]
pub enum ToolKind {
    Compiler,
    Linker,
    Archiver,
}

/// Family of tools used (MSVC, GNU, Clang).
#[derive(Debug, Clone, Copy, PartialEq, Eq, Structural)]
pub enum ToolFamily {
    Gnu,
    Clang,
    Msvc,
}

impl ToolFamily {
    /// Is this the MSVC family?
    pub fn is_msvc(self) -> (r: bool)
        ensures
            r <==> self == ToolFamily::Msvc,
    {
        matches!(self, ToolFamily::Msvc)
    }

    /// Is this the GNU family?
    pub fn is_gnu(self) -> (r: bool)
        ensures
            r <==> self == ToolFamily::Gnu,
    {
        matches!(self, ToolFamily::Gnu)
    }

    /// Is this the Clang family?
    pub fn is_clang(self) -> (r: bool)
        ensures
            r <==> self == ToolFamily::Clang,
    {
        matches!(self, ToolFamily::Clang)
    }
}


/// `--target=` as bytes.
pub open spec fn spec_target_eq() -> Seq<u8> {
    seq![45u8, 45u8, 116u8, 97u8, 114u8, 103u8, 101u8, 116u8, 61u8]
}

fn mk_target_eq() -> (r: Vec<u8>)
    ensures
        r@ == spec_target_eq(),
{
    let mut v: Vec<u8> = Vec::new();
    v.push(45);
    v.push(45);
    v.push(116);
    v.push(97);
    v.push(114);
    v.push(103);
    v.push(101);
    v.push(116);
    v.push(61);
    proof {
        assert(v@ =~= spec_target_eq());
    }
    v
}

/// Rust and the compilers disagree on Darwin architecture names; the
/// first matching row decides.
pub open spec fn spec_map_darwin_arch(t: Seq<u8>) -> Option<Seq<u8>> {
    if crate::bytes::spec_find(t, seq![120u8, 56u8, 54u8, 95u8, 54u8, 52u8]) is Some {
        Some(seq![120u8, 56u8, 54u8, 95u8, 54u8, 52u8])
    } else if crate::bytes::spec_find(t, seq![97u8, 114u8, 109u8, 54u8, 52u8, 101u8]) is Some {
        Some(seq![97u8, 114u8, 109u8, 54u8, 52u8, 101u8])
    } else if crate::bytes::spec_find(t, seq![97u8, 97u8, 114u8, 99u8, 104u8, 54u8, 52u8]) is Some {
        Some(seq![97u8, 114u8, 109u8, 54u8, 52u8])
    } else if crate::bytes::spec_find(t, seq![105u8, 54u8, 56u8, 54u8]) is Some {
        Some(seq![105u8, 51u8, 56u8, 54u8])
    } else if crate::bytes::spec_find(t, seq![112u8, 111u8, 119u8, 101u8, 114u8, 112u8, 99u8]) is Some {
        Some(seq![112u8, 112u8, 99u8])
    } else {
        None
    }
}

/// Map a Darwin target triple to the compiler's architecture name.
pub fn map_darwin_target_from_rust_to_compiler_architecture(t: &[u8]) -> (r: Option<Vec<u8>>)
    ensures
        match r {
            Some(a) => spec_map_darwin_arch(t@) == Some(a@),
            None => spec_map_darwin_arch(t@) is None,
        },
{
    let mut x86: Vec<u8> = Vec::new();
    x86.push(120);
    x86.push(56);
    x86.push(54);
    x86.push(95);
    x86.push(54);
    x86.push(52);
    proof {
        assert(x86@ =~= seq![120u8, 56u8, 54u8, 95u8, 54u8, 52u8]);
    }
    if crate::bytes::find_first(t, x86.as_slice()).is_some() {
        return Some(x86);
    }
    let mut a64e: Vec<u8> = Vec::new();
    a64e.push(97);
    a64e.push(114);
    a64e.push(109);
    a64e.push(54);
    a64e.push(52);
    a64e.push(101);
    proof {
        assert(a64e@ =~= seq![97u8, 114u8, 109u8, 54u8, 52u8, 101u8]);
    }
    if crate::bytes::find_first(t, a64e.as_slice()).is_some() {
        return Some(a64e);
    }
    let mut aa64: Vec<u8> = Vec::new();
    aa64.push(97);
    aa64.push(97);
    aa64.push(114);
    aa64.push(99);
    aa64.push(104);
    aa64.push(54);
    aa64.push(52);
    proof {
        assert(aa64@ =~= seq![97u8, 97u8, 114u8, 99u8, 104u8, 54u8, 52u8]);
    }
    if crate::bytes::find_first(t, aa64.as_slice()).is_some() {
        let mut arm64: Vec<u8> = Vec::new();
        arm64.push(97);
        arm64.push(114);
        arm64.push(109);
        arm64.push(54);
        arm64.push(52);
        proof {
            assert(arm64@ =~= seq![97u8, 114u8, 109u8, 54u8, 52u8]);
        }
        return Some(arm64);
    }
    let mut i686: Vec<u8> = Vec::new();
    i686.push(105);
    i686.push(54);
    i686.push(56);
    i686.push(54);
    proof {
        assert(i686@ =~= seq![105u8, 54u8, 56u8, 54u8]);
    }
    if crate::bytes::find_first(t, i686.as_slice()).is_some() {
        let mut i386: Vec<u8> = Vec::new();
        i386.push(105);
        i386.push(51);
        i386.push(56);
        i386.push(54);
        proof {
            assert(i386@ =~= seq![105u8, 51u8, 56u8, 54u8]);
        }
        return Some(i386);
    }
    let mut ppc: Vec<u8> = Vec::new();
    ppc.push(112);
    ppc.push(111);
    ppc.push(119);
    ppc.push(101);
    ppc.push(114);
    ppc.push(112);
    ppc.push(99);
    proof {
        assert(ppc@ =~= seq![112u8, 111u8, 119u8, 101u8, 114u8, 112u8, 99u8]);
    }
    if crate::bytes::find_first(t, ppc.as_slice()).is_some() {
        let mut short: Vec<u8> = Vec::new();
        short.push(112);
        short.push(112);
        short.push(99);
        proof {
            assert(short@ =~= seq![112u8, 112u8, 99u8]);
        }
        return Some(short);
    }
    None
}

/// Android "standalone" compilers carry the target in their own name
/// and pass `--target` themselves.
pub fn android_clang_compiler_uses_target_arg_internally(file_name: &[u8]) -> (r: bool)
    ensures
        r <==> crate::bytes::spec_find(
            file_name@,
            seq![97u8, 110u8, 100u8, 114u8, 111u8, 105u8, 100u8],
        ) is Some,
{
    let mut pat: Vec<u8> = Vec::new();
    pat.push(97);
    pat.push(110);
    pat.push(100);
    pat.push(114);
    pat.push(111);
    pat.push(105);
    pat.push(100);
    proof {
        assert(pat@ =~= seq![97u8, 110u8, 100u8, 114u8, 111u8, 105u8, 100u8]);
    }
    crate::bytes::find_first(file_name, pat.as_slice()).is_some()
}

/// A tool's family is read off its file name: `cl`-suffixed tools are
/// MSVC, names holding `clang` are Clang, everything else is GNU.
/// `cc` and `c++` should be resolved through their symlink before this
/// is applied.
pub open spec fn spec_detect_family_name(fname: Seq<u8>) -> ToolFamily {
    if crate::bytes::ends_with_spec(fname, seq![99u8, 108u8])
        || fname == seq![99u8, 108u8, 46u8, 101u8, 120u8, 101u8] {
        ToolFamily::Msvc
    } else if crate::bytes::spec_find(fname, seq![99u8, 108u8, 97u8, 110u8, 103u8]) is Some {
        ToolFamily::Clang
    } else {
        ToolFamily::Gnu
    }
}

/// Classify a tool by its file name.
pub fn detect_family_name(fname: &[u8]) -> (r: ToolFamily)
    ensures
        r == spec_detect_family_name(fname@),
{
    let mut cl: Vec<u8> = Vec::new();
    cl.push(99);
    cl.push(108);
    proof {
        assert(cl@ =~= seq![99u8, 108u8]);
    }
    let mut clexe: Vec<u8> = Vec::new();
    clexe.push(99);
    clexe.push(108);
    clexe.push(46);
    clexe.push(101);
    clexe.push(120);
    clexe.push(101);
    proof {
        assert(clexe@ =~= seq![99u8, 108u8, 46u8, 101u8, 120u8, 101u8]);
    }
    if crate::bytes::ends_with(fname, cl.as_slice())
        || crate::bytes::bytes_eq(fname, clexe.as_slice())
    {
        return ToolFamily::Msvc;
    }
    let mut clang: Vec<u8> = Vec::new();
    clang.push(99);
    clang.push(108);
    clang.push(97);
    clang.push(110);
    clang.push(103);
    proof {
        assert(clang@ =~= seq![99u8, 108u8, 97u8, 110u8, 103u8]);
    }
    if crate::bytes::find_first(fname, clang.as_slice()).is_some() {
        return ToolFamily::Clang;
    }
    ToolFamily::Gnu
}

/// An invocable tool: its kind, family, executable path, arguments and
/// environment overrides.
#[derive(Debug, Clone)]
pub struct Tool {
    pub kind: ToolKind,
    pub family: ToolFamily,
    pub path: Vec<u8>,
    pub args: Vec<Vec<u8>>,
    pub env: Vec<(Vec<u8>, Vec<u8>)>,
    pub env_remove: Vec<Vec<u8>>,
}

impl Tool {
    /// A bare tool at a path, with its family read off the file name.
    pub fn new(kind: ToolKind, path: Vec<u8>) -> (r: Tool)
        ensures
            r.kind == kind,
            r.path@ == path@,
            r.args@.len() == 0,
            r.env@.len() == 0,
            r.family == spec_detect_family_name(crate::paths::spec_file_name_of(path@)),
    {
        let fname = crate::paths::file_name(path.as_slice());
        proof {
            crate::paths::lemma_file_name_of(path@, fname@);
        }
        let family = detect_family_name(fname.as_slice());
        Tool { kind, family, path, args: Vec::new(), env: Vec::new(), env_remove: Vec::new() }
    }

    /// Append one argument.
    pub fn arg(&mut self, a: Vec<u8>)
        ensures
            final(self).args@.map_values(|x: Vec<u8>| x@)
                == old(self).args@.map_values(|x: Vec<u8>| x@).push(a@),
            final(self).kind == old(self).kind,
            final(self).family == old(self).family,
            final(self).path@ == old(self).path@,
    {
        self.args.push(a);
        proof {
            assert(final(self).args@.map_values(|x: Vec<u8>| x@)
                =~~= old(self).args@.map_values(|x: Vec<u8>| x@).push(
                    final(self).args@.last()@));
        }
    }

    /// Append many arguments.
    pub fn args_extend(&mut self, more: Vec<Vec<u8>>)
        ensures
            final(self).args@.map_values(|x: Vec<u8>| x@)
                == old(self).args@.map_values(|x: Vec<u8>| x@)
                    + more@.map_values(|x: Vec<u8>| x@),
            final(self).kind == old(self).kind,
            final(self).family == old(self).family,
            final(self).path@ == old(self).path@,
    {
        let n = more.len();
        let mut i: usize = 0;
        proof {
            assert(self.args@.map_values(|x: Vec<u8>| x@)
                =~~= old(self).args@.map_values(|x: Vec<u8>| x@)
                    + more@.map_values(|x: Vec<u8>| x@).take(0));
        }
        while i < n
            invariant
                0 <= i <= n,
                n == more@.len(),
                self.kind == old(self).kind,
                self.family == old(self).family,
                self.path@ == old(self).path@,
                self.args@.map_values(|x: Vec<u8>| x@)
                    == old(self).args@.map_values(|x: Vec<u8>| x@)
                        + more@.map_values(|x: Vec<u8>| x@).take(i as int),
            decreases n - i,
        {
            let item = crate::bytes::sub_vec(more[i].as_slice(), 0, more[i].len());
            proof {
                assert(item@ =~= more@[i as int]@);
            }
            let ghost pre_map = self.args@.map_values(|x: Vec<u8>| x@);
            let ghost item_v = item@;
            self.args.push(item);
            proof {
                let mv = more@.map_values(|x: Vec<u8>| x@);
                assert(self.args@.map_values(|x: Vec<u8>| x@) =~~= pre_map.push(item_v)) by {
                    assert(self.args@.last()@ == item_v);
                    assert(forall|q: int| 0 <= q < pre_map.len()
                        ==> self.args@.map_values(|x: Vec<u8>| x@)[q] == pre_map[q]);
                }
                assert(pre_map.push(item_v)
                    =~~= old(self).args@.map_values(|x: Vec<u8>| x@) + mv.take(i + 1)) by {
                    assert(mv.take(i + 1).drop_last() =~= mv.take(i as int));
                    assert(mv.take(i + 1).last() == mv[i as int]);
                    assert(item_v == mv[i as int]);
                }
            }
            i = i + 1;
        }
        proof {
            let mv = more@.map_values(|x: Vec<u8>| x@);
            assert(mv.take(n as int) =~= mv);
        }
    }
}

} // verus!
