//! The build driver's pure core: turning semantic build settings into
//! family-specific command-line flags, and naming the artifacts a
//! build produces.

use vstd::prelude::*;
use crate::bytes::{find_first, spec_find, rfind_byte_last, spec_rfind_byte, spec_find_byte,
    find_byte_first, sub_vec};
use crate::options::{Lto, OptLevel, Profile, StdC, StdCxx, WarningLevel};
use crate::toolchain::ToolFamily;
use crate::unit::BinType;
use crate::paths::with_extension;

verus! {

/// A side file produced alongside the main output.
#[derive(Debug, Clone, Copy, PartialEq, Eq, Structural)]
pub enum Artifact {
    /// MSVC debug information.
    Pdb,
    /// MSVC incremental-link state.
    Ilk,
    /// MSVC import library of a shared library.
    Lib,
    /// MSVC exports of a shared library.
    Exp,
    /// Apple debug bundle.
    Dsym,
}

impl Artifact {
    /// The artifact's file extension.
    pub fn ext(self) -> (r: Vec<u8>)
        ensures
            self == Artifact::Pdb ==> r@ == seq![112u8, 100u8, 98u8],
            self == Artifact::Ilk ==> r@ == seq![105u8, 108u8, 107u8],
            self == Artifact::Lib ==> r@ == seq![108u8, 105u8, 98u8],
            self == Artifact::Exp ==> r@ == seq![101u8, 120u8, 112u8],
            self == Artifact::Dsym ==> r@ == seq![100u8, 83u8, 89u8, 77u8],
    {
        let mut v: Vec<u8> = Vec::new();
        match self {
            Artifact::Pdb => {
                v.push(112);
                v.push(100);
                v.push(98);
                proof {
                    assert(v@ =~= seq![112u8, 100u8, 98u8]);
                }
            }
            Artifact::Ilk => {
                v.push(105);
                v.push(108);
                v.push(107);
                proof {
                    assert(v@ =~= seq![105u8, 108u8, 107u8]);
                }
            }
            Artifact::Lib => {
                v.push(108);
                v.push(105);
                v.push(98);
                proof {
                    assert(v@ =~= seq![108u8, 105u8, 98u8]);
                }
            }
            Artifact::Exp => {
                v.push(101);
                v.push(120);
                v.push(112);
                proof {
                    assert(v@ =~= seq![101u8, 120u8, 112u8]);
                }
            }
            Artifact::Dsym => {
                v.push(100);
                v.push(83);
                v.push(89);
                v.push(77);
                proof {
                    assert(v@ =~= seq![100u8, 83u8, 89u8, 77u8]);
                }
            }
        }
        v
    }

    /// Debug information, copied next to the binary?
    pub fn is_debug_info(self) -> (r: bool)
        ensures
            r <==> (self == Artifact::Pdb || self == Artifact::Dsym),
    {
        matches!(self, Artifact::Pdb | Artifact::Dsym)
    }

    /// A by-product that never leaves the output directory?
    pub fn is_auxiliary(self) -> (r: bool)
        ensures
            r <==> (self == Artifact::Ilk || self == Artifact::Exp),
    {
        matches!(self, Artifact::Ilk | Artifact::Exp)
    }
}

/// The main output's file name: the target name with the platform
/// extension of its binary type.
pub fn output_name(name: &[u8], bin_type: BinType, target: &[u8]) -> (r: Vec<u8>)
    ensures
        r@ == crate::paths::spec_with_extension(name@,
            crate::unit::spec_bin_ext(bin_type, target@)),
{
    let ext = bin_type.ext(target);
    with_extension(name, ext.as_slice())
}

/// The side files a build produces: MSVC shared libraries carry an
/// import library and exports, MSVC debug builds a PDB, incremental
/// MSVC builds an ILK, and Apple debug builds a dSYM.
pub fn output_artifacts(
    bin_type: BinType,
    family: ToolFamily,
    target_is_apple: bool,
    profile: &Profile,
) -> (r: Vec<Artifact>)
    ensures
        r@ == spec_output_artifacts(bin_type, family, target_is_apple,
            profile.debug, profile.incremental && profile.opt_level == OptLevel::O0),
{
    let mut a: Vec<Artifact> = Vec::new();
    proof {
        assert(a@ =~= Seq::<Artifact>::empty());
    }
    if family.is_msvc() {
        if bin_type.is_shared() {
            a.push(Artifact::Lib);
            a.push(Artifact::Exp);
        }
        if profile.debug {
            a.push(Artifact::Pdb);
        }
        if profile.is_incremental() {
            a.push(Artifact::Ilk);
        }
        proof {
            assert(a@ =~= spec_output_artifacts(bin_type, family, target_is_apple,
                profile.debug, profile.incremental && profile.opt_level == OptLevel::O0));
        }
    } else if target_is_apple {
        if profile.debug {
            a.push(Artifact::Dsym);
        }
        proof {
            assert(a@ =~= spec_output_artifacts(bin_type, family, target_is_apple,
                profile.debug, profile.incremental && profile.opt_level == OptLevel::O0));
        }
    } else {
        proof {
            assert(a@ =~= spec_output_artifacts(bin_type, family, target_is_apple,
                profile.debug, profile.incremental && profile.opt_level == OptLevel::O0));
        }
    }
    a
}

/// The artifact list, at spec level.
pub open spec fn spec_output_artifacts(
    bin_type: BinType,
    family: ToolFamily,
    apple: bool,
    debug: bool,
    incremental: bool,
) -> Seq<Artifact> {
    if family == ToolFamily::Msvc {
        (if bin_type == BinType::Shared {
            seq![Artifact::Lib, Artifact::Exp]
        } else {
            Seq::<Artifact>::empty()
        })
        + (if debug { seq![Artifact::Pdb] } else { Seq::<Artifact>::empty() })
        + (if incremental { seq![Artifact::Ilk] } else { Seq::<Artifact>::empty() })
    } else if apple && debug {
        seq![Artifact::Dsym]
    } else {
        Seq::<Artifact>::empty()
    }
}

/// The optimization flag by family: MSVC caps at `-O2` and picks the
/// inline level separately; GNU without `-Oz` support falls back to
/// `-Os`.
pub fn opt_level_flags(family: ToolFamily, level: OptLevel) -> (r: Vec<Vec<u8>>)
    ensures
        family == ToolFamily::Msvc ==> r@.len() == 2,
        family != ToolFamily::Msvc ==> r@.len() == 1,
        family == ToolFamily::Gnu && level == OptLevel::Oz
            ==> r@[0]@ == seq![45u8, 79u8, 115u8],
        family == ToolFamily::Clang && level == OptLevel::Oz
            ==> r@[0]@ == seq![45u8, 79u8, 122u8],
        family != ToolFamily::Msvc && level == OptLevel::O0
            ==> r@[0]@ == seq![45u8, 79u8, 48u8],
        family != ToolFamily::Msvc && level == OptLevel::O2
            ==> r@[0]@ == seq![45u8, 79u8, 50u8],
        family != ToolFamily::Msvc && level == OptLevel::O3
            ==> r@[0]@ == seq![45u8, 79u8, 51u8],
        family == ToolFamily::Msvc && level == OptLevel::O0
            ==> r@[0]@ == seq![45u8, 79u8, 100u8]
                && r@[1]@ == seq![45u8, 79u8, 98u8, 48u8],
        family == ToolFamily::Msvc && (level == OptLevel::O2 || level == OptLevel::O3)
            ==> r@[0]@ == seq![45u8, 79u8, 50u8]
                && r@[1]@ == seq![45u8, 79u8, 98u8, 50u8],
        family == ToolFamily::Msvc
            && (level == OptLevel::Os || level == OptLevel::Oz || level == OptLevel::O1)
            ==> r@[0]@ == seq![45u8, 79u8, 49u8],
{
    let mut r: Vec<Vec<u8>> = Vec::new();
    if family.is_msvc() {
        let mut f: Vec<u8> = Vec::new();
        f.push(45);
        f.push(79);
        match level {
            OptLevel::O0 => {
                f.push(100);
                proof {
                    assert(f@ =~= seq![45u8, 79u8, 100u8]);
                }
            }
            OptLevel::O2 | OptLevel::O3 => {
                f.push(50);
                proof {
                    assert(f@ =~= seq![45u8, 79u8, 50u8]);
                }
            }
            OptLevel::Os | OptLevel::Oz | OptLevel::O1 => {
                f.push(49);
                proof {
                    assert(f@ =~= seq![45u8, 79u8, 49u8]);
                }
            }
        }
        r.push(f);
        let mut g: Vec<u8> = Vec::new();
        g.push(45);
        g.push(79);
        g.push(98);
        match level {
            OptLevel::O0 | OptLevel::Os | OptLevel::Oz => {
                g.push(48);
                proof {
                    assert(g@ =~= seq![45u8, 79u8, 98u8, 48u8]);
                }
            }
            _ => {
                g.push(50);
                proof {
                    assert(g@ =~= seq![45u8, 79u8, 98u8, 50u8]);
                }
            }
        }
        r.push(g);
    } else {
        let mut f: Vec<u8> = Vec::new();
        f.push(45);
        f.push(79);
        let effective = if matches!(level, OptLevel::Oz) && !family.is_clang() {
            OptLevel::Os
        } else {
            level
        };
        match effective {
            OptLevel::O0 => {
                f.push(48);
                proof {
                    assert(f@ =~= seq![45u8, 79u8, 48u8]);
                }
            }
            OptLevel::O1 => {
                f.push(49);
                proof {
                    assert(f@ =~= seq![45u8, 79u8, 49u8]);
                }
            }
            OptLevel::O2 => {
                f.push(50);
                proof {
                    assert(f@ =~= seq![45u8, 79u8, 50u8]);
                }
            }
            OptLevel::O3 => {
                f.push(51);
                proof {
                    assert(f@ =~= seq![45u8, 79u8, 51u8]);
                }
            }
            OptLevel::Os => {
                f.push(115);
                proof {
                    assert(f@ =~= seq![45u8, 79u8, 115u8]);
                }
            }
            OptLevel::Oz => {
                f.push(122);
                proof {
                    assert(f@ =~= seq![45u8, 79u8, 122u8]);
                }
            }
        }
        r.push(f);
    }
    r
}

/// The DWARF version a target defaults to: 2 on Windows-GNU, the BSDs,
/// Apple and Android; 4 on Linux; none elsewhere.
pub fn dwarf_version(target: &[u8]) -> (r: Option<u32>)
    ensures
        ({
            let t = target@;
            let two = spec_find(t, seq![97u8, 110u8, 100u8, 114u8, 111u8, 105u8, 100u8]) is Some
                || spec_find(t, seq![97u8, 112u8, 112u8, 108u8, 101u8]) is Some
                || spec_find(t, seq![100u8, 114u8, 97u8, 103u8, 111u8, 110u8, 102u8, 108u8, 121u8]) is Some
                || spec_find(t, seq![102u8, 114u8, 101u8, 101u8, 98u8, 115u8, 100u8]) is Some
                || spec_find(t, seq![110u8, 101u8, 116u8, 98u8, 115u8, 100u8]) is Some
                || spec_find(t, seq![111u8, 112u8, 101u8, 110u8, 98u8, 115u8, 100u8]) is Some
                || spec_find(t, seq![119u8, 105u8, 110u8, 100u8, 111u8, 119u8, 115u8, 45u8, 103u8, 110u8, 117u8]) is Some;
            let four = spec_find(t, seq![108u8, 105u8, 110u8, 117u8, 120u8]) is Some;
            if two {
                r == Some(2u32)
            } else if four {
                r == Some(4u32)
            } else {
                r is None
            }
        }),
{
    let mut android: Vec<u8> = Vec::new();
    android.push(97);
    android.push(110);
    android.push(100);
    android.push(114);
    android.push(111);
    android.push(105);
    android.push(100);
    let mut apple: Vec<u8> = Vec::new();
    apple.push(97);
    apple.push(112);
    apple.push(112);
    apple.push(108);
    apple.push(101);
    let mut dragonfly: Vec<u8> = Vec::new();
    dragonfly.push(100);
    dragonfly.push(114);
    dragonfly.push(97);
    dragonfly.push(103);
    dragonfly.push(111);
    dragonfly.push(110);
    dragonfly.push(102);
    dragonfly.push(108);
    dragonfly.push(121);
    let mut freebsd: Vec<u8> = Vec::new();
    freebsd.push(102);
    freebsd.push(114);
    freebsd.push(101);
    freebsd.push(101);
    freebsd.push(98);
    freebsd.push(115);
    freebsd.push(100);
    let mut netbsd: Vec<u8> = Vec::new();
    netbsd.push(110);
    netbsd.push(101);
    netbsd.push(116);
    netbsd.push(98);
    netbsd.push(115);
    netbsd.push(100);
    let mut openbsd: Vec<u8> = Vec::new();
    openbsd.push(111);
    openbsd.push(112);
    openbsd.push(101);
    openbsd.push(110);
    openbsd.push(98);
    openbsd.push(115);
    openbsd.push(100);
    let mut wingnu: Vec<u8> = Vec::new();
    wingnu.push(119);
    wingnu.push(105);
    wingnu.push(110);
    wingnu.push(100);
    wingnu.push(111);
    wingnu.push(119);
    wingnu.push(115);
    wingnu.push(45);
    wingnu.push(103);
    wingnu.push(110);
    wingnu.push(117);
    let mut linux: Vec<u8> = Vec::new();
    linux.push(108);
    linux.push(105);
    linux.push(110);
    linux.push(117);
    linux.push(120);
    proof {
        assert(android@ =~= seq![97u8, 110u8, 100u8, 114u8, 111u8, 105u8, 100u8]);
        assert(apple@ =~= seq![97u8, 112u8, 112u8, 108u8, 101u8]);
        assert(dragonfly@ =~= seq![100u8, 114u8, 97u8, 103u8, 111u8, 110u8, 102u8, 108u8, 121u8]);
        assert(freebsd@ =~= seq![102u8, 114u8, 101u8, 101u8, 98u8, 115u8, 100u8]);
        assert(netbsd@ =~= seq![110u8, 101u8, 116u8, 98u8, 115u8, 100u8]);
        assert(openbsd@ =~= seq![111u8, 112u8, 101u8, 110u8, 98u8, 115u8, 100u8]);
        assert(wingnu@ =~= seq![119u8, 105u8, 110u8, 100u8, 111u8, 119u8, 115u8, 45u8, 103u8, 110u8, 117u8]);
        assert(linux@ =~= seq![108u8, 105u8, 110u8, 117u8, 120u8]);
    }
    if find_first(target, android.as_slice()).is_some()
        || find_first(target, apple.as_slice()).is_some()
        || find_first(target, dragonfly.as_slice()).is_some()
        || find_first(target, freebsd.as_slice()).is_some()
        || find_first(target, netbsd.as_slice()).is_some()
        || find_first(target, openbsd.as_slice()).is_some()
        || find_first(target, wingnu.as_slice()).is_some()
    {
        Some(2)
    } else if find_first(target, linux.as_slice()).is_some() {
        Some(4)
    } else {
        None
    }
}

/// MSVC's architecture flag: `-machine:x64` for x86_64 targets,
/// `-machine:x86` otherwise.
pub fn msvc_arch_flag(target: &[u8]) -> (r: Vec<u8>)
    ensures
        spec_find(target@, seq![120u8, 56u8, 54u8, 95u8, 54u8, 52u8]) is Some
            ==> r@ == seq![45u8, 109u8, 97u8, 99u8, 104u8, 105u8, 110u8, 101u8, 58u8,
                120u8, 54u8, 52u8],
        spec_find(target@, seq![120u8, 56u8, 54u8, 95u8, 54u8, 52u8]) is None
            ==> r@ == seq![45u8, 109u8, 97u8, 99u8, 104u8, 105u8, 110u8, 101u8, 58u8,
                120u8, 56u8, 54u8],
{
    let mut x64: Vec<u8> = Vec::new();
    x64.push(120);
    x64.push(56);
    x64.push(54);
    x64.push(95);
    x64.push(54);
    x64.push(52);
    proof {
        assert(x64@ =~= seq![120u8, 56u8, 54u8, 95u8, 54u8, 52u8]);
    }
    let mut out: Vec<u8> = Vec::new();
    out.push(45);
    out.push(109);
    out.push(97);
    out.push(99);
    out.push(104);
    out.push(105);
    out.push(110);
    out.push(101);
    out.push(58);
    out.push(120);
    if find_first(target, x64.as_slice()).is_some() {
        out.push(54);
        out.push(52);
        proof {
            assert(out@ =~= seq![45u8, 109u8, 97u8, 99u8, 104u8, 105u8, 110u8, 101u8, 58u8,
                120u8, 54u8, 52u8]);
        }
    } else {
        out.push(56);
        out.push(54);
        proof {
            assert(out@ =~= seq![45u8, 109u8, 97u8, 99u8, 104u8, 105u8, 110u8, 101u8, 58u8,
                120u8, 56u8, 54u8]);
        }
    }
    out
}

/// The duplicate-detection key of a flag.
pub open spec fn spec_arg_key(msvc: bool, arg: Seq<u8>) -> Seq<u8> {
    let n = arg.len() as int;
    if msvc {
        let sep = if spec_find_byte(arg, 58) is Some {
            spec_find_byte(arg, 58)
        } else {
            spec_find_byte(arg, 61)
        };
        match sep {
            Some(s) => if n >= 1 && s >= 1 {
                let key = arg.subrange(1, s);
                if key.len() == 2 && key[0] == 90 && key[1] == 99 {
                    arg.subrange(1, n)
                } else {
                    key
                }
            } else {
                arg
            },
            None => arg,
        }
    } else {
        let is_wl = n >= 3 && arg[0] == 45 && arg[1] == 87 && (arg[2] == 108 || arg[2] == 97);
        if is_wl {
            match spec_rfind_byte(arg, 44) {
                Some(last) => match spec_find_byte(arg, 44) {
                    Some(first) => if last > first {
                        arg.subrange(0, last)
                    } else {
                        arg
                    },
                    None => arg,
                },
                None => arg,
            }
        } else {
            match spec_find_byte(arg, 61) {
                Some(s) => arg.subrange(0, s),
                None => arg,
            }
        }
    }
}

/// The key that identifies a flag for duplicate detection: MSVC-style
/// `-X:v` and `-X=v` flags compare by their key (except `Zc`, which is
/// repeatable and compares whole, skipping the prefix byte so `-` and
/// `/` spellings collide); GNU-style `-Wl,`/`-Wa,` flags compare up to
/// their last comma; `-x=v` flags compare by `-x`.
#[verifier::spinoff_prover]
#[verifier::rlimit(100)]
pub fn arg_key(family: ToolFamily, arg: &[u8]) -> (r: Vec<u8>)
    ensures
        r@ == spec_arg_key(family == ToolFamily::Msvc, arg@),
{
    let n = arg.len();
    proof {
        assert(arg@.subrange(0, n as int) =~= arg@);
    }
    if family.is_msvc() {
        let sep = match find_byte_first(arg, 58) {
            Some(i) => Some(i),
            None => find_byte_first(arg, 61),
        };
        match sep {
            Some(s) => {
                if n >= 1 && s >= 1 {
                    let key = sub_vec(arg, 1, s);
                    let is_zc = key.len() == 2 && key[0] == 90 && key[1] == 99;
                    if is_zc {
                        sub_vec(arg, 1, n)
                    } else {
                        key
                    }
                } else {
                    sub_vec(arg, 0, n)
                }
            }
            None => sub_vec(arg, 0, n),
        }
    } else {
        let is_wl = n >= 3 && arg[0] == 45 && arg[1] == 87 && (arg[2] == 108 || arg[2] == 97);
        if is_wl {
            match rfind_byte_last(arg, 44) {
                Some(last) => {
                    match find_byte_first(arg, 44) {
                        Some(first) if last > first => sub_vec(arg, 0, last),
                        _ => sub_vec(arg, 0, n),
                    }
                }
                None => sub_vec(arg, 0, n),
            }
        } else {
            match find_byte_first(arg, 61) {
                Some(s) => sub_vec(arg, 0, s),
                None => sub_vec(arg, 0, n),
            }
        }
    }
}

/// Whether the C runtime links statically: explicit settings win, and
/// the default infers static exactly when no shared library is linked.
pub fn static_crt(crt: crate::options::Crt, links_shared_lib: bool) -> (r: bool)
    ensures
        crt == crate::options::Crt::Static ==> r,
        crt == crate::options::Crt::Shared ==> !r,
        crt == crate::options::Crt::Default ==> (r <==> !links_shared_lib),
{
    match crt {
        crate::options::Crt::Static => true,
        crate::options::Crt::Shared => false,
        crate::options::Crt::Default => !links_shared_lib,
    }
}

} // verus!
