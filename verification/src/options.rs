//! User-configurable build options and profiles.

use vstd::prelude::*;

verus! {

/// C standard.
#[derive(Debug, Clone, Copy, PartialEq, Eq, Structural)]
pub enum StdC {
    C89,
    C99,
    C11,
    C17,
    C20,
}

/// C++ standard.
#[derive(Debug, Clone, Copy, PartialEq, Eq, Structural)]
pub enum StdCxx {
    Cxx98,
    Cxx11,
    Cxx14,
    Cxx17,
    Cxx20,
}

/// C/C++ standards in force.
#[derive(Debug, Clone)]
pub struct Std {
    pub c: StdC,
    pub cxx: StdCxx,
    pub cxx_stdlib: Option<Vec<u8>>,
    pub gnu: bool,
}

/// C runtime linkage.
#[derive(Debug, Clone, Copy, PartialEq, Eq, Structural)]
pub enum Crt {
    Default,
    Static,
    Shared,
}

/// Warning level.
#[derive(Debug, Clone, Copy, PartialEq, Eq, Structural)]
pub enum WarningLevel {
    Off,
    Default,
    Extra,
    All,
}

/// Warning configuration.
#[derive(Debug, Clone)]
pub struct Warnings {
    pub level: WarningLevel,
    pub errors: bool,
    pub extra: Vec<Vec<u8>>,
}

/// Link-time optimization mode.
#[derive(Debug, Clone, Copy, PartialEq, Eq, Structural)]
pub enum Lto {
    Off,
    Thin,
    Fat,
}

/// Optimization level.
#[derive(Debug, Clone, Copy, PartialEq, Eq, Structural)]
pub enum OptLevel {
    O0,
    O1,
    O2,
    O3,
    Os,
    Oz,
}

impl OptLevel {
    /// Any optimization at all?
    pub open spec fn spec_is_optimized(self) -> bool {
        self != OptLevel::O0
    }
}

/// Flags honoured only on unix-like targets.
#[derive(Debug, Clone, Copy, PartialEq, Eq, Structural)]
pub struct UnixFlags {
    pub pic: bool,
    pub plt: bool,
    pub force_frame_pointer: bool,
}

impl UnixFlags {
    /// Position-independent code on, PLT on, frame pointer free.
    pub fn default_flags() -> (r: Self)
        ensures
            r.pic && r.plt && !r.force_frame_pointer,
    {
        UnixFlags { pic: true, plt: true, force_frame_pointer: false }
    }
}

/// User-configurable options for one target.
#[derive(Debug, Clone)]
pub struct Options {
    pub std: Std,
    pub crt: Crt,
    pub warnings: Warnings,
    pub defines: Vec<Vec<u8>>,
    pub cc_flags: Vec<Vec<u8>>,
    pub ld_flags: Vec<Vec<u8>>,
    pub ar_flags: Vec<Vec<u8>>,
    pub asm_flags: Vec<Vec<u8>>,
    pub unix: UnixFlags,
}

impl Options {
    /// The defaults: C11/C++17, default CRT, default warnings, no
    /// extra flags.
    pub fn new_default() -> (r: Self)
        ensures
            r.std.c == StdC::C11,
            r.std.cxx == StdCxx::Cxx17,
            r.std.cxx_stdlib is None,
            !r.std.gnu,
            r.crt == Crt::Default,
            r.warnings.level == WarningLevel::Default,
            !r.warnings.errors,
            r.warnings.extra@.len() == 0,
            r.defines@.len() == 0,
            r.cc_flags@.len() == 0,
            r.ld_flags@.len() == 0,
            r.ar_flags@.len() == 0,
            r.asm_flags@.len() == 0,
            r.unix.pic && r.unix.plt && !r.unix.force_frame_pointer,
    {
        Options {
            std: Std { c: StdC::C11, cxx: StdCxx::Cxx17, cxx_stdlib: None, gnu: false },
            crt: Crt::Default,
            warnings: Warnings { level: WarningLevel::Default, errors: false, extra: Vec::new() },
            defines: Vec::new(),
            cc_flags: Vec::new(),
            ld_flags: Vec::new(),
            ar_flags: Vec::new(),
            asm_flags: Vec::new(),
            unix: UnixFlags::default_flags(),
        }
    }
}

/// Source language.
#[derive(Debug, Clone, Copy, PartialEq, Eq, Structural)]
pub enum Language {
    C,
    Cxx,
}

impl Language {
    /// Is it C?
    pub fn is_c(self) -> (r: bool)
        ensures
            r <==> self == Language::C,
    {
        matches!(self, Language::C)
    }

    /// Is it C++?
    pub fn is_cxx(self) -> (r: bool)
        ensures
            r <==> self == Language::Cxx,
    {
        matches!(self, Language::Cxx)
    }

    /// The extensions treated as C: `.c`, `.S` and `.asm`; everything
    /// else compiles as C++.
    pub open spec fn spec_detect(path: Seq<u8>) -> Language {
        if crate::paths::spec_extension(path) == Some(seq![99u8])
            || crate::paths::spec_extension(path) == Some(seq![83u8])
            || crate::paths::spec_extension(path) == Some(seq![97u8, 115u8, 109u8]) {
            Language::C
        } else {
            Language::Cxx
        }
    }

    /// Detect the language from a path.
    #[verifier::spinoff_prover]
    #[verifier::rlimit(100)]
    pub fn detect(path: &[u8]) -> (r: Language)
        ensures
            r == Language::spec_detect(path@),
    {
        match crate::paths::extension(path) {
            Some(ext) => {
                let is_c = (ext.len() == 1 && ext[0] == 99)
                    || (ext.len() == 1 && ext[0] == 83)
                    || (ext.len() == 3 && ext[0] == 97 && ext[1] == 115 && ext[2] == 109);
                proof {
                    if ext@.len() == 1 {
                        assert(ext@ =~= seq![ext@[0]]);
                    }
                    if ext@.len() == 3 {
                        assert(ext@ =~= seq![ext@[0], ext@[1], ext@[2]]);
                    }
                    if Language::spec_detect(path@) == Language::C && !is_c {
                        assert(false);
                    }
                }
                if is_c {
                    Language::C
                } else {
                    Language::Cxx
                }
            }
            None => Language::Cxx,
        }
    }
}

/// A profile: how targets are compiled.
#[derive(Debug, Clone)]
pub struct Profile {
    pub debug: bool,
    pub incremental: bool,
    pub exceptions: bool,
    pub opt_level: OptLevel,
    pub lto: Lto,
    pub dir_name: Vec<u8>,
    pub rpath: Vec<u8>,
}

impl Profile {
    /// Optimized at any level above none.
    pub fn is_optimized(&self) -> (r: bool)
        ensures
            r <==> self.opt_level != OptLevel::O0,
    {
        !matches!(self.opt_level, OptLevel::O0)
    }

    /// Incremental linking is honoured only without optimization.
    pub fn is_incremental(&self) -> (r: bool)
        ensures
            r <==> (self.incremental && self.opt_level == OptLevel::O0),
    {
        self.incremental && !self.is_optimized()
    }

    /// Link-time optimization applies only to optimized builds.
    pub fn is_lto_enabled(&self) -> (r: bool)
        ensures
            r <==> (self.opt_level != OptLevel::O0 && self.lto != Lto::Off),
    {
        self.is_optimized() && !matches!(self.lto, Lto::Off)
    }

    /// The development profile: debug, incremental, unoptimized.
    pub fn dev() -> (r: Self)
        ensures
            r.debug,
            r.incremental,
            r.exceptions,
            r.opt_level == OptLevel::O0,
            r.lto == Lto::Off,
            r.dir_name@ == seq![100u8, 101u8, 98u8, 117u8, 103u8],
            r.rpath@ == seq![36u8, 79u8, 82u8, 73u8, 71u8, 73u8, 78u8],
    {
        let mut dir_name: Vec<u8> = Vec::new();
        dir_name.push(100);
        dir_name.push(101);
        dir_name.push(98);
        dir_name.push(117);
        dir_name.push(103);
        let mut rpath: Vec<u8> = Vec::new();
        rpath.push(36);
        rpath.push(79);
        rpath.push(82);
        rpath.push(73);
        rpath.push(71);
        rpath.push(73);
        rpath.push(78);
        proof {
            assert(dir_name@ =~= seq![100u8, 101u8, 98u8, 117u8, 103u8]);
            assert(rpath@ =~= seq![36u8, 79u8, 82u8, 73u8, 71u8, 73u8, 78u8]);
        }
        Profile {
            debug: true,
            incremental: true,
            exceptions: true,
            opt_level: OptLevel::O0,
            lto: Lto::Off,
            dir_name,
            rpath,
        }
    }

    /// The release profile: optimized with fat LTO.
    pub fn release() -> (r: Self)
        ensures
            !r.debug,
            !r.incremental,
            r.exceptions,
            r.opt_level == OptLevel::O3,
            r.lto == Lto::Fat,
            r.dir_name@ == seq![114u8, 101u8, 108u8, 101u8, 97u8, 115u8, 101u8],
            r.rpath@ == seq![36u8, 79u8, 82u8, 73u8, 71u8, 73u8, 78u8],
    {
        let mut dir_name: Vec<u8> = Vec::new();
        dir_name.push(114);
        dir_name.push(101);
        dir_name.push(108);
        dir_name.push(101);
        dir_name.push(97);
        dir_name.push(115);
        dir_name.push(101);
        let mut rpath: Vec<u8> = Vec::new();
        rpath.push(36);
        rpath.push(79);
        rpath.push(82);
        rpath.push(73);
        rpath.push(71);
        rpath.push(73);
        rpath.push(78);
        proof {
            assert(dir_name@ =~= seq![114u8, 101u8, 108u8, 101u8, 97u8, 115u8, 101u8]);
            assert(rpath@ =~= seq![36u8, 79u8, 82u8, 73u8, 71u8, 73u8, 78u8]);
        }
        Profile {
            debug: false,
            incremental: false,
            exceptions: true,
            opt_level: OptLevel::O3,
            lto: Lto::Fat,
            dir_name,
            rpath,
        }
    }
}

} // verus!
