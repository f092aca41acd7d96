//! The manifest data model, after parsing.
//!
//! The manifest file itself is read and deserialized outside; these
//! are the parsed shapes and their conversion into the real model:
//! paths become absolute, visibilities are applied, and shared
//! libraries gain their `_SHARED`/`_EXPORTS` defines.

use vstd::prelude::*;
use crate::bytes::push_all;
use crate::layout::PublicPrivate;
use crate::options::{Crt, Options, Std, StdC, StdCxx, UnixFlags, WarningLevel, Warnings};
use crate::paths::abs;
use crate::target_name::TargetName;
use crate::unit::{Program, Step, Target, TargetKind};

verus! {

/// A manifest string-or-bool field.
#[derive(Debug, Clone)]
pub enum StringOrBool {
    Text(Vec<u8>),
    Flag(bool),
}

/// The `options` table of a manifest entry.
#[derive(Debug, Clone)]
pub struct TomlOptions {
    pub std_c: Option<StdC>,
    pub std_cxx: Option<StdCxx>,
    pub cxx_stdlib: Option<Vec<u8>>,
    pub gnu: Option<bool>,
    pub warning_level: Option<WarningLevel>,
    pub warning_errors: Option<bool>,
    pub warning_extra: Option<Vec<Vec<u8>>>,
    pub static_crt: Option<bool>,
    pub cc_flags: Option<Vec<Vec<u8>>>,
    pub ld_flags: Option<Vec<Vec<u8>>>,
    pub ar_flags: Option<Vec<Vec<u8>>>,
    pub asm_flags: Option<Vec<Vec<u8>>>,
    pub pic: Option<bool>,
    pub plt: Option<bool>,
    pub force_frame_pointer: Option<bool>,
}

impl TomlOptions {
    /// Fill in real options: explicit CRT choices win, and otherwise a
    /// shared library defaults to the shared CRT; absent fields keep
    /// the defaults.
    pub fn to_real(&self, kind: TargetKind) -> (r: Options)
        ensures
            self.static_crt == Some(true) ==> r.crt == Crt::Static,
            self.static_crt == Some(false) ==> r.crt == Crt::Shared,
            (self.static_crt is None && kind == TargetKind::Shared) ==> r.crt == Crt::Shared,
            (self.static_crt is None && kind != TargetKind::Shared) ==> r.crt == Crt::Default,
            self.std_c == Some(StdC::C99) ==> r.std.c == StdC::C99,
            self.std_c is None ==> r.std.c == StdC::C11,
            self.warning_level == Some(WarningLevel::All)
                ==> r.warnings.level == WarningLevel::All,
            self.warning_level is None ==> r.warnings.level == WarningLevel::Default,
    {
        let mut opts = Options::new_default();
        match self.static_crt {
            Some(true) => {
                opts.crt = Crt::Static;
            }
            Some(false) => {
                opts.crt = Crt::Shared;
            }
            None => {
                if matches!(kind, TargetKind::Shared) {
                    opts.crt = Crt::Shared;
                }
            }
        }
        match &self.cc_flags {
            Some(v) => {
                opts.cc_flags = clone_list(v);
            }
            None => {}
        }
        match &self.ld_flags {
            Some(v) => {
                opts.ld_flags = clone_list(v);
            }
            None => {}
        }
        match &self.ar_flags {
            Some(v) => {
                opts.ar_flags = clone_list(v);
            }
            None => {}
        }
        match &self.asm_flags {
            Some(v) => {
                opts.asm_flags = clone_list(v);
            }
            None => {}
        }
        opts.std = Std {
            c: match self.std_c {
                Some(c) => c,
                None => StdC::C11,
            },
            cxx: match self.std_cxx {
                Some(c) => c,
                None => StdCxx::Cxx17,
            },
            cxx_stdlib: match &self.cxx_stdlib {
                Some(l) => Some(crate::bytes::sub_vec(l.as_slice(), 0, l.len())),
                None => None,
            },
            gnu: match self.gnu {
                Some(g) => g,
                None => false,
            },
        };
        opts.warnings = Warnings {
            level: match self.warning_level {
                Some(l) => l,
                None => WarningLevel::Default,
            },
            errors: match self.warning_errors {
                Some(e) => e,
                None => false,
            },
            extra: match &self.warning_extra {
                Some(v) => clone_list(v),
                None => Vec::new(),
            },
        };
        let d = UnixFlags::default_flags();
        opts.unix = UnixFlags {
            pic: match self.pic {
                Some(p) => p,
                None => d.pic,
            },
            plt: match self.plt {
                Some(p) => p,
                None => d.plt,
            },
            force_frame_pointer: match self.force_frame_pointer {
                Some(p) => p,
                None => d.force_frame_pointer,
            },
        };
        opts
    }
}

/// Copy a list of byte strings.
pub fn clone_list(v: &Vec<Vec<u8>>) -> (r: Vec<Vec<u8>>)
    ensures
        r@.map_values(|x: Vec<u8>| x@) == v@.map_values(|x: Vec<u8>| x@),
{
    let mut out: Vec<Vec<u8>> = Vec::new();
    let n = v.len();
    let mut i: usize = 0;
    while i < n
        invariant
            0 <= i <= n,
            n == v@.len(),
            out@.len() == i,
            forall|j: int| 0 <= j < i ==> (#[trigger] out@[j])@ == v@[j]@,
        decreases n - i,
    {
        let item = crate::bytes::sub_vec(v[i].as_slice(), 0, v[i].len());
        proof {
            assert(item@ =~= v@[i as int]@);
        }
        out.push(item);
        i = i + 1;
    }
    proof {
        assert(out@.map_values(|x: Vec<u8>| x@) =~~= v@.map_values(|x: Vec<u8>| x@));
    }
    out
}

/// A target section of a manifest.
#[derive(Debug, Clone)]
pub struct TomlTarget {
    pub name: Vec<u8>,
    pub sources: Vec<Vec<u8>>,
    pub define_public: Vec<Vec<u8>>,
    pub define_private: Vec<Vec<u8>>,
    pub include_public: Vec<Vec<u8>>,
    pub include_private: Vec<Vec<u8>>,
    pub depends_public: Vec<TargetName>,
    pub depends_private: Vec<TargetName>,
    pub options: Option<TomlOptions>,
    pub export_header: Option<Vec<u8>>,
    pub shared: Option<bool>,
    pub runtime: Option<StringOrBool>,
    pub is_bin: bool,
}

/// `_SHARED`
pub open spec fn spec_shared_suffix() -> Seq<u8> {
    seq![95u8, 83u8, 72u8, 65u8, 82u8, 69u8, 68u8]
}

/// `_EXPORTS`
pub open spec fn spec_exports_suffix() -> Seq<u8> {
    seq![95u8, 69u8, 88u8, 80u8, 79u8, 82u8, 84u8, 83u8]
}

impl TomlTarget {
    /// The target kind this section describes: `[[bin]]` sections are
    /// executables; libraries are shared when `shared` or any
    /// `runtime` setting says so, static otherwise.
    pub open spec fn spec_kind(&self) -> TargetKind {
        if self.is_bin {
            TargetKind::Bin
        } else if self.runtime is Some || self.shared == Some(true) {
            TargetKind::Shared
        } else {
            TargetKind::Static
        }
    }

    /// Convert to the real model: the kind per `spec_kind`, paths made
    /// absolute against the package root, visibilities applied, and a
    /// shared library's `_SHARED` (public) and `_EXPORTS` (private)
    /// defines appended after the declared ones.
    pub fn to_real(&self, root: &[u8], package: &[u8]) -> (r: Target)
        ensures
            r.kind == self.spec_kind(),
            r.name@ == self.name@,
            r.package@ == package@,
            r.sources@.len() == self.sources@.len(),
            forall|j: int| 0 <= j < self.sources@.len()
                ==> (#[trigger] r.sources@[j])@ == crate::paths::spec_normalize(
                    crate::paths::spec_join_path(root@, self.sources@[j]@)),
            self.spec_kind() == TargetKind::Shared
                ==> r.defines@.len() == self.define_public@.len()
                    + self.define_private@.len() + 2,
            self.spec_kind() != TargetKind::Shared
                ==> r.defines@.len() == self.define_public@.len()
                    + self.define_private@.len(),
            r.includes@.len() == self.include_public@.len() + self.include_private@.len(),
            r.depends@.len() == self.depends_public@.len() + self.depends_private@.len(),
            ({
                match &self.runtime {
                    Some(StringOrBool::Text(v)) => r.rpath matches Some(p) && p@ == v@,
                    Some(StringOrBool::Flag(true)) => r.rpath matches Some(p)
                        && p@ == seq![46u8],
                    Some(StringOrBool::Flag(false)) => r.rpath is None,
                    None => r.rpath is None,
                }
            }),
    {
        let kind = if self.is_bin {
            TargetKind::Bin
        } else if self.runtime.is_some() || matches!(self.shared, Some(true)) {
            TargetKind::Shared
        } else {
            TargetKind::Static
        };
        let options = match &self.options {
            Some(o) => o.to_real(kind),
            None => Options::new_default(),
        };
        let rpath = match &self.runtime {
            Some(StringOrBool::Text(v)) => Some(crate::bytes::sub_vec(v.as_slice(), 0, v.len())),
            Some(StringOrBool::Flag(true)) => {
                let mut dot: Vec<u8> = Vec::new();
                dot.push(46);
                proof {
                    assert(dot@ =~= seq![46u8]);
                }
                Some(dot)
            }
            Some(StringOrBool::Flag(false)) => None,
            None => None,
        };
        let export_header = match &self.export_header {
            Some(v) => Some(abs(v.as_slice(), root)),
            None => None,
        };
        let mut sources: Vec<Vec<u8>> = Vec::new();
        let ns = self.sources.len();
        let mut i: usize = 0;
        while i < ns
            invariant
                0 <= i <= ns,
                ns == self.sources@.len(),
                sources@.len() == i,
                forall|j: int| 0 <= j < i
                    ==> (#[trigger] sources@[j])@ == crate::paths::spec_normalize(
                        crate::paths::spec_join_path(root@, self.sources@[j]@)),
            decreases ns - i,
        {
            sources.push(abs(self.sources[i].as_slice(), root));
            i = i + 1;
        }
        let mut includes: Vec<PublicPrivate<Vec<u8>>> = Vec::new();
        let nip = self.include_public.len();
        let mut i2: usize = 0;
        while i2 < nip
            invariant
                0 <= i2 <= nip,
                nip == self.include_public@.len(),
                includes@.len() == i2,
            decreases nip - i2,
        {
            includes.push(PublicPrivate::public(abs(self.include_public[i2].as_slice(), root)));
            i2 = i2 + 1;
        }
        let niq = self.include_private.len();
        let mut i3: usize = 0;
        while i3 < niq
            invariant
                0 <= i3 <= niq,
                niq == self.include_private@.len(),
                includes@.len() == nip + i3,
                nip == self.include_public@.len(),
            decreases niq - i3,
        {
            includes.push(PublicPrivate::private(abs(self.include_private[i3].as_slice(), root)));
            i3 = i3 + 1;
        }
        let mut defines: Vec<PublicPrivate<Vec<u8>>> = Vec::new();
        let ndp = self.define_public.len();
        let mut i4: usize = 0;
        while i4 < ndp
            invariant
                0 <= i4 <= ndp,
                ndp == self.define_public@.len(),
                defines@.len() == i4,
            decreases ndp - i4,
        {
            let d = crate::bytes::sub_vec(
                self.define_public[i4].as_slice(), 0, self.define_public[i4].len());
            defines.push(PublicPrivate::public(d));
            i4 = i4 + 1;
        }
        let ndq = self.define_private.len();
        let mut i5: usize = 0;
        while i5 < ndq
            invariant
                0 <= i5 <= ndq,
                ndq == self.define_private@.len(),
                defines@.len() == ndp + i5,
                ndp == self.define_public@.len(),
            decreases ndq - i5,
        {
            let d = crate::bytes::sub_vec(
                self.define_private[i5].as_slice(), 0, self.define_private[i5].len());
            defines.push(PublicPrivate::private(d));
            i5 = i5 + 1;
        }
        if matches!(kind, TargetKind::Shared) {
            let mut shared_def = crate::bytes::sub_vec(self.name.as_slice(), 0, self.name.len());
            shared_def.push(95);
            shared_def.push(83);
            shared_def.push(72);
            shared_def.push(65);
            shared_def.push(82);
            shared_def.push(69);
            shared_def.push(68);
            defines.push(PublicPrivate::public(shared_def));
            let mut exports_def = crate::bytes::sub_vec(self.name.as_slice(), 0, self.name.len());
            exports_def.push(95);
            exports_def.push(69);
            exports_def.push(88);
            exports_def.push(80);
            exports_def.push(79);
            exports_def.push(82);
            exports_def.push(84);
            exports_def.push(83);
            defines.push(PublicPrivate::private(exports_def));
        }
        let mut depends: Vec<PublicPrivate<TargetName>> = Vec::new();
        let ndep = self.depends_public.len();
        let mut i6: usize = 0;
        while i6 < ndep
            invariant
                0 <= i6 <= ndep,
                ndep == self.depends_public@.len(),
                depends@.len() == i6,
            decreases ndep - i6,
        {
            let d = &self.depends_public[i6];
            depends.push(PublicPrivate::public(TargetName::new(
                crate::bytes::sub_vec(d.package().as_slice(), 0, d.package().len()),
                crate::bytes::sub_vec(d.target().as_slice(), 0, d.target().len()),
            )));
            i6 = i6 + 1;
        }
        let ndeq = self.depends_private.len();
        let mut i7: usize = 0;
        while i7 < ndeq
            invariant
                0 <= i7 <= ndeq,
                ndeq == self.depends_private@.len(),
                depends@.len() == ndep + i7,
                ndep == self.depends_public@.len(),
            decreases ndeq - i7,
        {
            let d = &self.depends_private[i7];
            depends.push(PublicPrivate::private(TargetName::new(
                crate::bytes::sub_vec(d.package().as_slice(), 0, d.package().len()),
                crate::bytes::sub_vec(d.target().as_slice(), 0, d.target().len()),
            )));
            i7 = i7 + 1;
        }
        Target {
            name: crate::bytes::sub_vec(self.name.as_slice(), 0, self.name.len()),
            package: crate::bytes::sub_vec(package, 0, package.len()),
            kind,
            sources,
            options,
            depends,
            includes,
            defines,
            rpath,
            export_header,
        }
    }
}

/// A step section of a manifest.
#[derive(Debug, Clone)]
pub struct TomlStep {
    pub name: Vec<u8>,
    pub command: Vec<u8>,
    pub inputs: Vec<Vec<u8>>,
    pub outputs: Vec<Vec<u8>>,
    pub depends: Vec<TargetName>,
}

impl TomlStep {
    /// Convert to the real model: inputs and outputs become absolute
    /// and the command word splits off its arguments on spaces.
    pub fn to_real(&self, root: &[u8], package: &[u8]) -> (r: Step)
        ensures
            r.name@ == self.name@,
            r.package@ == package@,
            r.inputs@.len() == self.inputs@.len(),
            r.outputs@.len() == self.outputs@.len(),
            forall|j: int| 0 <= j < self.inputs@.len()
                ==> (#[trigger] r.inputs@[j])@ == crate::paths::spec_normalize(
                    crate::paths::spec_join_path(root@, self.inputs@[j]@)),
            forall|j: int| 0 <= j < self.outputs@.len()
                ==> (#[trigger] r.outputs@[j])@ == crate::paths::spec_normalize(
                    crate::paths::spec_join_path(root@, self.outputs@[j]@)),
    {
        let mut inputs: Vec<Vec<u8>> = Vec::new();
        let ni = self.inputs.len();
        let mut i: usize = 0;
        while i < ni
            invariant
                0 <= i <= ni,
                ni == self.inputs@.len(),
                inputs@.len() == i,
                forall|j: int| 0 <= j < i
                    ==> (#[trigger] inputs@[j])@ == crate::paths::spec_normalize(
                        crate::paths::spec_join_path(root@, self.inputs@[j]@)),
            decreases ni - i,
        {
            inputs.push(abs(self.inputs[i].as_slice(), root));
            i = i + 1;
        }
        let mut outputs: Vec<Vec<u8>> = Vec::new();
        let no = self.outputs.len();
        let mut k: usize = 0;
        while k < no
            invariant
                0 <= k <= no,
                no == self.outputs@.len(),
                outputs@.len() == k,
                forall|j: int| 0 <= j < k
                    ==> (#[trigger] outputs@[j])@ == crate::paths::spec_normalize(
                        crate::paths::spec_join_path(root@, self.outputs@[j]@)),
            decreases no - k,
        {
            outputs.push(abs(self.outputs[k].as_slice(), root));
            k = k + 1;
        }
        let mut depends: Vec<TargetName> = Vec::new();
        let nd = self.depends.len();
        let mut t: usize = 0;
        while t < nd
            invariant
                0 <= t <= nd,
                nd == self.depends@.len(),
            decreases nd - t,
        {
            let d = &self.depends[t];
            depends.push(TargetName::new(
                crate::bytes::sub_vec(d.package().as_slice(), 0, d.package().len()),
                crate::bytes::sub_vec(d.target().as_slice(), 0, d.target().len()),
            ));
            t = t + 1;
        }
        let (program, args) = parse_program(self.command.as_slice());
        Step {
            name: crate::bytes::sub_vec(self.name.as_slice(), 0, self.name.len()),
            package: crate::bytes::sub_vec(package, 0, package.len()),
            inputs,
            outputs,
            depends,
            program,
            args,
        }
    }
}

/// Split a command on spaces: the first word names the program,
/// everything after comes through as arguments.
pub fn parse_program(command: &[u8]) -> (r: (Program, Vec<Vec<u8>>))
{
    let n = command.len();
    match crate::bytes::find_byte_first(command, 32) {
        Some(sp) => {
            let word = crate::bytes::sub_vec(command, 0, sp);
            // split the rest on single spaces, empty pieces included
            let mut args: Vec<Vec<u8>> = Vec::new();
            let mut cur: Vec<u8> = Vec::new();
            let mut i: usize = sp + 1;
            while i < n
                invariant
                    sp < i <= n || i == sp + 1,
                    n == command@.len(),
                decreases n - i,
            {
                if command[i] == 32 {
                    args.push(cur);
                    cur = Vec::new();
                } else {
                    cur.push(command[i]);
                }
                i = i + 1;
            }
            args.push(cur);
            (Program::from_command(word.as_slice()), args)
        }
        None => (Program::from_command(command), Vec::new()),
    }
}

/// A dependency entry: the package name with a path to its source.
#[derive(Debug, Clone)]
pub struct TomlDependency {
    pub name: Vec<u8>,
    pub path: Vec<u8>,
}

/// The resolved form: name plus absolute source path.
#[derive(Debug, Clone)]
pub struct Dependency {
    pub name: Vec<u8>,
    pub source_path: Vec<u8>,
}

impl TomlDependency {
    /// Resolve the dependency's path against the manifest's directory.
    pub fn to_real(&self, root: &[u8]) -> (r: Dependency)
        ensures
            r.name@ == self.name@,
            r.source_path@ == crate::paths::spec_normalize(
                crate::paths::spec_join_path(root@, self.path@)),
    {
        Dependency {
            name: crate::bytes::sub_vec(self.name.as_slice(), 0, self.name.len()),
            source_path: abs(self.path.as_slice(), root),
        }
    }
}

} // verus!
