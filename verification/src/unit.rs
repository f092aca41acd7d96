//! The unit model: targets and steps, unified for scheduling.

use vstd::prelude::*;
use crate::bytes::{starts_with, starts_with_spec, sub_vec, spec_find, find_first};
use crate::options::Options;
use crate::target_name::TargetName;

verus! {

/// What a target compiles into.
#[derive(Debug, Clone, Copy, PartialEq, Eq, Structural)]
pub enum TargetKind {
    Static,
    Shared,
    Bin,
    Test,
    Bench,
    Example,
}

/// The binary artifact type a target kind produces.
#[derive(Debug, Clone, Copy, PartialEq, Eq, Structural)]
pub enum BinType {
    Static,
    Shared,
    Exe,
}

/// The output extension by binary type and target platform.
pub open spec fn spec_bin_ext(bt: BinType, target: Seq<u8>) -> Seq<u8> {
    let windows = spec_find(target,
        seq![119u8, 105u8, 110u8, 100u8, 111u8, 119u8, 115u8]) is Some;
    let apple = spec_find(target, seq![97u8, 112u8, 112u8, 108u8, 101u8]) is Some;
    if windows {
        match bt {
            BinType::Static => seq![108u8, 105u8, 98u8],
            BinType::Shared => seq![100u8, 108u8, 108u8],
            BinType::Exe => seq![101u8, 120u8, 101u8],
        }
    } else {
        match bt {
            BinType::Static => seq![97u8],
            BinType::Shared => if apple {
                seq![100u8, 121u8, 108u8, 105u8, 98u8]
            } else {
                seq![115u8, 111u8]
            },
            BinType::Exe => Seq::<u8>::empty(),
        }
    }
}

impl BinType {
    /// Shared library?
    pub fn is_shared(self) -> (r: bool)
        ensures
            r <==> self == BinType::Shared,
    {
        matches!(self, BinType::Shared)
    }

    /// Static library?
    pub fn is_static(self) -> (r: bool)
        ensures
            r <==> self == BinType::Static,
    {
        matches!(self, BinType::Static)
    }

    /// Any kind of library?
    pub fn is_library(self) -> (r: bool)
        ensures
            r <==> self != BinType::Exe,
    {
        !matches!(self, BinType::Exe)
    }

    /// Executables come from binaries, tests, benches and examples;
    /// libraries keep their own kind.
    pub fn from_kind(kind: TargetKind) -> (r: BinType)
        ensures
            kind == TargetKind::Static ==> r == BinType::Static,
            kind == TargetKind::Shared ==> r == BinType::Shared,
            (kind != TargetKind::Static && kind != TargetKind::Shared) ==> r == BinType::Exe,
    {
        match kind {
            TargetKind::Static => BinType::Static,
            TargetKind::Shared => BinType::Shared,
            _ => BinType::Exe,
        }
    }

    /// The output extension by target platform: `lib`/`dll`/`exe` on
    /// Windows, `a`/`dylib` on Apple, `a`/`so` elsewhere, and no
    /// extension for unix executables.
    pub fn ext(self, target: &[u8]) -> (r: Vec<u8>)
        ensures
            r@ == spec_bin_ext(self, target@),
    {
        let mut win: Vec<u8> = Vec::new();
        win.push(119);
        win.push(105);
        win.push(110);
        win.push(100);
        win.push(111);
        win.push(119);
        win.push(115);
        proof {
            assert(win@ =~= seq![119u8, 105u8, 110u8, 100u8, 111u8, 119u8, 115u8]);
        }
        let mut apl: Vec<u8> = Vec::new();
        apl.push(97);
        apl.push(112);
        apl.push(112);
        apl.push(108);
        apl.push(101);
        proof {
            assert(apl@ =~= seq![97u8, 112u8, 112u8, 108u8, 101u8]);
        }
        let windows = find_first(target, win.as_slice()).is_some();
        let apple = find_first(target, apl.as_slice()).is_some();
        let mut out: Vec<u8> = Vec::new();
        if windows {
            match self {
                BinType::Static => {
                    out.push(108);
                    out.push(105);
                    out.push(98);
                    proof {
                        assert(out@ =~= seq![108u8, 105u8, 98u8]);
                    }
                }
                BinType::Shared => {
                    out.push(100);
                    out.push(108);
                    out.push(108);
                    proof {
                        assert(out@ =~= seq![100u8, 108u8, 108u8]);
                    }
                }
                BinType::Exe => {
                    out.push(101);
                    out.push(120);
                    out.push(101);
                    proof {
                        assert(out@ =~= seq![101u8, 120u8, 101u8]);
                    }
                }
            }
        } else {
            match self {
                BinType::Static => {
                    out.push(97);
                    proof {
                        assert(out@ =~= seq![97u8]);
                    }
                }
                BinType::Shared => {
                    if apple {
                        out.push(100);
                        out.push(121);
                        out.push(108);
                        out.push(105);
                        out.push(98);
                        proof {
                            assert(out@ =~= seq![100u8, 121u8, 108u8, 105u8, 98u8]);
                        }
                    } else {
                        out.push(115);
                        out.push(111);
                        proof {
                            assert(out@ =~= seq![115u8, 111u8]);
                        }
                    }
                }
                BinType::Exe => {}
            }
        }
        out
    }
}

/// What runs a build step: a plain binary, a target built by this
/// workspace, or a script under an interpreter.
#[derive(Debug, Clone)]
pub enum Program {
    Binary(Vec<u8>),
    Target(TargetName),
    Script { tool: Vec<u8>, script: Vec<u8> },
}

impl Program {
    /// Classify a command word: a `pkg::target` name runs that target;
    /// `.py`, `.sh`, `.bat` and `.ps1` files run under their usual
    /// interpreters; anything else is a binary path.
    pub fn from_command(command: &[u8]) -> (r: Program)
    {
        match TargetName::from_str(command) {
            Ok(name) => Program::Target(name),
            Err(_) => {
                let script = sub_vec(command, 0, command.len());
                match crate::paths::extension(command) {
                    Some(ext) => {
                        if ext.len() == 2 && ext[0] == 112 && ext[1] == 121 {
                            // .py
                            let mut tool: Vec<u8> = Vec::new();
                            tool.push(112);
                            tool.push(121);
                            tool.push(116);
                            tool.push(104);
                            tool.push(111);
                            tool.push(110);
                            Program::Script { tool, script }
                        } else if ext.len() == 2 && ext[0] == 115 && ext[1] == 104 {
                            // .sh
                            let mut tool: Vec<u8> = Vec::new();
                            tool.push(115);
                            tool.push(104);
                            Program::Script { tool, script }
                        } else if ext.len() == 3 && ext[0] == 98 && ext[1] == 97
                            && ext[2] == 116 {
                            // .bat
                            let mut tool: Vec<u8> = Vec::new();
                            tool.push(99);
                            tool.push(109);
                            tool.push(100);
                            tool.push(46);
                            tool.push(101);
                            tool.push(120);
                            tool.push(101);
                            Program::Script { tool, script }
                        } else if ext.len() == 3 && ext[0] == 112 && ext[1] == 115
                            && ext[2] == 49 {
                            // .ps1
                            let mut tool: Vec<u8> = Vec::new();
                            tool.push(112);
                            tool.push(111);
                            tool.push(119);
                            tool.push(101);
                            tool.push(114);
                            tool.push(115);
                            tool.push(104);
                            tool.push(101);
                            tool.push(108);
                            tool.push(108);
                            tool.push(46);
                            tool.push(101);
                            tool.push(120);
                            tool.push(101);
                            Program::Script { tool, script }
                        } else {
                            Program::Binary(script)
                        }
                    }
                    None => Program::Binary(script),
                }
            }
        }
    }
}

/// A named build step with declared inputs and outputs.
#[derive(Debug, Clone)]
pub struct Step {
    pub name: Vec<u8>,
    pub package: Vec<u8>,
    pub inputs: Vec<Vec<u8>>,
    pub outputs: Vec<Vec<u8>>,
    pub depends: Vec<TargetName>,
    pub program: Program,
    pub args: Vec<Vec<u8>>,
}

/// A named compilable target.
#[derive(Debug, Clone)]
pub struct Target {
    pub name: Vec<u8>,
    pub package: Vec<u8>,
    pub kind: TargetKind,
    pub sources: Vec<Vec<u8>>,
    pub options: Options,
    pub depends: Vec<crate::layout::PublicPrivate<TargetName>>,
    pub includes: Vec<crate::layout::PublicPrivate<Vec<u8>>>,
    pub defines: Vec<crate::layout::PublicPrivate<Vec<u8>>>,
    pub rpath: Option<Vec<u8>>,
    pub export_header: Option<Vec<u8>>,
}

/// What a step printed on one stdout line.
#[derive(Debug, Clone)]
pub enum StepDirective {
    /// `ccargo:rerun-if-changed:<path>`: track the path.
    RerunIfChanged(Vec<u8>),
    /// Any other `ccargo:` line is a protocol error.
    Invalid,
    /// An ordinary output line, forwarded verbatim.
    Raw(Vec<u8>),
}

/// `ccargo:`
pub open spec fn spec_step_prefix() -> Seq<u8> {
    seq![99u8, 99u8, 97u8, 114u8, 103u8, 111u8, 58u8]
}

/// `rerun-if-changed:`
pub open spec fn spec_rerun_prefix() -> Seq<u8> {
    seq![114u8, 101u8, 114u8, 117u8, 110u8, 45u8, 105u8, 102u8, 45u8,
        99u8, 104u8, 97u8, 110u8, 103u8, 101u8, 100u8, 58u8]
}

/// Classify one line of a step's stdout: `ccargo:rerun-if-changed:`
/// carries a path, other `ccargo:` lines are errors, everything else
/// is raw output.
pub fn parse_step_line(line: &[u8]) -> (r: StepDirective)
    ensures
        !starts_with_spec(line@, spec_step_prefix())
            ==> (r matches StepDirective::Raw(l) && l@ == line@),
        (starts_with_spec(line@, spec_step_prefix())
            && starts_with_spec(line@.skip(spec_step_prefix().len() as int),
                spec_rerun_prefix()))
            ==> (r matches StepDirective::RerunIfChanged(p)
                && p@ == line@.skip(
                    spec_step_prefix().len() + spec_rerun_prefix().len() as int)),
        (starts_with_spec(line@, spec_step_prefix())
            && !starts_with_spec(line@.skip(spec_step_prefix().len() as int),
                spec_rerun_prefix()))
            ==> r matches StepDirective::Invalid,
{
    let mut pre: Vec<u8> = Vec::new();
    pre.push(99);
    pre.push(99);
    pre.push(97);
    pre.push(114);
    pre.push(103);
    pre.push(111);
    pre.push(58);
    proof {
        assert(pre@ =~= spec_step_prefix());
    }
    if !starts_with(line, pre.as_slice()) {
        return StepDirective::Raw(sub_vec(line, 0, line.len()));
    }
    let rest = sub_vec(line, pre.len(), line.len());
    proof {
        assert(rest@ =~= line@.skip(spec_step_prefix().len() as int));
    }
    let mut rr: Vec<u8> = Vec::new();
    rr.push(114);
    rr.push(101);
    rr.push(114);
    rr.push(117);
    rr.push(110);
    rr.push(45);
    rr.push(105);
    rr.push(102);
    rr.push(45);
    rr.push(99);
    rr.push(104);
    rr.push(97);
    rr.push(110);
    rr.push(103);
    rr.push(101);
    rr.push(100);
    rr.push(58);
    proof {
        assert(rr@ =~= spec_rerun_prefix());
    }
    if starts_with(rest.as_slice(), rr.as_slice()) {
        let p = sub_vec(rest.as_slice(), rr.len(), rest.len());
        proof {
            assert(p@ =~= line@.skip(
                spec_step_prefix().len() + spec_rerun_prefix().len() as int));
        }
        StepDirective::RerunIfChanged(p)
    } else {
        StepDirective::Invalid
    }
}

} // verus!
