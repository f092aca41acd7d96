//! Where build outputs live on disk.

use vstd::prelude::*;
use crate::bytes::push_all;
use crate::paths::{join, spec_join_path};

verus! {

/// `target`
pub open spec fn spec_target_dir() -> Seq<u8> {
    seq![116u8, 97u8, 114u8, 103u8, 101u8, 116u8]
}

/// `bin`
pub open spec fn spec_bin_dir() -> Seq<u8> {
    seq![98u8, 105u8, 110u8]
}

/// `.fingerprint`
pub open spec fn spec_fingerprint_dir() -> Seq<u8> {
    seq![46u8, 102u8, 105u8, 110u8, 103u8, 101u8, 114u8, 112u8, 114u8, 105u8, 110u8, 116u8]
}

/// The on-disk layout: `<root>/target[/<triple>]/<profile-dir>` with
/// `bin/` and `.fingerprint/` inside.
#[derive(Debug, Clone)]
pub struct Layout {
    root_dir: Vec<u8>,
    target_dir: Vec<u8>,
}

impl Layout {
    /// The project root.
    pub closed spec fn spec_root(&self) -> Seq<u8> {
        self.root_dir@
    }

    /// The per-profile output directory.
    pub closed spec fn spec_target(&self) -> Seq<u8> {
        self.target_dir@
    }

    /// Lay out a build under `cwd`, optionally per cross target.
    pub fn new(cwd: &[u8], profile_dir: &[u8], target: Option<&Vec<u8>>) -> (r: Self)
        ensures
            r.spec_root() == cwd@,
            ({
                let base = spec_join_path(cwd@, spec_target_dir());
                let with_triple = match target {
                    Some(t) => spec_join_path(base, t@),
                    None => base,
                };
                r.spec_target() == spec_join_path(with_triple, profile_dir@)
            }),
    {
        let mut td: Vec<u8> = Vec::new();
        td.push(116);
        td.push(97);
        td.push(114);
        td.push(103);
        td.push(101);
        td.push(116);
        proof {
            assert(td@ =~= spec_target_dir());
        }
        let base = join(cwd, td.as_slice());
        let with_triple = match target {
            Some(t) => join(base.as_slice(), t.as_slice()),
            None => base,
        };
        let target_dir = join(with_triple.as_slice(), profile_dir);
        Layout { root_dir: crate::bytes::sub_vec(cwd, 0, cwd.len()), target_dir }
    }

    /// The project root.
    pub fn root(&self) -> (r: Vec<u8>)
        ensures
            r@ == self.spec_root(),
    {
        crate::bytes::sub_vec(self.root_dir.as_slice(), 0, self.root_dir.len())
    }

    /// The per-profile output directory.
    pub fn target(&self) -> (r: Vec<u8>)
        ensures
            r@ == self.spec_target(),
    {
        crate::bytes::sub_vec(self.target_dir.as_slice(), 0, self.target_dir.len())
    }

    /// The binaries directory, `<target>/bin`.
    pub fn bin(&self) -> (r: Vec<u8>)
        ensures
            r@ == spec_join_path(self.spec_target(), spec_bin_dir()),
    {
        let mut bd: Vec<u8> = Vec::new();
        bd.push(98);
        bd.push(105);
        bd.push(110);
        proof {
            assert(bd@ =~= spec_bin_dir());
        }
        join(self.target_dir.as_slice(), bd.as_slice())
    }

    /// The fingerprint directory, `<target>/.fingerprint`.
    pub fn fingerprint(&self) -> (r: Vec<u8>)
        ensures
            r@ == spec_join_path(self.spec_target(), spec_fingerprint_dir()),
    {
        let mut fd: Vec<u8> = Vec::new();
        fd.push(46);
        fd.push(102);
        fd.push(105);
        fd.push(110);
        fd.push(103);
        fd.push(101);
        fd.push(114);
        fd.push(112);
        fd.push(114);
        fd.push(105);
        fd.push(110);
        fd.push(116);
        proof {
            assert(fd@ =~= spec_fingerprint_dir());
        }
        join(self.target_dir.as_slice(), fd.as_slice())
    }

    /// A package's own output directory, `<target>/bin/<pkg-unique>`.
    pub fn output_dir(&self, pkg_unique: &[u8]) -> (r: Vec<u8>)
        ensures
            r@ == spec_join_path(
                spec_join_path(self.spec_target(), spec_bin_dir()),
                pkg_unique@,
            ),
    {
        let b = self.bin();
        join(b.as_slice(), pkg_unique)
    }
}

/// A value with a visibility tag that controls whether it propagates
/// to transitive dependents.
#[derive(Debug, Clone, Copy, PartialEq, Eq)]
pub struct PublicPrivate<T> {
    value: T,
    public: bool,
}

impl<T> PublicPrivate<T> {
    /// The value itself.
    pub closed spec fn spec_value(&self) -> T {
        self.value
    }

    /// Its visibility.
    pub closed spec fn spec_is_public(&self) -> bool {
        self.public
    }

    /// A value that propagates to dependents.
    pub fn public(value: T) -> (r: Self)
        ensures
            r.spec_value() == value,
            r.spec_is_public(),
    {
        PublicPrivate { value, public: true }
    }

    /// A value that applies to the owning target only.
    pub fn private(value: T) -> (r: Self)
        ensures
            r.spec_value() == value,
            !r.spec_is_public(),
    {
        PublicPrivate { value, public: false }
    }

    /// Does the value propagate?
    pub fn is_public(&self) -> (r: bool)
        ensures
            r == self.spec_is_public(),
    {
        self.public
    }

    /// Borrow the value.
    pub fn get(&self) -> (r: &T)
        ensures
            *r == self.spec_value(),
    {
        &self.value
    }
}

} // verus!
