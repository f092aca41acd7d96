//! Namespaced target names: `package::target`.

use vstd::prelude::*;
use crate::bytes::{find_first, is_match_at, spec_find, sub_vec};
use crate::error::{Error, ErrorKind};

verus! {

/// The `::` separator.
pub open spec fn spec_sep2() -> Seq<u8> {
    seq![58u8, 58u8]
}

/// A target name: a package half and a target half.
#[derive(Debug, Clone)]
pub struct TargetName {
    package: Vec<u8>,
    target: Vec<u8>,
}

impl TargetName {
    /// The package half.
    pub closed spec fn spec_package(&self) -> Seq<u8> {
        self.package@
    }

    /// The target half.
    pub closed spec fn spec_target(&self) -> Seq<u8> {
        self.target@
    }

    /// Build a name from its halves.
    pub fn new(package: Vec<u8>, target: Vec<u8>) -> (r: Self)
        ensures
            r.spec_package() == package@,
            r.spec_target() == target@,
    {
        TargetName { package, target }
    }

    /// The package half.
    pub fn package(&self) -> (r: &Vec<u8>)
        ensures
            r@ == self.spec_package(),
    {
        &self.package
    }

    /// The target half.
    pub fn target(&self) -> (r: &Vec<u8>)
        ensures
            r@ == self.spec_target(),
    {
        &self.target
    }

    /// `package::target`, as one byte string.
    pub fn render(&self) -> (r: Vec<u8>)
        ensures
            r@ == self.spec_package() + spec_sep2() + self.spec_target(),
    {
        let mut out = sub_vec(self.package.as_slice(), 0, self.package.len());
        out.push(58);
        out.push(58);
        crate::bytes::push_all(&mut out, self.target.as_slice());
        proof {
            assert(out@ =~= self.spec_package() + spec_sep2() + self.spec_target());
        }
        out
    }

    /// Parse `package::target`.  The split happens at the first `::`;
    /// both halves must be nonempty.
    pub fn from_str(s: &[u8]) -> (r: Result<TargetName, Error>)
        ensures
            match r {
                Ok(t) => {
                    &&& spec_find(s@, spec_sep2()) is Some
                    &&& {
                        let i = spec_find(s@, spec_sep2()).unwrap();
                        &&& 0 < i < s@.len() - 2
                        &&& t.spec_package() == s@.take(i)
                        &&& t.spec_target() == s@.skip(i + 2)
                    }
                }
                Err(e) => {
                    e.spec_kind() == ErrorKind::InvalidArgument
                    && (spec_find(s@, spec_sep2()) is None
                        || !(0 < spec_find(s@, spec_sep2()).unwrap() < s@.len() - 2))
                }
            },
    {
        let n = s.len();
        let mut sep: Vec<u8> = Vec::new();
        sep.push(58);
        sep.push(58);
        proof {
            assert(sep@ =~= spec_sep2());
        }
        match find_first(s, sep.as_slice()) {
            Some(i) if 0 < i && i + 2 < n => {
                proof {
                    assert(i < s@.len() - 2);
                }
                Ok(TargetName {
                    package: sub_vec(s, 0, i),
                    target: sub_vec(s, i + 2, n),
                })
            }
            _ => Err(Error::invalid_arg(Vec::new())),
        }
    }
}

} // verus!
