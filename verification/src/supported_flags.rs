//! Cache of compiler flags known to be supported, stored as stable
//! hashes.

use vstd::prelude::*;
use crate::hashing::{hash_u64, spec_hash};
use crate::serde_bin::{BinaryReader, BinaryWriter, spec_le64};

verus! {

/// A set of flag hashes for one tool.
#[derive(Debug, Clone)]
pub struct SupportedFlags {
    hashes: Vec<u64>,
}

impl SupportedFlags {
    /// The stored hashes.
    pub closed spec fn spec_hashes(&self) -> Seq<u64> {
        self.hashes@
    }

    /// An empty set.
    pub fn new() -> (r: Self)
        ensures
            r.spec_hashes().len() == 0,
    {
        SupportedFlags { hashes: Vec::new() }
    }

    /// Is the flag's hash recorded?
    pub fn contains(&self, flag: &[u8]) -> (r: bool)
        ensures
            r <==> self.spec_hashes().contains(spec_hash(flag@)),
    {
        let h = hash_u64(flag);
        let n = self.hashes.len();
        let mut i: usize = 0;
        while i < n
            invariant
                0 <= i <= n,
                n == self.spec_hashes().len(),
                h == spec_hash(flag@),
                forall|j: int| 0 <= j < i ==> self.spec_hashes()[j] != h,
            decreases n - i,
        {
            if self.hashes[i] == h {
                proof {
                    assert(self.spec_hashes().contains(h));
                }
                return true;
            }
            i = i + 1;
        }
        proof {
            if self.spec_hashes().contains(h) {
                let j = choose|j: int| 0 <= j < self.spec_hashes().len()
                    && self.spec_hashes()[j] == h;
            }
        }
        false
    }

    /// Record a flag's hash, once.
    pub fn insert(&mut self, flag: &[u8])
        ensures
            final(self).spec_hashes().contains(spec_hash(flag@)),
            forall|h: u64| #[trigger] final(self).spec_hashes().contains(h)
                ==> old(self).spec_hashes().contains(h) || h == spec_hash(flag@),
    {
        if !self.contains(flag) {
            let h = hash_u64(flag);
            self.hashes.push(h);
            proof {
                assert(self.spec_hashes().last() == spec_hash(flag@));
                assert(self.spec_hashes().contains(spec_hash(flag@)));
                assert forall|h2: u64| #[trigger] self.spec_hashes().contains(h2)
                    implies old(self).spec_hashes().contains(h2) || h2 == spec_hash(flag@) by {
                    let j = choose|j: int| 0 <= j < self.spec_hashes().len()
                        && self.spec_hashes()[j] == h2;
                    if j < old(self).spec_hashes().len() {
                        assert(old(self).spec_hashes()[j] == h2);
                        assert(old(self).spec_hashes().contains(h2));
                    }
                }
            }
        }
    }

    /// Write the set: a count, then each hash.
    pub fn serialize(&self, w: &mut BinaryWriter)
        requires
            self.spec_hashes().len() <= u64::MAX,
        ensures
            final(w)@ == old(w)@ + spec_le64(self.spec_hashes().len() as u64)
                + spec_hash_bytes(self.spec_hashes()),
    {
        let n = self.hashes.len();
        w.write_u64(n as u64);
        let mut i: usize = 0;
        proof {
            assert(w@ =~= old(w)@ + spec_le64(self.spec_hashes().len() as u64)
                + spec_hash_bytes(self.spec_hashes().take(0)));
        }
        while i < n
            invariant
                0 <= i <= n,
                n == self.spec_hashes().len(),
                w@ == old(w)@ + spec_le64(self.spec_hashes().len() as u64)
                    + spec_hash_bytes(self.spec_hashes().take(i as int)),
            decreases n - i,
        {
            w.write_u64(self.hashes[i]);
            proof {
                let t = self.spec_hashes().take(i + 1);
                assert(t.drop_last() =~= self.spec_hashes().take(i as int));
                assert(t.last() == self.spec_hashes()[i as int]);
                assert(w@ =~= old(w)@ + spec_le64(self.spec_hashes().len() as u64)
                    + spec_hash_bytes(t));
            }
            i = i + 1;
        }
        proof {
            assert(self.spec_hashes().take(n as int) =~= self.spec_hashes());
        }
    }

    /// Read a set back: the count, then that many hashes.
    pub fn deserialize(r: &mut BinaryReader) -> (res: Option<SupportedFlags>)
        requires
            old(r).wf(),
        ensures
            final(r).wf(),
    {
        let n = match r.read_u64() {
            Some(n) => n,
            None => {
                return None;
            }
        };
        if n > usize::MAX as u64 {
            return None;
        }
        let n = n as usize;
        let mut hashes: Vec<u64> = Vec::new();
        let mut i: usize = 0;
        while i < n
            invariant
                r.wf(),
            decreases n - i,
        {
            match r.read_u64() {
                Some(h) => {
                    hashes.push(h);
                }
                None => {
                    return None;
                }
            }
            i = i + 1;
        }
        Some(SupportedFlags { hashes })
    }
}

/// The serialized form of a list of hashes.
pub open spec fn spec_hash_bytes(hs: Seq<u64>) -> Seq<u8>
    decreases hs.len(),
{
    if hs.len() == 0 {
        Seq::<u8>::empty()
    } else {
        spec_hash_bytes(hs.drop_last()) + spec_le64(hs.last())
    }
}

} // verus!
