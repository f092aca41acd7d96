//! The fingerprint engine: deciding what is stale.
//!
//! A fingerprint digests everything that influences a rebuild: the
//! toolchain identity, the target definition, the profile, the
//! transitive dependency fingerprints, the local filesystem rules and
//! the expected outputs.  Equal hashes plus an up-to-date filesystem
//! mean the unit is fresh.  The filesystem itself enters through a
//! snapshot of stamps and file contents that the caller supplies, so
//! every decision here is a pure function of its inputs.

use vstd::prelude::*;
use crate::bytes::{push_all, sub_vec};
use crate::hashing::{hash_u64, spec_hash};
use crate::paths::{join, spec_join_path, spec_is_absolute};
use crate::serde_bin::{BinaryReader, BinaryWriter, spec_le32, spec_le64, spec_framed};

verus! {

/// A file's last-modification time: seconds and nanoseconds, totally
/// ordered lexicographically.
#[derive(Debug, Clone, Copy, PartialEq, Eq, Structural)]
pub struct FileStamp {
    pub secs: i64,
    pub nanos: u32,
}

impl FileStamp {
    /// `self` is at least as new as `other`.
    pub open spec fn spec_ge(self, other: FileStamp) -> bool {
        self.secs > other.secs || (self.secs == other.secs && self.nanos >= other.nanos)
    }

    /// Compare two stamps.
    pub fn is_ge(&self, other: &FileStamp) -> (r: bool)
        ensures
            r == self.spec_ge(*other),
    {
        self.secs > other.secs || (self.secs == other.secs && self.nanos >= other.nanos)
    }
}

/// First value stored under a key, if any.
pub open spec fn spec_assoc<V>(entries: Seq<(Seq<u8>, V)>, key: Seq<u8>) -> Option<V>
    decreases entries.len(),
{
    if entries.len() == 0 {
        None
    } else if entries[0].0 == key {
        Some(entries[0].1)
    } else {
        spec_assoc(entries.skip(1), key)
    }
}

/// A snapshot of the filesystem: per-path stamps and file contents.
/// The caller collects it; everything here stays a pure function.
#[derive(Debug, Clone)]
pub struct FsSnapshot {
    pub stamps: Vec<(Vec<u8>, FileStamp)>,
    pub blobs: Vec<(Vec<u8>, Vec<u8>)>,
}

impl FsSnapshot {
    /// The stamp table, at spec level.
    pub open spec fn spec_stamps(&self) -> Seq<(Seq<u8>, FileStamp)> {
        self.stamps@.map_values(|e: (Vec<u8>, FileStamp)| (e.0@, e.1))
    }

    /// The content table, at spec level.
    pub open spec fn spec_blobs(&self) -> Seq<(Seq<u8>, Seq<u8>)> {
        self.blobs@.map_values(|e: (Vec<u8>, Vec<u8>)| (e.0@, e.1@))
    }

    /// An empty snapshot.
    pub fn new() -> (r: Self)
        ensures
            r.spec_stamps().len() == 0,
            r.spec_blobs().len() == 0,
    {
        FsSnapshot { stamps: Vec::new(), blobs: Vec::new() }
    }

    /// Record a path's stamp.
    pub fn add_stamp(&mut self, path: Vec<u8>, stamp: FileStamp)
        ensures
            final(self).spec_stamps() == old(self).spec_stamps().push((path@, stamp)),
            final(self).spec_blobs() == old(self).spec_blobs(),
    {
        self.stamps.push((path, stamp));
        proof {
            assert(final(self).spec_stamps()
                =~= old(self).spec_stamps().push((final(self).stamps@.last().0@,
                    final(self).stamps@.last().1)));
        }
    }

    /// Record a file's contents.
    pub fn add_blob(&mut self, path: Vec<u8>, data: Vec<u8>)
        ensures
            final(self).spec_blobs() == old(self).spec_blobs().push((path@, data@)),
            final(self).spec_stamps() == old(self).spec_stamps(),
    {
        self.blobs.push((path, data));
        proof {
            assert(final(self).spec_blobs()
                =~= old(self).spec_blobs().push((final(self).blobs@.last().0@,
                    final(self).blobs@.last().1@)));
        }
    }

    /// The stamp recorded for a path, if any.
    pub fn mtime(&self, path: &[u8]) -> (r: Option<FileStamp>)
        ensures
            r == spec_assoc(self.spec_stamps(), path@),
    {
        let n = self.stamps.len();
        let mut i: usize = 0;
        proof {
            assert(self.spec_stamps().skip(0) =~= self.spec_stamps());
        }
        while i < n
            invariant
                0 <= i <= n,
                n == self.spec_stamps().len(),
                spec_assoc(self.spec_stamps(), path@)
                    == spec_assoc(self.spec_stamps().skip(i as int), path@),
            decreases n - i,
        {
            let ghost pre = self.spec_stamps().skip(i as int);
            proof {
                assert(pre[0] == self.spec_stamps()[i as int]);
                assert(pre.skip(1) =~= self.spec_stamps().skip(i + 1));
            }
            if crate::bytes::bytes_eq(self.stamps[i].0.as_slice(), path) {
                return Some(self.stamps[i].1);
            }
            i = i + 1;
        }
        proof {
            assert(self.spec_stamps().skip(n as int) =~= Seq::<(Seq<u8>, FileStamp)>::empty());
        }
        None
    }

    /// The contents recorded for a path, if any.
    pub fn read(&self, path: &[u8]) -> (r: Option<&Vec<u8>>)
        ensures
            match r {
                Some(v) => spec_assoc(self.spec_blobs(), path@) == Some(v@),
                None => spec_assoc(self.spec_blobs(), path@) is None,
            },
    {
        let n = self.blobs.len();
        let mut i: usize = 0;
        proof {
            assert(self.spec_blobs().skip(0) =~= self.spec_blobs());
        }
        while i < n
            invariant
                0 <= i <= n,
                n == self.spec_blobs().len(),
                spec_assoc(self.spec_blobs(), path@)
                    == spec_assoc(self.spec_blobs().skip(i as int), path@),
            decreases n - i,
        {
            let ghost pre = self.spec_blobs().skip(i as int);
            proof {
                assert(pre[0] == self.spec_blobs()[i as int]);
                assert(pre.skip(1) =~= self.spec_blobs().skip(i + 1));
            }
            if crate::bytes::bytes_eq(self.blobs[i].0.as_slice(), path) {
                return Some(&self.blobs[i].1);
            }
            i = i + 1;
        }
        proof {
            assert(self.spec_blobs().skip(n as int) =~= Seq::<(Seq<u8>, Seq<u8>)>::empty());
        }
        None
    }
}

/// Whether a dep-info path is anchored at the package root or at the
/// build's target root.
#[derive(Debug, Clone, Copy, PartialEq, Eq, Structural)]
pub enum DepInfoPathType {
    PackageRootRelative,
    TargetRootRelative,
}

impl DepInfoPathType {
    /// The byte the codec stores.
    pub fn to_u8(&self) -> (r: u8)
        ensures
            r == 0 <==> *self == DepInfoPathType::PackageRootRelative,
            r == 0 || r == 1,
    {
        if matches!(self, DepInfoPathType::PackageRootRelative) {
            0
        } else {
            1
        }
    }

    /// Decode the stored byte; anything nonzero reads as
    /// target-root-relative.
    pub fn from_u8(value: u8) -> (r: Self)
        ensures
            r == DepInfoPathType::PackageRootRelative <==> value == 0,
    {
        if value == 0 {
            DepInfoPathType::PackageRootRelative
        } else {
            DepInfoPathType::TargetRootRelative
        }
    }

    /// Resolve a stored path against the proper root; absolute paths
    /// stand as they are.
    pub open spec fn spec_resolve(
        self,
        path: Seq<u8>,
        pkg_root: Seq<u8>,
        target_root: Seq<u8>,
    ) -> Seq<u8> {
        if spec_is_absolute(path) {
            path
        } else if self == DepInfoPathType::PackageRootRelative {
            spec_join_path(pkg_root, path)
        } else {
            spec_join_path(target_root, path)
        }
    }

    /// Resolve a stored path against the proper root.
    pub fn path(&self, path: &[u8], pkg_root: &[u8], target_root: &[u8]) -> (r: Vec<u8>)
        ensures
            r@ == self.spec_resolve(path@, pkg_root@, target_root@),
    {
        if path.len() > 0 && path[0] == crate::paths::SEP {
            sub_vec(path, 0, path.len())
        } else if matches!(self, DepInfoPathType::PackageRootRelative) {
            join(pkg_root, path)
        } else {
            join(target_root, path)
        }
    }
}

/// One compiled object: the index of its source in the file pool, and
/// the indices of its transitive header inputs.
#[derive(Debug, Clone)]
pub struct DepObject {
    pub file: u32,
    pub inputs: Vec<u32>,
}

/// The internal dep-info: a pool of kind-tagged paths and, for each
/// object, its source and header indices.
#[derive(Debug, Clone)]
pub struct DepInfo {
    pub files: Vec<(DepInfoPathType, Vec<u8>)>,
    pub objects: Vec<DepObject>,
}

/// Serialized form of the file pool.
pub open spec fn spec_ser_files(files: Seq<(DepInfoPathType, Seq<u8>)>) -> Seq<u8>
    decreases files.len(),
{
    if files.len() == 0 {
        Seq::<u8>::empty()
    } else {
        spec_ser_files(files.drop_last())
            + seq![if files.last().0 == DepInfoPathType::PackageRootRelative { 0u8 } else { 1u8 }]
            + spec_framed(files.last().1)
    }
}

/// Serialized form of one object entry.
pub open spec fn spec_ser_object(file: u32, inputs: Seq<u32>) -> Seq<u8> {
    spec_le32(file) + spec_le32(inputs.len() as u32) + spec_ser_u32s(inputs)
}

/// Serialized form of an index list.
pub open spec fn spec_ser_u32s(xs: Seq<u32>) -> Seq<u8>
    decreases xs.len(),
{
    if xs.len() == 0 {
        Seq::<u8>::empty()
    } else {
        spec_ser_u32s(xs.drop_last()) + spec_le32(xs.last())
    }
}

/// Serialized form of the object list.
pub open spec fn spec_ser_objects(objs: Seq<(u32, Seq<u32>)>) -> Seq<u8>
    decreases objs.len(),
{
    if objs.len() == 0 {
        Seq::<u8>::empty()
    } else {
        spec_ser_objects(objs.drop_last())
            + spec_ser_object(objs.last().0, objs.last().1)
    }
}

impl DepInfo {
    /// The file pool, at spec level.
    pub open spec fn spec_files(&self) -> Seq<(DepInfoPathType, Seq<u8>)> {
        self.files@.map_values(|e: (DepInfoPathType, Vec<u8>)| (e.0, e.1@))
    }

    /// The object entries, at spec level.
    pub open spec fn spec_objects(&self) -> Seq<(u32, Seq<u32>)> {
        self.objects@.map_values(|o: DepObject| (o.file, o.inputs@))
    }

    /// The whole serialized form: both counts, the pool, the objects.
    pub open spec fn spec_serialized(&self) -> Seq<u8> {
        spec_le32(self.spec_files().len() as u32)
            + spec_le32(self.spec_objects().len() as u32)
            + spec_ser_files(self.spec_files())
            + spec_ser_objects(self.spec_objects())
    }

    /// An empty dep-info.
    pub fn new() -> (r: Self)
        ensures
            r.spec_files().len() == 0,
            r.spec_objects().len() == 0,
    {
        DepInfo { files: Vec::new(), objects: Vec::new() }
    }

    /// Nothing recorded?
    pub fn is_empty(&self) -> (r: bool)
        ensures
            r <==> (self.spec_files().len() == 0 && self.spec_objects().len() == 0),
    {
        self.files.len() == 0 && self.objects.len() == 0
    }

    /// Record one package-root-relative path; its index.
    pub fn add_pkg_relative(&mut self, path: Vec<u8>) -> (r: usize)
        ensures
            final(self).spec_files() == old(self).spec_files()
                .push((DepInfoPathType::PackageRootRelative, path@)),
            final(self).spec_objects() == old(self).spec_objects(),
            r == old(self).spec_files().len(),
    {
        let r = self.files.len();
        self.files.push((DepInfoPathType::PackageRootRelative, path));
        proof {
            assert(final(self).spec_files() =~= old(self).spec_files()
                .push((DepInfoPathType::PackageRootRelative,
                    final(self).files@.last().1@)));
        }
        r
    }

    /// Serialize, as the cache file stores it.
    pub fn serialize(&self) -> (r: Vec<u8>)
        requires
            self.spec_files().len() <= u32::MAX,
            self.spec_objects().len() <= u32::MAX,
            forall|j: int| 0 <= j < self.spec_objects().len()
                ==> (#[trigger] self.spec_objects()[j]).1.len() <= u32::MAX,
        ensures
            r@ == self.spec_serialized(),
    {
        let mut w = BinaryWriter::new();
        w.write_u32(self.files.len() as u32);
        w.write_u32(self.objects.len() as u32);
        let nf = self.files.len();
        let mut i: usize = 0;
        proof {
            assert(self.spec_files().take(0) =~= Seq::<(DepInfoPathType, Seq<u8>)>::empty());
            assert(w@ =~= spec_le32(self.spec_files().len() as u32)
                + spec_le32(self.spec_objects().len() as u32)
                + spec_ser_files(self.spec_files().take(0)));
        }
        while i < nf
            invariant
                0 <= i <= nf,
                nf == self.spec_files().len(),
                w@ == spec_le32(self.spec_files().len() as u32)
                    + spec_le32(self.spec_objects().len() as u32)
                    + spec_ser_files(self.spec_files().take(i as int)),
            decreases nf - i,
        {
            let kind = self.files[i].0.to_u8();
            w.write_u8(kind);
            w.write_path(self.files[i].1.as_slice());
            proof {
                let t = self.spec_files().take(i + 1);
                assert(t.drop_last() =~= self.spec_files().take(i as int));
                assert(t.last() == self.spec_files()[i as int]);
                assert(w@ =~= spec_le32(self.spec_files().len() as u32)
                    + spec_le32(self.spec_objects().len() as u32)
                    + spec_ser_files(t));
            }
            i = i + 1;
        }
        proof {
            assert(self.spec_files().take(nf as int) =~= self.spec_files());
        }
        let no = self.objects.len();
        let mut k: usize = 0;
        proof {
            assert(self.spec_objects().take(0) =~= Seq::<(u32, Seq<u32>)>::empty());
            assert(w@ =~= spec_le32(self.spec_files().len() as u32)
                + spec_le32(self.spec_objects().len() as u32)
                + spec_ser_files(self.spec_files())
                + spec_ser_objects(self.spec_objects().take(0)));
        }
        while k < no
            invariant
                0 <= k <= no,
                no == self.spec_objects().len(),
                forall|j: int| 0 <= j < self.spec_objects().len()
                    ==> (#[trigger] self.spec_objects()[j]).1.len() <= u32::MAX,
                w@ == spec_le32(self.spec_files().len() as u32)
                    + spec_le32(self.spec_objects().len() as u32)
                    + spec_ser_files(self.spec_files())
                    + spec_ser_objects(self.spec_objects().take(k as int)),
            decreases no - k,
        {
            let obj = &self.objects[k];
            w.write_u32(obj.file);
            w.write_u32(obj.inputs.len() as u32);
            let ni = obj.inputs.len();
            let ghost base = w@;
            let mut t: usize = 0;
            proof {
                assert(obj.inputs@.take(0) =~= Seq::<u32>::empty());
                assert(w@ =~= base + spec_ser_u32s(obj.inputs@.take(0)));
            }
            while t < ni
                invariant
                    0 <= t <= ni,
                    ni == obj.inputs@.len(),
                    obj == &self.objects[k as int],
                    k < self.objects@.len(),
                    w@ == base + spec_ser_u32s(obj.inputs@.take(t as int)),
                decreases ni - t,
            {
                w.write_u32(obj.inputs[t]);
                proof {
                    let tt = obj.inputs@.take(t + 1);
                    assert(tt.drop_last() =~= obj.inputs@.take(t as int));
                    assert(tt.last() == obj.inputs@[t as int]);
                    assert(w@ =~= base + spec_ser_u32s(tt));
                }
                t = t + 1;
            }
            proof {
                assert(obj.inputs@.take(ni as int) =~= obj.inputs@);
                let to = self.spec_objects().take(k + 1);
                assert(to.drop_last() =~= self.spec_objects().take(k as int));
                assert(to.last() == self.spec_objects()[k as int]);
                assert(self.spec_objects()[k as int].0 == obj.file);
                assert(self.spec_objects()[k as int].1 == obj.inputs@);
                assert(w@ =~= spec_le32(self.spec_files().len() as u32)
                    + spec_le32(self.spec_objects().len() as u32)
                    + spec_ser_files(self.spec_files())
                    + spec_ser_objects(to));
            }
            k = k + 1;
        }
        proof {
            assert(self.spec_objects().take(no as int) =~= self.spec_objects());
        }
        w.into_inner()
    }

    /// Parse a serialized dep-info.  A successful parse returns a value
    /// whose own serialization is exactly the bytes consumed, so the
    /// codec round-trips; a kind byte other than the two the writer
    /// emits fails the parse.
    #[verifier::spinoff_prover]
    #[verifier::rlimit(100)]
    pub fn deserialize(bytes: &[u8]) -> (res: Option<DepInfo>)
        ensures
            match res {
                Some(d) => d.spec_files().len() <= u32::MAX
                    && d.spec_objects().len() <= u32::MAX
                    && (forall|j: int| 0 <= j < d.spec_objects().len()
                        ==> (#[trigger] d.spec_objects()[j]).1.len() <= u32::MAX)
                    && exists|rest: Seq<u8>| bytes@ == d.spec_serialized() + rest,
                None => true,
            },
    {
        let mut r = BinaryReader::new(bytes);
        let n_files = match r.read_u32() {
            Some(v) => v,
            None => {
                return None;
            }
        };
        let n_objs = match r.read_u32() {
            Some(v) => v,
            None => {
                return None;
            }
        };
        let ghost head = spec_le32(n_files) + spec_le32(n_objs);
        proof {
            assert(bytes@ =~= head + r.remaining());
        }
        let mut files: Vec<(DepInfoPathType, Vec<u8>)> = Vec::new();
        let mut i: u32 = 0;
        proof {
            let fv = files@.map_values(|e: (DepInfoPathType, Vec<u8>)| (e.0, e.1@));
            assert(fv =~= Seq::<(DepInfoPathType, Seq<u8>)>::empty());
            assert(bytes@ =~= head + spec_ser_files(fv) + r.remaining());
        }
        while i < n_files
            invariant
                r.wf(),
                files@.len() == i <= n_files,
                bytes@ == head
                    + spec_ser_files(files@.map_values(
                        |e: (DepInfoPathType, Vec<u8>)| (e.0, e.1@)))
                    + r.remaining(),
            decreases n_files - i,
        {
            let ghost pre = r;
            let kind_byte = match r.read_u8() {
                Some(v) => v,
                None => {
                    return None;
                }
            };
            if kind_byte > 1 {
                return None;
            }
            let kind = DepInfoPathType::from_u8(kind_byte);
            let ghost mid = r;
            let path = match r.read_path() {
                Some(v) => v,
                None => {
                    return None;
                }
            };
            let ghost fv0 = files@.map_values(|e: (DepInfoPathType, Vec<u8>)| (e.0, e.1@));
            files.push((kind, path));
            proof {
                let fv = files@.map_values(|e: (DepInfoPathType, Vec<u8>)| (e.0, e.1@));
                assert(fv.drop_last() =~= fv0);
                assert(fv.last().0 == kind && fv.last().1 == files@.last().1@);
                assert(pre.remaining() =~= seq![kind_byte] + mid.remaining());
                assert(mid.remaining()
                    =~= mid.remaining().subrange(0, 8 + files@.last().1@.len() as int)
                        + r.remaining());
                assert((if kind == DepInfoPathType::PackageRootRelative { 0u8 } else { 1u8 })
                    == kind_byte);
                assert(spec_ser_files(fv)
                    =~= spec_ser_files(fv0) + seq![kind_byte]
                        + spec_framed(files@.last().1@));
                assert(bytes@ =~= head + spec_ser_files(fv) + r.remaining());
            }
            i = i + 1;
        }
        let ghost files_done = spec_ser_files(
            files@.map_values(|e: (DepInfoPathType, Vec<u8>)| (e.0, e.1@)));
        let mut objects: Vec<DepObject> = Vec::new();
        let mut k: u32 = 0;
        proof {
            let ov = objects@.map_values(|o: DepObject| (o.file, o.inputs@));
            assert(ov =~= Seq::<(u32, Seq<u32>)>::empty());
            assert(bytes@ =~= head + files_done + spec_ser_objects(ov) + r.remaining());
        }
        while k < n_objs
            invariant
                r.wf(),
                objects@.len() == k <= n_objs,
                files_done == spec_ser_files(
                    files@.map_values(|e: (DepInfoPathType, Vec<u8>)| (e.0, e.1@))),
                forall|j: int| 0 <= j < objects@.len()
                    ==> (#[trigger] objects@[j]).inputs@.len() <= u32::MAX,
                bytes@ == head + files_done
                    + spec_ser_objects(objects@.map_values(
                        |o: DepObject| (o.file, o.inputs@)))
                    + r.remaining(),
            decreases n_objs - k,
        {
            let ghost pre = r;
            let file = match r.read_u32() {
                Some(v) => v,
                None => {
                    return None;
                }
            };
            let ghost mid1 = r;
            let count = match r.read_u32() {
                Some(v) => v,
                None => {
                    return None;
                }
            };
            let ghost mid2 = r;
            let mut inputs: Vec<u32> = Vec::new();
            let mut t: u32 = 0;
            proof {
                assert(spec_ser_u32s(inputs@) =~= Seq::<u8>::empty());
                assert(mid2.remaining() =~= spec_ser_u32s(inputs@) + r.remaining());
            }
            while t < count
                invariant
                    r.wf(),
                    inputs@.len() == t <= count,
                    mid2.remaining() == spec_ser_u32s(inputs@) + r.remaining(),
                decreases count - t,
            {
                let ghost prein = r;
                match r.read_u32() {
                    Some(v) => {
                        let ghost iv0 = inputs@;
                        inputs.push(v);
                        proof {
                            assert(inputs@.drop_last() =~= iv0);
                            assert(prein.remaining() =~= spec_le32(v) + r.remaining());
                            assert(spec_ser_u32s(inputs@)
                                =~= spec_ser_u32s(iv0) + spec_le32(v));
                            assert(mid2.remaining()
                                =~= spec_ser_u32s(inputs@) + r.remaining());
                        }
                    }
                    None => {
                        return None;
                    }
                }
                t = t + 1;
            }
            let ghost ov0 = objects@.map_values(|o: DepObject| (o.file, o.inputs@));
            objects.push(DepObject { file, inputs });
            proof {
                let ov = objects@.map_values(|o: DepObject| (o.file, o.inputs@));
                assert(ov.drop_last() =~= ov0);
                assert(ov.last().0 == file && ov.last().1 == objects@.last().inputs@);
                assert(pre.remaining() =~= spec_le32(file) + mid1.remaining());
                assert(mid1.remaining() =~= spec_le32(count) + mid2.remaining());
                assert(count == objects@.last().inputs@.len() as u32);
                assert(spec_ser_objects(ov)
                    =~= spec_ser_objects(ov0)
                        + spec_ser_object(file, objects@.last().inputs@));
                assert(bytes@ =~= head + files_done + spec_ser_objects(ov)
                    + r.remaining());
            }
            k = k + 1;
        }
        let d = DepInfo { files, objects };
        proof {
            assert(d.spec_files().len() == n_files);
            assert(d.spec_objects().len() == n_objs);
            assert(d.spec_files().len() as u32 == n_files);
            assert(d.spec_objects().len() as u32 == n_objs);
            assert(d.spec_serialized()
                =~= head + files_done
                    + spec_ser_objects(objects@.map_values(
                        |o: DepObject| (o.file, o.inputs@))));
            assert(bytes@ =~= d.spec_serialized() + r.remaining());
            assert forall|j: int| 0 <= j < d.spec_objects().len()
                implies (#[trigger] d.spec_objects()[j]).1.len() <= u32::MAX by {
                assert(d.spec_objects()[j].1 == objects@[j].inputs@);
            }
        }
        Some(d)
    }
}

/// Some listed path — a pool entry itself, or a header input of an
/// object whose source index is valid — is stale against the stamp.
pub open spec fn spec_any_stale(
    files: Seq<(DepInfoPathType, Seq<u8>)>,
    objects: Seq<(u32, Seq<u32>)>,
    stamps: Seq<(Seq<u8>, FileStamp)>,
    pkg_root: Seq<u8>,
    target_root: Seq<u8>,
    reference: FileStamp,
) -> bool {
    ||| exists|j: int| #![auto] 0 <= j < files.len()
        && spec_path_stale(stamps,
            spec_resolved_file(files, j, pkg_root, target_root), reference)
    ||| exists|o: int, e: int| #![auto] 0 <= o < objects.len()
        && objects[o].0 < files.len()
        && 0 <= e < objects[o].1.len()
        && objects[o].1[e] < files.len()
        && spec_path_stale(stamps,
            spec_resolved_file(files, objects[o].1[e] as int, pkg_root, target_root),
            reference)
}

/// The resolved form of pool entry `idx`.
pub open spec fn spec_resolved_file(
    files: Seq<(DepInfoPathType, Seq<u8>)>,
    idx: int,
    pkg_root: Seq<u8>,
    target_root: Seq<u8>,
) -> Seq<u8> {
    files[idx].0.spec_resolve(files[idx].1, pkg_root, target_root)
}

/// A path counts stale against a reference stamp when its stamp is
/// missing or at least as new as the reference.
pub open spec fn spec_path_stale(
    stamps: Seq<(Seq<u8>, FileStamp)>,
    path: Seq<u8>,
    reference: FileStamp,
) -> bool {
    match spec_assoc(stamps, path) {
        Some(st) => st.spec_ge(reference),
        None => true,
    }
}

/// Is this path stale against the reference stamp?
pub fn path_stale(snapshot: &FsSnapshot, path: &[u8], reference: &FileStamp) -> (r: bool)
    ensures
        r == spec_path_stale(snapshot.spec_stamps(), path@, *reference),
{
    match snapshot.mtime(path) {
        Some(st) => st.is_ge(reference),
        None => true,
    }
}

/// What changed on disk for one unit.
#[derive(Debug, Clone)]
pub struct FingerprintState {
    /// The source files that must be recompiled.
    pub files: Vec<Vec<u8>>,
    /// The unit must be relinked.
    pub link: bool,
}

impl FingerprintState {
    /// Nothing to do.
    pub fn new() -> (r: Self)
        ensures
            r.files@.len() == 0,
            !r.link,
    {
        FingerprintState { files: Vec::new(), link: false }
    }

    /// Fresh: no files changed and no relink required.
    pub fn is_fresh(&self) -> (r: bool)
        ensures
            r <==> (self.files@.len() == 0 && !self.link),
    {
        self.files.len() == 0 && !self.link
    }
}

/// Every listed output has a stamp in the snapshot.
pub open spec fn spec_outputs_stamped(
    stamps: Seq<(Seq<u8>, FileStamp)>,
    outputs: Seq<Vec<u8>>,
) -> bool {
    forall|j: int| 0 <= j < outputs.len()
        ==> spec_assoc(stamps, (#[trigger] outputs[j])@) is Some
}

/// The stamp of output `j`.
pub open spec fn spec_out_stamp(
    stamps: Seq<(Seq<u8>, FileStamp)>,
    outputs: Seq<Vec<u8>>,
    j: int,
) -> FileStamp {
    spec_assoc(stamps, outputs[j]@).unwrap()
}

/// The newest stamp among the first `k` outputs, folded in scan order.
pub open spec fn spec_max_stamp(
    stamps: Seq<(Seq<u8>, FileStamp)>,
    outputs: Seq<Vec<u8>>,
    k: int,
) -> FileStamp
    decreases k,
{
    if k <= 1 {
        spec_out_stamp(stamps, outputs, 0)
    } else {
        let prev = spec_max_stamp(stamps, outputs, k - 1);
        let cur = spec_out_stamp(stamps, outputs, k - 1);
        if cur.spec_ge(prev) {
            cur
        } else {
            prev
        }
    }
}

/// The dependency forces a relink: it is stale on disk, or its newest
/// output is at least as new as ours.
pub open spec fn spec_dep_forces_link(dep: DepFingerprint, our_max: FileStamp) -> bool {
    match dep.fingerprint.fs_status {
        FsStatus::Stale => true,
        FsStatus::UpToDate { max_mtime } => match max_mtime {
            Some(m) => m.spec_ge(our_max),
            None => false,
        },
    }
}

/// Does any in-range input index of this object point at a stale path?
fn object_has_stale_input(
    inputs: &Vec<u32>,
    paths: &Vec<Vec<u8>>,
    snapshot: &FsSnapshot,
    reference: &FileStamp,
) -> (r: bool)
    ensures
        r <==> exists|x: int| 0 <= x < inputs@.len()
            && inputs@[x] < paths@.len()
            && spec_path_stale(snapshot.spec_stamps(), paths@[inputs@[x] as int]@, *reference),
{
    let ni = inputs.len();
    let np = paths.len();
    let mut e: usize = 0;
    while e < ni
        invariant
            0 <= e <= ni,
            ni == inputs@.len(),
            np == paths@.len(),
            forall|x: int| #![auto] 0 <= x < e && inputs@[x] < np
                ==> !spec_path_stale(
                    snapshot.spec_stamps(), paths@[inputs@[x] as int]@, *reference),
        decreases ni - e,
    {
        let inp = inputs[e];
        if (inp as usize) < np {
            if path_stale(snapshot, paths[inp as usize].as_slice(), reference) {
                proof {
                    assert(inputs@[e as int] == inp);
                }
                return true;
            }
        }
        e = e + 1;
    }
    false
}

/// A stale pool entry witnesses `spec_any_stale`.
proof fn lemma_any_stale_from_pool(
    files: Seq<(DepInfoPathType, Seq<u8>)>,
    objects: Seq<(u32, Seq<u32>)>,
    stamps: Seq<(Seq<u8>, FileStamp)>,
    pkg_root: Seq<u8>,
    target_root: Seq<u8>,
    reference: FileStamp,
    resolved: Seq<Seq<u8>>,
    j: int,
)
    requires
        resolved.len() == files.len(),
        forall|t: int| 0 <= t < files.len()
            ==> #[trigger] resolved[t]
                == spec_resolved_file(files, t, pkg_root, target_root),
        0 <= j < files.len(),
        spec_path_stale(stamps, resolved[j], reference),
    ensures
        spec_any_stale(files, objects, stamps, pkg_root, target_root, reference),
{
    assert(spec_path_stale(stamps,
        spec_resolved_file(files, j, pkg_root, target_root), reference));
}

/// A stale header input of an object with a valid source index
/// witnesses `spec_any_stale`.
proof fn lemma_any_stale_from_object(
    files: Seq<(DepInfoPathType, Seq<u8>)>,
    objects: Seq<(u32, Seq<u32>)>,
    stamps: Seq<(Seq<u8>, FileStamp)>,
    pkg_root: Seq<u8>,
    target_root: Seq<u8>,
    reference: FileStamp,
    resolved: Seq<Seq<u8>>,
    o: int,
    e: int,
)
    requires
        resolved.len() == files.len(),
        forall|t: int| 0 <= t < files.len()
            ==> #[trigger] resolved[t]
                == spec_resolved_file(files, t, pkg_root, target_root),
        0 <= o < objects.len(),
        objects[o].0 < files.len(),
        0 <= e < objects[o].1.len(),
        objects[o].1[e] < files.len(),
        spec_path_stale(stamps, resolved[objects[o].1[e] as int], reference),
    ensures
        spec_any_stale(files, objects, stamps, pkg_root, target_root, reference),
{
    assert(spec_path_stale(stamps,
        spec_resolved_file(files, objects[o].1[e] as int, pkg_root, target_root),
        reference));
}

/// No stale pool entry and no stale valid header input refutes
/// `spec_any_stale`.
proof fn lemma_no_stale(
    files: Seq<(DepInfoPathType, Seq<u8>)>,
    objects: Seq<(u32, Seq<u32>)>,
    stamps: Seq<(Seq<u8>, FileStamp)>,
    pkg_root: Seq<u8>,
    target_root: Seq<u8>,
    reference: FileStamp,
    resolved: Seq<Seq<u8>>,
)
    requires
        resolved.len() == files.len(),
        forall|t: int| 0 <= t < files.len()
            ==> #[trigger] resolved[t]
                == spec_resolved_file(files, t, pkg_root, target_root),
        forall|t: int| #![auto] 0 <= t < files.len()
            ==> !spec_path_stale(stamps, resolved[t], reference),
        forall|t: int, e: int| #![auto] 0 <= t < objects.len()
            && objects[t].0 < files.len()
            && 0 <= e < objects[t].1.len()
            && objects[t].1[e] < files.len()
            ==> !spec_path_stale(stamps, resolved[objects[t].1[e] as int], reference),
    ensures
        !spec_any_stale(files, objects, stamps, pkg_root, target_root, reference),
{
    if spec_any_stale(files, objects, stamps, pkg_root, target_root, reference) {
        if exists|j: int| #![auto] 0 <= j < files.len()
            && spec_path_stale(stamps,
                spec_resolved_file(files, j, pkg_root, target_root), reference) {
            let j = choose|j: int| #![auto] 0 <= j < files.len()
                && spec_path_stale(stamps,
                    spec_resolved_file(files, j, pkg_root, target_root), reference);
            assert(!spec_path_stale(stamps, resolved[j], reference));
        } else {
            let (o, e) = choose|o: int, e: int| #![auto] 0 <= o < objects.len()
                && objects[o].0 < files.len()
                && 0 <= e < objects[o].1.len()
                && objects[o].1[e] < files.len()
                && spec_path_stale(stamps,
                    spec_resolved_file(files, objects[o].1[e] as int,
                        pkg_root, target_root), reference);
            assert(!spec_path_stale(stamps, resolved[objects[o].1[e] as int], reference));
        }
    }
}

/// Walk a parsed dep-info against the filesystem snapshot: a source
/// goes into `updated` when its own entry is stale or any of its
/// header inputs is.  With `check_all` the walk covers everything;
/// without it, it stops at the first stale item.
pub fn dep_info_stale_sources(
    info: &DepInfo,
    pkg_root: &[u8],
    target_root: &[u8],
    dep_info_mtime: &FileStamp,
    snapshot: &FsSnapshot,
    check_all: bool,
    updated: &mut Vec<Vec<u8>>,
) -> (found: bool)
    ensures
        // something stale was found exactly when something listed is stale
        found == spec_any_stale(
            info.spec_files(), info.spec_objects(), snapshot.spec_stamps(),
            pkg_root@, target_root@, *dep_info_mtime,
        ),
        // what was already collected stays
        forall|j: int| 0 <= j < old(updated)@.len()
            ==> #[trigger] final(updated)@[j] == old(updated)@[j],
        final(updated)@.len() >= old(updated)@.len(),
        // a header newer than the dep-info marks its owning source
        check_all ==> forall|o: int| #![auto] 0 <= o < info.spec_objects().len()
            && info.spec_objects()[o].0 < info.spec_files().len()
            && (exists|e: int| 0 <= e < info.spec_objects()[o].1.len()
                && info.spec_objects()[o].1[e] < info.spec_files().len()
                && spec_path_stale(
                    snapshot.spec_stamps(),
                    spec_resolved_file(info.spec_files(),
                        info.spec_objects()[o].1[e] as int, pkg_root@, target_root@),
                    *dep_info_mtime,
                ))
            ==> final(updated)@.map_values(|v: Vec<u8>| v@).contains(
                spec_resolved_file(info.spec_files(),
                    info.spec_objects()[o].0 as int, pkg_root@, target_root@)),
        // a stale pool entry is itself collected
        check_all ==> forall|j: int| #![auto] 0 <= j < info.spec_files().len()
            && spec_path_stale(
                snapshot.spec_stamps(),
                spec_resolved_file(info.spec_files(), j, pkg_root@, target_root@),
                *dep_info_mtime,
            )
            ==> final(updated)@.map_values(|v: Vec<u8>| v@).contains(
                spec_resolved_file(info.spec_files(), j, pkg_root@, target_root@)),
{
    let ghost base = updated@;
    let mut found = false;
    // resolve the whole pool first
    let nf = info.files.len();
    let mut paths: Vec<Vec<u8>> = Vec::new();
    let mut i: usize = 0;
    while i < nf
        invariant
            0 <= i <= nf,
            nf == info.spec_files().len(),
            paths@.len() == i,
            forall|j: int| 0 <= j < i ==> #[trigger] paths@[j]@
                == spec_resolved_file(info.spec_files(), j, pkg_root@, target_root@),
        decreases nf - i,
    {
        let kind = info.files[i].0;
        let p = kind.path(info.files[i].1.as_slice(), pkg_root, target_root);
        proof {
            assert(info.spec_files()[i as int].0 == info.files@[i as int].0);
            assert(info.spec_files()[i as int].1 == info.files@[i as int].1@);
        }
        paths.push(p);
        i = i + 1;
    }
    // the pool entries themselves
    let mut j: usize = 0;
    proof {
        assert(base == old(updated)@);
    }
    while j < nf
        invariant
            0 <= j <= nf,
            nf == info.spec_files().len(),
            paths@.len() == nf,
            forall|t: int| 0 <= t < nf ==> #[trigger] paths@[t]@
                == spec_resolved_file(info.spec_files(), t, pkg_root@, target_root@),
            base == old(updated)@,
            forall|t: int| 0 <= t < base.len()
                ==> #[trigger] updated@[t] == base[t],
            updated@.len() >= base.len(),
            check_all ==> forall|t: int| #![auto] 0 <= t < j
                && spec_path_stale(snapshot.spec_stamps(), paths@[t]@, *dep_info_mtime)
                ==> updated@.map_values(|v: Vec<u8>| v@).contains(paths@[t]@),
            !check_all && found ==> updated@.len() > base.len(),
            found ==> exists|t: int| #![auto] 0 <= t < nf
                && spec_path_stale(snapshot.spec_stamps(), paths@[t]@, *dep_info_mtime),
            !found ==> forall|t: int| #![auto] 0 <= t < j
                ==> !spec_path_stale(snapshot.spec_stamps(), paths@[t]@, *dep_info_mtime),
        decreases nf - j,
    {
        if path_stale(snapshot, paths[j].as_slice(), dep_info_mtime) {
            let ghost pre = updated@;
            updated.push(sub_vec(paths[j].as_slice(), 0, paths[j].len()));
            found = true;
            proof {
                assert(updated@.map_values(|v: Vec<u8>| v@).last() == paths@[j as int]@);
                assert(updated@.map_values(|v: Vec<u8>| v@).contains(paths@[j as int]@));
                assert forall|t: int| #![auto] 0 <= t < j + 1
                    && spec_path_stale(snapshot.spec_stamps(), paths@[t]@, *dep_info_mtime)
                    && check_all
                    implies updated@.map_values(|v: Vec<u8>| v@).contains(paths@[t]@) by {
                    if t < j {
                        let m = pre.map_values(|v: Vec<u8>| v@);
                        assert(m.contains(paths@[t]@));
                        let w = choose|w: int| 0 <= w < m.len() && m[w] == paths@[t]@;
                        assert(updated@.map_values(|v: Vec<u8>| v@)[w] == paths@[t]@);
                    }
                }
            }
            if !check_all {
                proof {
                    let rv = paths@.map_values(|v: Vec<u8>| v@);
                    assert forall|t: int| 0 <= t < info.spec_files().len()
                        implies #[trigger] rv[t] == spec_resolved_file(
                            info.spec_files(), t, pkg_root@, target_root@) by {
                        assert(rv[t] == paths@[t]@);
                    }
                    assert(spec_path_stale(snapshot.spec_stamps(), rv[j as int],
                        *dep_info_mtime));
                    lemma_any_stale_from_pool(info.spec_files(), info.spec_objects(),
                        snapshot.spec_stamps(), pkg_root@, target_root@, *dep_info_mtime,
                        rv, j as int);
                }
                return true;
            }
        }
        j = j + 1;
    }
    // bridge the pool result to the overall staleness verdict
    proof {
        let rv = paths@.map_values(|v: Vec<u8>| v@);
        assert forall|t: int| 0 <= t < info.spec_files().len()
            implies #[trigger] rv[t] == spec_resolved_file(
                info.spec_files(), t, pkg_root@, target_root@) by {
            assert(rv[t] == paths@[t]@);
        }
        if found {
            let t0 = choose|t0: int| #![auto] 0 <= t0 < nf
                && spec_path_stale(snapshot.spec_stamps(), paths@[t0]@, *dep_info_mtime);
            assert(spec_path_stale(snapshot.spec_stamps(), rv[t0], *dep_info_mtime));
            lemma_any_stale_from_pool(info.spec_files(), info.spec_objects(),
                snapshot.spec_stamps(), pkg_root@, target_root@, *dep_info_mtime,
                rv, t0);
        }
    }
    // each object's header inputs
    let no = info.objects.len();
    let mut o: usize = 0;
    while o < no
        invariant
            0 <= o <= no,
            no == info.spec_objects().len(),
            nf == info.spec_files().len(),
            paths@.len() == nf,
            forall|t: int| 0 <= t < nf ==> #[trigger] paths@[t]@
                == spec_resolved_file(info.spec_files(), t, pkg_root@, target_root@),
            base == old(updated)@,
            forall|t: int| 0 <= t < base.len()
                ==> #[trigger] updated@[t] == base[t],
            updated@.len() >= base.len(),
            check_all ==> forall|t: int| #![auto] 0 <= t < nf
                && spec_path_stale(snapshot.spec_stamps(), paths@[t]@, *dep_info_mtime)
                ==> updated@.map_values(|v: Vec<u8>| v@).contains(paths@[t]@),
            check_all ==> forall|t: int| #![auto] 0 <= t < o
                && info.spec_objects()[t].0 < nf
                && (exists|e: int| 0 <= e < info.spec_objects()[t].1.len()
                    && info.spec_objects()[t].1[e] < nf
                    && spec_path_stale(
                        snapshot.spec_stamps(),
                        paths@[info.spec_objects()[t].1[e] as int]@,
                        *dep_info_mtime,
                    ))
                ==> updated@.map_values(|v: Vec<u8>| v@).contains(
                    paths@[info.spec_objects()[t].0 as int]@),
            !check_all && found ==> updated@.len() > base.len(),
            found ==> spec_any_stale(
                info.spec_files(), info.spec_objects(), snapshot.spec_stamps(),
                pkg_root@, target_root@, *dep_info_mtime),
            !found ==> forall|t: int| #![auto] 0 <= t < nf
                ==> !spec_path_stale(snapshot.spec_stamps(), paths@[t]@, *dep_info_mtime),
            !found ==> forall|t: int, e: int| #![auto] 0 <= t < o
                && info.spec_objects()[t].0 < nf
                && 0 <= e < info.spec_objects()[t].1.len()
                && info.spec_objects()[t].1[e] < nf
                ==> !spec_path_stale(
                    snapshot.spec_stamps(),
                    paths@[info.spec_objects()[t].1[e] as int]@,
                    *dep_info_mtime),
        decreases no - o,
    {
        let obj = &info.objects[o];
        let file_ok = (obj.file as usize) < nf;
        let hit = object_has_stale_input(&obj.inputs, &paths, snapshot, dep_info_mtime);
        proof {
            assert(info.spec_objects()[o as int].1 == obj.inputs@);
            assert(info.spec_objects()[o as int].0 == obj.file);
        }
        if hit && file_ok {
            let ghost pre = updated@;
            let src = &paths[obj.file as usize];
            updated.push(sub_vec(src.as_slice(), 0, src.len()));
            found = true;
            proof {
                let rv = paths@.map_values(|v: Vec<u8>| v@);
                assert forall|t: int| 0 <= t < info.spec_files().len()
                    implies #[trigger] rv[t] == spec_resolved_file(
                        info.spec_files(), t, pkg_root@, target_root@) by {
                    assert(rv[t] == paths@[t]@);
                }
                let x = choose|x: int| 0 <= x < obj.inputs@.len()
                    && obj.inputs@[x] < nf
                    && spec_path_stale(
                        snapshot.spec_stamps(),
                        paths@[obj.inputs@[x] as int]@,
                        *dep_info_mtime,
                    );
                assert(info.spec_objects()[o as int].1 == obj.inputs@);
                assert(spec_path_stale(snapshot.spec_stamps(),
                    rv[obj.inputs@[x] as int], *dep_info_mtime));
                lemma_any_stale_from_object(info.spec_files(), info.spec_objects(),
                    snapshot.spec_stamps(), pkg_root@, target_root@, *dep_info_mtime,
                    rv, o as int, x);
            }
            proof {
                assert(updated@.map_values(|v: Vec<u8>| v@).last()
                    == paths@[obj.file as int]@);
                assert(updated@.map_values(|v: Vec<u8>| v@).contains(
                    paths@[obj.file as int]@));
                assert forall|t: int| #![auto] 0 <= t < nf
                    && spec_path_stale(snapshot.spec_stamps(), paths@[t]@, *dep_info_mtime)
                    && check_all
                    implies updated@.map_values(|v: Vec<u8>| v@).contains(paths@[t]@) by {
                    let m = pre.map_values(|v: Vec<u8>| v@);
                    assert(m.contains(paths@[t]@));
                    let w = choose|w: int| 0 <= w < m.len() && m[w] == paths@[t]@;
                    assert(updated@.map_values(|v: Vec<u8>| v@)[w] == paths@[t]@);
                }
                assert forall|t: int| #![auto] 0 <= t < o + 1
                    && info.spec_objects()[t].0 < nf
                    && (exists|e2: int| 0 <= e2 < info.spec_objects()[t].1.len()
                        && info.spec_objects()[t].1[e2] < nf
                        && spec_path_stale(
                            snapshot.spec_stamps(),
                            paths@[info.spec_objects()[t].1[e2] as int]@,
                            *dep_info_mtime,
                        ))
                    && check_all
                    implies updated@.map_values(|v: Vec<u8>| v@).contains(
                        paths@[info.spec_objects()[t].0 as int]@) by {
                    if t < o {
                        let m = pre.map_values(|v: Vec<u8>| v@);
                        assert(m.contains(paths@[info.spec_objects()[t].0 as int]@));
                        let w = choose|w: int| 0 <= w < m.len()
                            && m[w] == paths@[info.spec_objects()[t].0 as int]@;
                        assert(updated@.map_values(|v: Vec<u8>| v@)[w]
                            == paths@[info.spec_objects()[t].0 as int]@);
                    } else {
                        assert(info.spec_objects()[o as int].0 == obj.file);
                    }
                }
            }
            if !check_all {
                proof {
                    let rv = paths@.map_values(|v: Vec<u8>| v@);
                    assert forall|t: int| 0 <= t < info.spec_files().len()
                        implies #[trigger] rv[t] == spec_resolved_file(
                            info.spec_files(), t, pkg_root@, target_root@) by {
                        assert(rv[t] == paths@[t]@);
                    }
                    let x = choose|x: int| 0 <= x < obj.inputs@.len()
                        && obj.inputs@[x] < nf
                        && spec_path_stale(
                            snapshot.spec_stamps(),
                            paths@[obj.inputs@[x] as int]@,
                            *dep_info_mtime,
                        );
                    assert(info.spec_objects()[o as int].1 == obj.inputs@);
                    assert(spec_path_stale(snapshot.spec_stamps(),
                        rv[obj.inputs@[x] as int], *dep_info_mtime));
                    lemma_any_stale_from_object(info.spec_files(), info.spec_objects(),
                        snapshot.spec_stamps(), pkg_root@, target_root@, *dep_info_mtime,
                        rv, o as int, x);
                }
                return true;
            }
        } else {
            proof {
                if !found {
                    assert forall|t: int, e2: int| #![auto] 0 <= t < o + 1
                        && info.spec_objects()[t].0 < nf
                        && 0 <= e2 < info.spec_objects()[t].1.len()
                        && info.spec_objects()[t].1[e2] < nf
                        implies !spec_path_stale(
                            snapshot.spec_stamps(),
                            paths@[info.spec_objects()[t].1[e2] as int]@,
                            *dep_info_mtime) by {
                        if t == o {
                            assert(info.spec_objects()[o as int].1 == obj.inputs@);
                            if spec_path_stale(
                                snapshot.spec_stamps(),
                                paths@[info.spec_objects()[t].1[e2] as int]@,
                                *dep_info_mtime) {
                                assert(hit);
                            }
                        }
                    }
                }
                if check_all {
                    assert forall|t: int| #![auto] 0 <= t < o + 1
                        && info.spec_objects()[t].0 < nf
                        && (exists|e2: int| 0 <= e2 < info.spec_objects()[t].1.len()
                            && info.spec_objects()[t].1[e2] < nf
                            && spec_path_stale(
                                snapshot.spec_stamps(),
                                paths@[info.spec_objects()[t].1[e2] as int]@,
                                *dep_info_mtime,
                            ))
                        implies updated@.map_values(|v: Vec<u8>| v@).contains(
                            paths@[info.spec_objects()[t].0 as int]@) by {
                        if t == o {
                            assert(info.spec_objects()[o as int].1 == obj.inputs@);
                            if !hit {
                                let e2 = choose|e2: int|
                                    0 <= e2 < info.spec_objects()[t].1.len()
                                    && info.spec_objects()[t].1[e2] < nf
                                    && spec_path_stale(
                                        snapshot.spec_stamps(),
                                        paths@[info.spec_objects()[t].1[e2] as int]@,
                                        *dep_info_mtime,
                                    );
                                assert(false);
                            } else {
                                assert(info.spec_objects()[t].0 >= nf);
                            }
                        }
                    }
                }
            }
        }
        o = o + 1;
    }
    proof {
        if !found {
            let rv = paths@.map_values(|v: Vec<u8>| v@);
            assert forall|t: int| 0 <= t < info.spec_files().len()
                implies #[trigger] rv[t] == spec_resolved_file(
                    info.spec_files(), t, pkg_root@, target_root@) by {
                assert(rv[t] == paths@[t]@);
            }
            assert forall|t: int| #![auto] 0 <= t < info.spec_files().len()
                implies !spec_path_stale(snapshot.spec_stamps(), rv[t], *dep_info_mtime)
                by {
                assert(!spec_path_stale(snapshot.spec_stamps(), paths@[t]@,
                    *dep_info_mtime));
            }
            assert forall|t: int, e2: int| #![auto] 0 <= t < info.spec_objects().len()
                && info.spec_objects()[t].0 < info.spec_files().len()
                && 0 <= e2 < info.spec_objects()[t].1.len()
                && info.spec_objects()[t].1[e2] < info.spec_files().len()
                implies !spec_path_stale(snapshot.spec_stamps(),
                    rv[info.spec_objects()[t].1[e2] as int], *dep_info_mtime) by {
                assert(!spec_path_stale(
                    snapshot.spec_stamps(),
                    paths@[info.spec_objects()[t].1[e2] as int]@,
                    *dep_info_mtime));
            }
            lemma_no_stale(info.spec_files(), info.spec_objects(),
                snapshot.spec_stamps(), pkg_root@, target_root@, *dep_info_mtime, rv);
        }
        if check_all {
            assert forall|j2: int| #![auto] 0 <= j2 < info.spec_files().len()
                && spec_path_stale(
                    snapshot.spec_stamps(),
                    spec_resolved_file(info.spec_files(), j2, pkg_root@, target_root@),
                    *dep_info_mtime,
                )
                implies updated@.map_values(|v: Vec<u8>| v@).contains(
                    spec_resolved_file(info.spec_files(), j2, pkg_root@, target_root@)) by {
                assert(paths@[j2]@
                    == spec_resolved_file(info.spec_files(), j2, pkg_root@, target_root@));
            }
        }
    }
    found
}


/// Length-prefixed frames of each byte string, in order.
pub open spec fn spec_ser_framed_list(ps: Seq<Seq<u8>>) -> Seq<u8>
    decreases ps.len(),
{
    if ps.len() == 0 {
        Seq::<u8>::empty()
    } else {
        spec_ser_framed_list(ps.drop_last()) + spec_framed(ps.last())
    }
}

/// Serialized forms of each local rule, in order.
pub open spec fn spec_ser_locals(ls: Seq<LocalFingerprint>) -> Seq<u8>
    decreases ls.len(),
{
    if ls.len() == 0 {
        Seq::<u8>::empty()
    } else {
        spec_ser_locals(ls.drop_last()) + ls.last().spec_serialized()
    }
}

/// A local filesystem rule of one unit.
#[derive(Debug, Clone)]
pub enum LocalFingerprint {
    /// Check every path in the unit's dep-info file against the
    /// dep-info's own stamp.  `check_all` gathers every stale source;
    /// otherwise the first stale item wins.
    CheckDepInfo { dep_info: Vec<u8>, check_all: bool },
    /// Check the listed paths against the step's sentinel output.
    RerunIfChanged { output: Vec<u8>, paths: Vec<Vec<u8>> },
}

impl LocalFingerprint {
    /// A short name for the rule's kind.
    pub fn kind(&self) -> (r: &'static str)
        ensures
            matches!(self, LocalFingerprint::CheckDepInfo { .. }) ==> r@ == "dep-info"@,
            matches!(self, LocalFingerprint::RerunIfChanged { .. })
                ==> r@ == "rerun-if-changed"@,
    {
        proof {
            reveal_strlit("dep-info");
            reveal_strlit("rerun-if-changed");
        }
        match self {
            LocalFingerprint::CheckDepInfo { .. } => "dep-info",
            LocalFingerprint::RerunIfChanged { .. } => "rerun-if-changed",
        }
    }

    /// The rule's tag and payloads, for comparisons.
    pub open spec fn spec_same_shape(self, other: LocalFingerprint) -> bool {
        match (self, other) {
            (
                LocalFingerprint::CheckDepInfo { dep_info: a, .. },
                LocalFingerprint::CheckDepInfo { dep_info: b, .. },
            ) => a@ == b@,
            (
                LocalFingerprint::RerunIfChanged { output: ao, paths: ap },
                LocalFingerprint::RerunIfChanged { output: bo, paths: bp },
            ) => ao@ == bo@
                && ap@.map_values(|v: Vec<u8>| v@) == bp@.map_values(|v: Vec<u8>| v@),
            _ => false,
        }
    }

    /// The rule's serialized form.
    pub open spec fn spec_serialized(self) -> Seq<u8> {
        match self {
            LocalFingerprint::CheckDepInfo { dep_info, check_all } =>
                seq![0u8, if check_all { 1u8 } else { 0u8 }] + spec_framed(dep_info@),
            LocalFingerprint::RerunIfChanged { output, paths } =>
                seq![1u8] + spec_framed(output@)
                    + spec_le32(paths@.len() as u32)
                    + spec_ser_framed_list(paths@.map_values(|p: Vec<u8>| p@)),
        }
    }

    /// Serialize this rule.
    pub fn serialize(&self, w: &mut BinaryWriter)
        requires
            match self {
                LocalFingerprint::RerunIfChanged { paths, .. } => paths@.len() <= u32::MAX,
                _ => true,
            },
        ensures
            final(w)@ == old(w)@ + self.spec_serialized(),
    {
        match self {
            LocalFingerprint::CheckDepInfo { dep_info, check_all } => {
                w.write_u8(0);
                w.write_u8(if *check_all { 1 } else { 0 });
                w.write_path(dep_info.as_slice());
                proof {
                    assert(w@ =~= old(w)@ + self.spec_serialized());
                }
            }
            LocalFingerprint::RerunIfChanged { output, paths } => {
                w.write_u8(1);
                w.write_path(output.as_slice());
                w.write_u32(paths.len() as u32);
                let ghost base = w@;
                let ghost pv = paths@.map_values(|p: Vec<u8>| p@);
                let n = paths.len();
                let mut i: usize = 0;
                proof {
                    assert(pv.take(0) =~= Seq::<Seq<u8>>::empty());
                    assert(w@ =~= base + spec_ser_framed_list(pv.take(0)));
                }
                while i < n
                    invariant
                        n == paths@.len(),
                        pv == paths@.map_values(|p: Vec<u8>| p@),
                        0 <= i <= n,
                        w@ == base + spec_ser_framed_list(pv.take(i as int)),
                    decreases n - i,
                {
                    w.write_path(paths[i].as_slice());
                    proof {
                        let t = pv.take(i + 1);
                        assert(t.drop_last() =~= pv.take(i as int));
                        assert(t.last() == pv[i as int]);
                        assert(w@ =~= base + spec_ser_framed_list(t));
                    }
                    i = i + 1;
                }
                proof {
                    assert(pv.take(n as int) =~= pv);
                    assert(w@ =~= old(w)@ + self.spec_serialized());
                }
            }
        }
    }

    /// Parse one rule back; unknown tags fail the parse.
    pub fn deserialize(r: &mut BinaryReader) -> (res: Option<LocalFingerprint>)
        requires
            old(r).wf(),
        ensures
            final(r).wf(),
    {
        let tag = match r.read_u8() {
            Some(t) => t,
            None => {
                return None;
            }
        };
        if tag == 0 {
            let check_all = match r.read_u8() {
                Some(b) => b == 1,
                None => {
                    return None;
                }
            };
            let dep_info = match r.read_path() {
                Some(p) => p,
                None => {
                    return None;
                }
            };
            Some(LocalFingerprint::CheckDepInfo { dep_info, check_all })
        } else if tag == 1 {
            let output = match r.read_path() {
                Some(p) => p,
                None => {
                    return None;
                }
            };
            let n = match r.read_u32() {
                Some(n) => n,
                None => {
                    return None;
                }
            };
            let mut paths: Vec<Vec<u8>> = Vec::new();
            let mut i: u32 = 0;
            while i < n
                invariant
                    r.wf(),
                decreases n - i,
            {
                match r.read_path() {
                    Some(p) => {
                        paths.push(p);
                    }
                    None => {
                        return None;
                    }
                }
                i = i + 1;
            }
            Some(LocalFingerprint::RerunIfChanged { output, paths })
        } else {
            None
        }
    }
}

/// Whether a unit's outputs on disk are up to date, and if so the
/// newest output stamp, for dependents to compare against.
#[derive(Debug, Clone, Copy, PartialEq, Eq, Structural)]
pub enum FsStatus {
    Stale,
    UpToDate { max_mtime: Option<FileStamp> },
}

impl FsStatus {
    /// Up to date?
    pub fn up_to_date(&self) -> (r: bool)
        ensures
            r <==> matches!(self, FsStatus::UpToDate { .. }),
    {
        matches!(self, FsStatus::UpToDate { .. })
    }
}

/// One dependency edge of a fingerprint.
#[derive(Debug)]
pub struct DepFingerprint {
    /// Stable hash of the package the dependency lives in.
    pub pkg_id: u64,
    /// The dependency's target name.
    pub name: crate::target_name::TargetName,
    /// The dependency's own fingerprint.
    pub fingerprint: Box<Fingerprint>,
}

/// A short string representing everything that influences a unit's
/// rebuild decision.
#[derive(Debug)]
pub struct Fingerprint {
    /// Hash of the toolchain identity.
    pub compiler_hash: u64,
    /// Stable hash of the unit's definition, workspace-relative.
    pub target_hash: u64,
    /// Hash of the profile.
    pub profile_hash: u64,
    /// Whether the outputs on disk are current.
    pub fs_status: FsStatus,
    /// Fingerprints of dependencies, sorted by package hash.
    pub deps: Vec<DepFingerprint>,
    /// The unit's local filesystem rules.
    pub local: Vec<LocalFingerprint>,
    /// The unit's expected outputs.
    pub outputs: Vec<Vec<u8>>,
}

/// Machine limits the hashing and persistence code needs: every
/// rerun-if-changed list fits a `u32` count, recursively through the
/// dependency fingerprints.
pub open spec fn fp_wf(f: Fingerprint) -> bool
    decreases f,
{
    &&& forall|j: int| 0 <= j < f.local@.len()
        ==> match #[trigger] f.local@[j] {
            LocalFingerprint::RerunIfChanged { paths, .. } => paths@.len() <= u32::MAX,
            _ => true,
        }
    &&& forall|j: int| 0 <= j < f.deps@.len()
        ==> fp_wf(*(#[trigger] f.deps@[j]).fingerprint)
}

/// The identity bytes a fingerprint hashes: the three scalar hashes,
/// the local rules, then each dependency's package hash, name and
/// recursive hash.  The filesystem status stays out, as it is
/// transient.
pub open spec fn spec_identity(f: Fingerprint) -> Seq<u8>
    decreases f,
{
    spec_le64(f.compiler_hash) + spec_le64(f.target_hash) + spec_le64(f.profile_hash)
        + spec_le64(f.local@.len() as u64)
        + spec_ser_locals(f.local@)
        + spec_le64(f.deps@.len() as u64)
        + spec_identity_deps(f.deps@)
}

/// Identity bytes of the dependency list.
pub open spec fn spec_identity_deps(deps: Seq<DepFingerprint>) -> Seq<u8>
    decreases deps,
{
    if deps.len() == 0 {
        Seq::<u8>::empty()
    } else {
        spec_identity_deps(deps.drop_last())
            + spec_le64(deps.last().pkg_id)
            + spec_framed(deps.last().name.spec_package())
            + spec_framed(deps.last().name.spec_target())
            + spec_le64(spec_hash(spec_identity(*deps.last().fingerprint)))
    }
}

impl Fingerprint {
    /// An empty fingerprint, considered stale.
    pub fn new() -> (r: Self)
        ensures
            r.compiler_hash == 0,
            r.target_hash == 0,
            r.profile_hash == 0,
            r.fs_status == FsStatus::Stale,
            r.deps@.len() == 0,
            r.local@.len() == 0,
            r.outputs@.len() == 0,
            fp_wf(r),
    {
        Fingerprint {
            compiler_hash: 0,
            target_hash: 0,
            profile_hash: 0,
            fs_status: FsStatus::Stale,
            deps: Vec::new(),
            local: Vec::new(),
            outputs: Vec::new(),
        }
    }

    /// The identity bytes this fingerprint hashes.
    pub fn identity_bytes(&self) -> (r: Vec<u8>)
        requires
            fp_wf(*self),
        ensures
            r@ == spec_identity(*self),
        decreases *self,
    {
        let mut w = BinaryWriter::new();
        w.write_u64(self.compiler_hash);
        w.write_u64(self.target_hash);
        w.write_u64(self.profile_hash);
        w.write_u64(self.local.len() as u64);
        let nl = self.local.len();
        let mut li: usize = 0;
        proof {
            assert(self.local@.take(0) =~= Seq::<LocalFingerprint>::empty());
            assert(w@ =~= spec_le64(self.compiler_hash) + spec_le64(self.target_hash)
                + spec_le64(self.profile_hash) + spec_le64(self.local@.len() as u64)
                + spec_ser_locals(self.local@.take(0)));
        }
        while li < nl
            invariant
                0 <= li <= nl,
                nl == self.local@.len(),
                fp_wf(*self),
                w@ == spec_le64(self.compiler_hash) + spec_le64(self.target_hash)
                    + spec_le64(self.profile_hash) + spec_le64(self.local@.len() as u64)
                    + spec_ser_locals(self.local@.take(li as int)),
            decreases nl - li,
        {
            self.local[li].serialize(&mut w);
            proof {
                let t = self.local@.take(li + 1);
                assert(t.drop_last() =~= self.local@.take(li as int));
                assert(t.last() == self.local@[li as int]);
                assert(w@ =~= spec_le64(self.compiler_hash) + spec_le64(self.target_hash)
                    + spec_le64(self.profile_hash) + spec_le64(self.local@.len() as u64)
                    + spec_ser_locals(t));
            }
            li = li + 1;
        }
        proof {
            assert(self.local@.take(nl as int) =~= self.local@);
        }
        w.write_u64(self.deps.len() as u64);
        let mut out = w.into_inner();
        let ghost head = spec_le64(self.compiler_hash) + spec_le64(self.target_hash)
            + spec_le64(self.profile_hash) + spec_le64(self.local@.len() as u64)
            + spec_ser_locals(self.local@) + spec_le64(self.deps@.len() as u64);
        let n = self.deps.len();
        let mut i: usize = 0;
        proof {
            assert(self.deps@.take(0) =~= Seq::<DepFingerprint>::empty());
            assert(out@ =~= head + spec_identity_deps(self.deps@.take(0)));
        }
        while i < n
            invariant
                0 <= i <= n,
                n == self.deps@.len(),
                fp_wf(*self),
                head == spec_le64(self.compiler_hash) + spec_le64(self.target_hash)
                    + spec_le64(self.profile_hash) + spec_le64(self.local@.len() as u64)
                    + spec_ser_locals(self.local@) + spec_le64(self.deps@.len() as u64),
                out@ == head + spec_identity_deps(self.deps@.take(i as int)),
            decreases n - i,
        {
            let dep = &self.deps[i];
            let mut w2 = BinaryWriter::new();
            w2.write_u64(dep.pkg_id);
            w2.write_path(dep.name.package().as_slice());
            w2.write_path(dep.name.target().as_slice());
            proof {
                assert(self.deps@[i as int] == *dep);
                assert(dep.fingerprint == self.deps@[i as int].fingerprint);
                assert(fp_wf(*self.deps@[i as int].fingerprint));
            }
            let sub = dep.fingerprint.identity_bytes();
            let h = hash_u64(sub.as_slice());
            w2.write_u64(h);
            let piece = w2.into_inner();
            push_all(&mut out, piece.as_slice());
            proof {
                let t = self.deps@.take(i + 1);
                assert(t.drop_last() =~= self.deps@.take(i as int));
                assert(t.last() == self.deps@[i as int]);
                assert(out@ =~= head + spec_identity_deps(t));
            }
            i = i + 1;
        }
        proof {
            assert(self.deps@.take(n as int) =~= self.deps@);
        }
        out
    }

    /// The fingerprint's 64-bit hash: the stable hash of its identity
    /// bytes.  It is a pure function of the fingerprint's value, so
    /// identical inputs hash identically on every run and machine.
    pub fn hash_u64(&self) -> (r: u64)
        requires
            fp_wf(*self),
        ensures
            r == spec_hash(spec_identity(*self)),
    {
        let b = self.identity_bytes();
        hash_u64(b.as_slice())
    }

    /// Check the unit's outputs and dependencies against the snapshot.
    /// A missing output marks every source dirty and leaves the unit
    /// stale.  With all outputs present, a relink is forced exactly
    /// when some dependency is stale or at least as new as the newest
    /// output, and the filesystem status records the newest output
    /// stamp when nothing forces work.  The local rules are judged
    /// separately by the caller, which must keep the unit stale when
    /// they find changes.
    #[verifier::spinoff_prover]
    #[verifier::rlimit(100)]
    pub fn check_outputs_and_deps(
        &mut self,
        snapshot: &FsSnapshot,
        sources: &Vec<Vec<u8>>,
        state: &mut FingerprintState,
    )
        ensures
            final(self).deps@ == old(self).deps@,
            final(self).local@ == old(self).local@,
            final(self).outputs@ == old(self).outputs@,
            final(self).compiler_hash == old(self).compiler_hash,
            final(self).target_hash == old(self).target_hash,
            final(self).profile_hash == old(self).profile_hash,
            // a missing output: everything dirty, unit stale
            !spec_outputs_stamped(snapshot.spec_stamps(), old(self).outputs@)
                ==> final(state).link
                    && final(self).fs_status == FsStatus::Stale
                    && final(state).files@.map_values(|v: Vec<u8>| v@)
                        == old(state).files@.map_values(|v: Vec<u8>| v@)
                            + sources@.map_values(|v: Vec<u8>| v@),
            // no outputs at all: trivially current, nothing reported
            (spec_outputs_stamped(snapshot.spec_stamps(), old(self).outputs@)
                && old(self).outputs@.len() == 0)
                ==> final(self).fs_status == (FsStatus::UpToDate {
                        max_mtime: None::<FileStamp> })
                    && *final(state) == *old(state),
            // outputs present: link exactly on a stale-or-newer dep
            (spec_outputs_stamped(snapshot.spec_stamps(), old(self).outputs@)
                && old(self).outputs@.len() > 0)
                ==> {
                    let maxm = spec_max_stamp(snapshot.spec_stamps(),
                        old(self).outputs@, old(self).outputs@.len() as int);
                    let forced = exists|d: int| 0 <= d < old(self).deps@.len()
                        && spec_dep_forces_link(#[trigger] old(self).deps@[d], maxm);
                    &&& final(state).files@ == old(state).files@
                    &&& final(state).link == (old(state).link || forced)
                    &&& final(self).fs_status == (if old(state).link || forced {
                            FsStatus::Stale
                        } else {
                            FsStatus::UpToDate { max_mtime: Some(maxm) }
                        })
                },
    {
        let n = self.outputs.len();
        let mut mtimes: Vec<FileStamp> = Vec::new();
        let mut i: usize = 0;
        while i < n
            invariant
                0 <= i <= n,
                n == self.outputs@.len(),
                *self == *old(self),
                *state == *old(state),
                mtimes@.len() == i,
                forall|j: int| 0 <= j < i
                    ==> spec_assoc(snapshot.spec_stamps(),
                        (#[trigger] self.outputs@[j])@) is Some,
                forall|j: int| 0 <= j < i
                    ==> #[trigger] mtimes@[j]
                        == spec_out_stamp(snapshot.spec_stamps(), self.outputs@, j),
            decreases n - i,
        {
            match snapshot.mtime(self.outputs[i].as_slice()) {
                Some(st) => {
                    mtimes.push(st);
                }
                None => {
                    // leave ourselves stale and mark everything dirty
                    proof {
                        assert(!spec_outputs_stamped(
                            snapshot.spec_stamps(), old(self).outputs@));
                    }
                    let mut k: usize = 0;
                    let ns = sources.len();
                    let ghost base = state.files@.map_values(|v: Vec<u8>| v@);
                    let ghost sv = sources@.map_values(|v: Vec<u8>| v@);
                    proof {
                        assert(state.files@.map_values(|v: Vec<u8>| v@)
                            =~~= base + sv.take(0));
                    }
                    while k < ns
                        invariant
                            0 <= k <= ns,
                            ns == sources@.len(),
                            sv == sources@.map_values(|v: Vec<u8>| v@),
                            *self == *old(self),
                            state.link == old(state).link,
                            state.files@.map_values(|v: Vec<u8>| v@)
                                == base + sv.take(k as int),
                        decreases ns - k,
                    {
                        let copy = sub_vec(sources[k].as_slice(), 0, sources[k].len());
                        proof {
                            assert(copy@ =~= sv[k as int]);
                        }
                        let ghost prev = state.files@.map_values(|v: Vec<u8>| v@);
                        state.files.push(copy);
                        proof {
                            let t = sv.take(k + 1);
                            assert(t.drop_last() =~= sv.take(k as int));
                            assert(t.last() == sv[k as int]);
                            assert(state.files@.map_values(|v: Vec<u8>| v@)
                                =~~= prev.push(copy@)) by {
                                assert(forall|q: int| 0 <= q < prev.len()
                                    ==> state.files@.map_values(|v: Vec<u8>| v@)[q]
                                        == prev[q]);
                                assert(state.files@.map_values(|v: Vec<u8>| v@).last()
                                    == copy@);
                            }
                            assert(state.files@.map_values(|v: Vec<u8>| v@)
                                =~~= base + t);
                        }
                        k = k + 1;
                    }
                    proof {
                        assert(sv.take(ns as int) =~= sv);
                    }
                    state.link = true;
                    self.fs_status = FsStatus::Stale;
                    return;
                }
            }
            i = i + 1;
        }
        if n == 0 {
            // no outputs at all: trivially up to date
            self.fs_status = FsStatus::UpToDate { max_mtime: None };
            return;
        }
        // the newest output stamp
        let mut max: FileStamp = mtimes[0];
        proof {
            assert(max == spec_max_stamp(snapshot.spec_stamps(), self.outputs@, 1));
        }
        let mut k: usize = 1;
        let nm = mtimes.len();
        while k < nm
            invariant
                1 <= k <= nm,
                *self == *old(self),
                *state == *old(state),
                nm == mtimes@.len(),
                nm == self.outputs@.len(),
                forall|j: int| 0 <= j < nm
                    ==> #[trigger] mtimes@[j]
                        == spec_out_stamp(snapshot.spec_stamps(), self.outputs@, j),
                max == spec_max_stamp(snapshot.spec_stamps(), self.outputs@, k as int),
            decreases nm - k,
        {
            if mtimes[k].is_ge(&max) {
                max = mtimes[k];
            }
            k = k + 1;
        }
        let ghost maxm = spec_max_stamp(snapshot.spec_stamps(),
            old(self).outputs@, old(self).outputs@.len() as int);
        proof {
            assert(max == maxm);
        }
        // any stale or newer dependency forces a relink
        let nd = self.deps.len();
        let mut d: usize = 0;
        let mut link = false;
        while d < nd && !link
            invariant
                0 <= d <= nd,
                nd == self.deps@.len(),
                *self == *old(self),
                *state == *old(state),
                max == maxm,
                link ==> exists|d2: int| 0 <= d2 < nd
                    && spec_dep_forces_link(#[trigger] self.deps@[d2], maxm),
                !link ==> forall|d2: int| 0 <= d2 < d
                    ==> !spec_dep_forces_link(#[trigger] self.deps@[d2], maxm),
            decreases nd - d,
        {
            match &self.deps[d].fingerprint.fs_status {
                FsStatus::Stale => {
                    link = true;
                }
                FsStatus::UpToDate { max_mtime: dep_max } => {
                    match dep_max {
                        Some(dm) => {
                            if dm.is_ge(&max) {
                                link = true;
                            }
                        }
                        None => {}
                    }
                }
            }
            proof {
                if link {
                    assert(spec_dep_forces_link(self.deps@[d as int], maxm));
                    assert(exists|d2: int| 0 <= d2 < nd
                        && spec_dep_forces_link(#[trigger] self.deps@[d2], maxm));
                }
            }
            d = d + 1;
        }
        if link {
            state.link = true;
        }
        if state.link {
            self.fs_status = FsStatus::Stale;
        } else {
            self.fs_status = FsStatus::UpToDate { max_mtime: Some(max) };
        }
        proof {
            if !link {
                assert(forall|d2: int| 0 <= d2 < nd
                    ==> !spec_dep_forces_link(#[trigger] old(self).deps@[d2], maxm));
            }
        }
    }
}

/// Why a fingerprint differs from the one on disk.
#[derive(Debug, Clone, Copy, PartialEq, Eq, Structural)]
pub enum CompareResult {
    CompilerChanged,
    TargetConfigurationChanged,
    ProfileConfigurationChanged,
    LocalLengthsChanged,
    DepCountChanged,
    LocalRuleChanged,
    DepChanged,
    FilesystemOutdated,
    NothingObvious,
}

impl Fingerprint {
    /// Explain why this fingerprint and an old one differ.  The checks
    /// run in a fixed order; the scalar comparisons are exact, and a
    /// rule or dependency verdict means some entry truly differs.
    /// Like its namesake diagnostic, this never declares the pair
    /// identical: with everything equal and the filesystem current it
    /// reports that nothing obvious differs.
    pub fn compare(&self, other: &Fingerprint) -> (r: CompareResult)
        requires
            fp_wf(*self),
            fp_wf(*other),
        ensures
            r == CompareResult::CompilerChanged
                <==> self.compiler_hash != other.compiler_hash,
            r == CompareResult::TargetConfigurationChanged
                <==> self.compiler_hash == other.compiler_hash
                    && self.target_hash != other.target_hash,
            r == CompareResult::ProfileConfigurationChanged
                <==> self.compiler_hash == other.compiler_hash
                    && self.target_hash == other.target_hash
                    && self.profile_hash != other.profile_hash,
            r == CompareResult::LocalLengthsChanged
                <==> self.compiler_hash == other.compiler_hash
                    && self.target_hash == other.target_hash
                    && self.profile_hash == other.profile_hash
                    && self.local@.len() != other.local@.len(),
            r == CompareResult::DepCountChanged
                <==> self.compiler_hash == other.compiler_hash
                    && self.target_hash == other.target_hash
                    && self.profile_hash == other.profile_hash
                    && self.local@.len() == other.local@.len()
                    && self.deps@.len() != other.deps@.len(),
            r == CompareResult::LocalRuleChanged
                ==> exists|j: int| 0 <= j < self.local@.len()
                    && !(#[trigger] self.local@[j]).spec_same_shape(other.local@[j]),
            r == CompareResult::DepChanged
                ==> exists|j: int| 0 <= j < self.deps@.len()
                    && ((#[trigger] self.deps@[j]).name.spec_package()
                            != other.deps@[j].name.spec_package()
                        || self.deps@[j].name.spec_target()
                            != other.deps@[j].name.spec_target()
                        || spec_hash(spec_identity(*self.deps@[j].fingerprint))
                            != spec_hash(spec_identity(*other.deps@[j].fingerprint))),
            r == CompareResult::NothingObvious
                ==> matches!(self.fs_status, FsStatus::UpToDate { .. }),
    {
        if self.compiler_hash != other.compiler_hash {
            return CompareResult::CompilerChanged;
        }
        if self.target_hash != other.target_hash {
            return CompareResult::TargetConfigurationChanged;
        }
        if self.profile_hash != other.profile_hash {
            return CompareResult::ProfileConfigurationChanged;
        }
        if self.local.len() != other.local.len() {
            return CompareResult::LocalLengthsChanged;
        }
        if self.deps.len() != other.deps.len() {
            return CompareResult::DepCountChanged;
        }
        let n = self.local.len();
        let mut i: usize = 0;
        while i < n
            invariant
                0 <= i <= n,
                n == self.local@.len(),
                n == other.local@.len(),
                fp_wf(*self),
                fp_wf(*other),
                self.compiler_hash == other.compiler_hash,
                self.target_hash == other.target_hash,
                self.profile_hash == other.profile_hash,
                self.deps@.len() == other.deps@.len(),
            decreases n - i,
        {
            let same = match (&self.local[i], &other.local[i]) {
                (
                    LocalFingerprint::CheckDepInfo { dep_info: a, .. },
                    LocalFingerprint::CheckDepInfo { dep_info: b, .. },
                ) => crate::bytes::bytes_eq(a.as_slice(), b.as_slice()),
                (
                    LocalFingerprint::RerunIfChanged { output: ao, paths: ap },
                    LocalFingerprint::RerunIfChanged { output: bo, paths: bp },
                ) => {
                    proof {
                        assert(self.local@[i as int] matches
                            LocalFingerprint::RerunIfChanged { output: o2, paths: p2 }
                            && o2@ == ao@ && p2@ == ap@);
                        assert(other.local@[i as int] matches
                            LocalFingerprint::RerunIfChanged { output: o2, paths: p2 }
                            && o2@ == bo@ && p2@ == bp@);
                    }
                    let mut ok = crate::bytes::bytes_eq(ao.as_slice(), bo.as_slice())
                        && ap.len() == bp.len();
                    if !ok {
                        proof {
                            if ao@ == bo@ {
                                assert(ap@.len() != bp@.len());
                                assert(ap@.map_values(|v: Vec<u8>| v@).len() != bp@
                                    .map_values(|v: Vec<u8>| v@).len());
                            }
                            assert(!self.local@[i as int]
                                .spec_same_shape(other.local@[i as int]));
                        }
                    }
                    if ok {
                        let np = ap.len();
                        let mut t: usize = 0;
                        while t < np
                            invariant
                                0 <= t <= np,
                                np == ap@.len(),
                                np == bp@.len(),
                                ok ==> forall|q: int| 0 <= q < t
                                    ==> (#[trigger] ap@[q])@ == bp@[q]@,
                                ok || exists|q: int| 0 <= q < np
                                    && (#[trigger] ap@[q])@ != bp@[q]@,
                            decreases np - t,
                        {
                            if !crate::bytes::bytes_eq(ap[t].as_slice(), bp[t].as_slice()) {
                                ok = false;
                            }
                            t = t + 1;
                        }
                        proof {
                            if ok {
                                assert(ap@.map_values(|v: Vec<u8>| v@)
                                    =~= bp@.map_values(|v: Vec<u8>| v@));
                                assert(self.local@[i as int]
                                    .spec_same_shape(other.local@[i as int]));
                            } else {
                                let q = choose|q: int| 0 <= q < np
                                    && (#[trigger] ap@[q])@ != bp@[q]@;
                                assert(ap@.map_values(|v: Vec<u8>| v@)[q] != bp@
                                    .map_values(|v: Vec<u8>| v@)[q]);
                                assert(ap@.map_values(|v: Vec<u8>| v@) != bp@
                                    .map_values(|v: Vec<u8>| v@));
                                assert(!self.local@[i as int]
                                    .spec_same_shape(other.local@[i as int]));
                            }
                        }
                    }
                    ok
                }
                _ => false,
            };
            if !same {
                proof {
                    assert(!self.local@[i as int].spec_same_shape(other.local@[i as int]));
                }
                return CompareResult::LocalRuleChanged;
            }
            i = i + 1;
        }
        let nd = self.deps.len();
        let mut d: usize = 0;
        while d < nd
            invariant
                0 <= d <= nd,
                nd == self.deps@.len(),
                nd == other.deps@.len(),
                fp_wf(*self),
                fp_wf(*other),
                self.compiler_hash == other.compiler_hash,
                self.target_hash == other.target_hash,
                self.profile_hash == other.profile_hash,
                self.local@.len() == other.local@.len(),
            decreases nd - d,
        {
            let a = &self.deps[d];
            let b = &other.deps[d];
            proof {
                assert(fp_wf(*self.deps@[d as int].fingerprint));
                assert(fp_wf(*other.deps@[d as int].fingerprint));
            }
            if !crate::bytes::bytes_eq(a.name.package().as_slice(), b.name.package().as_slice())
                || !crate::bytes::bytes_eq(a.name.target().as_slice(), b.name.target().as_slice())
            {
                return CompareResult::DepChanged;
            }
            let ha = a.fingerprint.hash_u64();
            let hb = b.fingerprint.hash_u64();
            if ha != hb {
                return CompareResult::DepChanged;
            }
            d = d + 1;
        }
        if !self.fs_status.up_to_date() {
            return CompareResult::FilesystemOutdated;
        }
        CompareResult::NothingObvious
    }
}

/// Hash a list of paths relative to a workspace: each path has the
/// workspace prefix stripped when it lies underneath.  The hash
/// depends only on the stripped forms, so moving the workspace leaves
/// it unchanged.
pub fn stable_hash_paths(ws: &[u8], paths: &Vec<Vec<u8>>) -> (r: u64)
    ensures
        r == spec_hash(spec_rel_bytes(ws@, paths@.map_values(|p: Vec<u8>| p@))),
{
    let mut out: Vec<u8> = Vec::new();
    let n = paths.len();
    let mut i: usize = 0;
    proof {
        assert(paths@.map_values(|p: Vec<u8>| p@).take(0)
            =~= Seq::<Seq<u8>>::empty());
        assert(out@ =~= spec_rel_bytes(ws@,
            paths@.map_values(|p: Vec<u8>| p@).take(0)));
    }
    while i < n
        invariant
            0 <= i <= n,
            n == paths@.len(),
            out@ == spec_rel_bytes(ws@, paths@.map_values(|p: Vec<u8>| p@).take(i as int)),
        decreases n - i,
    {
        let rel = match crate::paths::strip_prefix(paths[i].as_slice(), ws) {
            Some(rest) => rest,
            None => sub_vec(paths[i].as_slice(), 0, paths[i].len()),
        };
        let mut w = BinaryWriter::new();
        w.write_path(rel.as_slice());
        let piece = w.into_inner();
        push_all(&mut out, piece.as_slice());
        proof {
            let all = paths@.map_values(|p: Vec<u8>| p@);
            let t = all.take(i + 1);
            assert(t.drop_last() =~= all.take(i as int));
            assert(t.last() == all[i as int]);
            assert(out@ =~= spec_rel_bytes(ws@, t));
        }
        i = i + 1;
    }
    proof {
        assert(paths@.map_values(|p: Vec<u8>| p@).take(n as int)
            =~= paths@.map_values(|p: Vec<u8>| p@));
    }
    hash_u64(out.as_slice())
}

/// The bytes `stable_hash_paths` hashes: each path in its
/// workspace-relative form, length-prefixed.
pub open spec fn spec_rel_bytes(ws: Seq<u8>, paths: Seq<Seq<u8>>) -> Seq<u8>
    decreases paths.len(),
{
    if paths.len() == 0 {
        Seq::<u8>::empty()
    } else {
        spec_rel_bytes(ws, paths.drop_last()) + spec_framed(spec_rel_of(ws, paths.last()))
    }
}

/// A path's workspace-relative form: the suffix under the workspace,
/// or the path unchanged.
pub open spec fn spec_rel_of(ws: Seq<u8>, p: Seq<u8>) -> Seq<u8> {
    match crate::paths::spec_strip_prefix(p, ws) {
        Some(rest) => rest,
        None => p,
    }
}

/// The stable hash ignores where the workspace lives: two path lists
/// with the same workspace-relative forms hash the same, whatever the
/// two absolute workspace roots are.
pub proof fn lemma_stable_hash_workspace_independent(
    ws1: Seq<u8>,
    paths1: Seq<Seq<u8>>,
    ws2: Seq<u8>,
    paths2: Seq<Seq<u8>>,
)
    requires
        paths1.len() == paths2.len(),
        forall|i: int| 0 <= i < paths1.len()
            ==> spec_rel_of(ws1, #[trigger] paths1[i]) == spec_rel_of(ws2, paths2[i]),
    ensures
        spec_hash(spec_rel_bytes(ws1, paths1)) == spec_hash(spec_rel_bytes(ws2, paths2)),
    decreases paths1.len(),
{
    if paths1.len() > 0 {
        assert(forall|i: int| 0 <= i < paths1.len() - 1
            ==> paths1.drop_last()[i] == paths1[i] && paths2.drop_last()[i] == paths2[i]);
        lemma_rel_bytes_eq(ws1, paths1, ws2, paths2);
    }
}

proof fn lemma_rel_bytes_eq(ws1: Seq<u8>, paths1: Seq<Seq<u8>>, ws2: Seq<u8>, paths2: Seq<Seq<u8>>)
    requires
        paths1.len() == paths2.len(),
        forall|i: int| 0 <= i < paths1.len()
            ==> spec_rel_of(ws1, #[trigger] paths1[i]) == spec_rel_of(ws2, paths2[i]),
    ensures
        spec_rel_bytes(ws1, paths1) == spec_rel_bytes(ws2, paths2),
    decreases paths1.len(),
{
    if paths1.len() > 0 {
        assert(forall|i: int| 0 <= i < paths1.len() - 1
            ==> paths1.drop_last()[i] == paths1[i] && paths2.drop_last()[i] == paths2[i]);
        lemma_rel_bytes_eq(ws1, paths1.drop_last(), ws2, paths2.drop_last());
        assert(spec_rel_of(ws1, paths1.last()) == spec_rel_of(ws2, paths2.last()));
    }
}

} // verus!
