//! Little-endian framed binary codec used by all cache files.
//!
//! A writer appends `u8`/`u32`/`u64` values and length-prefixed byte
//! strings to a growing buffer; a reader consumes the same framing from
//! a slice and fails with `None` instead of running past the end.

use vstd::prelude::*;
use crate::bytes::push_all;

verus! {

/// The four little-endian bytes of a `u32`.
pub open spec fn spec_le32(v: u32) -> Seq<u8> {
    seq![
        (v & 0xff) as u8,
        ((v >> 8) & 0xff) as u8,
        ((v >> 16) & 0xff) as u8,
        ((v >> 24) & 0xff) as u8,
    ]
}

/// The eight little-endian bytes of a `u64`.
pub open spec fn spec_le64(v: u64) -> Seq<u8> {
    seq![
        (v & 0xff) as u8,
        ((v >> 8) & 0xff) as u8,
        ((v >> 16) & 0xff) as u8,
        ((v >> 24) & 0xff) as u8,
        ((v >> 32) & 0xff) as u8,
        ((v >> 40) & 0xff) as u8,
        ((v >> 48) & 0xff) as u8,
        ((v >> 56) & 0xff) as u8,
    ]
}

/// A length-prefixed byte string: the length as little-endian `u64`,
/// then the bytes themselves.
pub open spec fn spec_framed(b: Seq<u8>) -> Seq<u8> {
    spec_le64(b.len() as u64) + b
}

/// Writer half of the codec: appends framed values to a byte buffer.
pub struct BinaryWriter {
    buf: Vec<u8>,
}

impl View for BinaryWriter {
    type V = Seq<u8>;

    closed spec fn view(&self) -> Seq<u8> {
        self.buf@
    }
}

impl BinaryWriter {
    /// Fresh, empty writer.
    pub fn new() -> (r: Self)
        ensures
            r@ == Seq::<u8>::empty(),
    {
        BinaryWriter { buf: Vec::new() }
    }

    /// Fresh writer with room for `capacity` bytes.
    pub fn with_capacity(capacity: usize) -> (r: Self)
        ensures
            r@ == Seq::<u8>::empty(),
    {
        BinaryWriter { buf: Vec::with_capacity(capacity) }
    }

    /// The accumulated bytes.
    pub fn into_inner(self) -> (r: Vec<u8>)
        ensures
            r@ == self@,
    {
        self.buf
    }

    /// Ask for room for `additional` more bytes.
    pub fn reserve(&mut self, additional: usize)
        ensures
            final(self)@ == old(self)@,
    {
        self.buf.reserve(additional);
    }

    /// Append one byte.
    pub fn write_u8(&mut self, value: u8)
        ensures
            final(self)@ == old(self)@.push(value),
    {
        self.buf.push(value);
    }

    /// Append a `u32`, little endian.
    pub fn write_u32(&mut self, value: u32)
        ensures
            final(self)@ == old(self)@ + spec_le32(value),
    {
        self.buf.push((value & 0xff) as u8);
        self.buf.push(((value >> 8) & 0xff) as u8);
        self.buf.push(((value >> 16) & 0xff) as u8);
        self.buf.push(((value >> 24) & 0xff) as u8);
        proof {
            assert(self.buf@ =~= old(self)@ + spec_le32(value));
        }
    }

    /// Append a `u64`, little endian.
    pub fn write_u64(&mut self, value: u64)
        ensures
            final(self)@ == old(self)@ + spec_le64(value),
    {
        self.buf.push((value & 0xff) as u8);
        self.buf.push(((value >> 8) & 0xff) as u8);
        self.buf.push(((value >> 16) & 0xff) as u8);
        self.buf.push(((value >> 24) & 0xff) as u8);
        self.buf.push(((value >> 32) & 0xff) as u8);
        self.buf.push(((value >> 40) & 0xff) as u8);
        self.buf.push(((value >> 48) & 0xff) as u8);
        self.buf.push(((value >> 56) & 0xff) as u8);
        proof {
            assert(self.buf@ =~= old(self)@ + spec_le64(value));
        }
    }

    /// Append a length-prefixed byte string.
    pub fn write_bytes(&mut self, value: &[u8])
        ensures
            final(self)@ == old(self)@ + spec_framed(value@),
    {
        let n = value.len();
        self.write_u64(n as u64);
        push_all(&mut self.buf, value);
        proof {
            assert(self.buf@ =~= old(self)@ + spec_framed(value@));
        }
    }

    /// Append a path, stored as a length-prefixed byte string.
    pub fn write_path(&mut self, value: &[u8])
        ensures
            final(self)@ == old(self)@ + spec_framed(value@),
    {
        self.write_bytes(value);
    }
}

/// What reading one length-prefixed frame means: on success the
/// consumed prefix is exactly the frame of the returned bytes; `None`
/// comes only when the remaining input is shorter than the frame it
/// announces (or than the length prefix itself).
pub open spec fn read_frame_post<'a>(
    pre: BinaryReader<'a>,
    post: BinaryReader<'a>,
    r: Option<Vec<u8>>,
) -> bool {
    match r {
        Some(v) => pre.remaining().len() >= 8 + v@.len()
            && pre.remaining().subrange(0, 8 + v@.len() as int) == spec_framed(v@)
            && post.remaining() == pre.remaining().skip(8 + v@.len() as int),
        None => (pre.remaining().len() < 8 && post.remaining() == pre.remaining())
            || exists|n: u64| pre.remaining().subrange(0, 8) == spec_le64(n)
                && pre.remaining().len() < 8 + n
                && post.remaining() == pre.remaining().skip(8),
    }
}

/// Reader half of the codec: consumes framed values from a slice.
/// `pos` only moves forward.
pub struct BinaryReader<'a> {
    data: &'a [u8],
    pos: usize,
}

impl<'a> BinaryReader<'a> {
    /// What remains to be read.
    pub closed spec fn remaining(&self) -> Seq<u8> {
        self.data@.subrange(self.pos as int, self.data@.len() as int)
    }

    /// The reader is in a sane state.
    pub closed spec fn wf(&self) -> bool {
        self.pos <= self.data@.len()
    }

    /// Start reading `data` from the front.
    pub fn new(data: &'a [u8]) -> (r: Self)
        ensures
            r.wf(),
            r.remaining() == data@,
    {
        let r = BinaryReader { data, pos: 0 };
        proof {
            assert(r.remaining() =~= data@);
        }
        r
    }

    /// Read one byte.
    pub fn read_u8(&mut self) -> (r: Option<u8>)
        requires
            old(self).wf(),
        ensures
            final(self).wf(),
            match r {
                Some(v) => old(self).remaining().len() >= 1
                    && v == old(self).remaining()[0]
                    && final(self).remaining() == old(self).remaining().skip(1),
                None => old(self).remaining().len() < 1
                    && final(self).remaining() == old(self).remaining(),
            },
    {
        if self.pos < self.data.len() {
            let v = self.data[self.pos];
            self.pos = self.pos + 1;
            proof {
                assert(final(self).remaining() =~= old(self).remaining().skip(1));
            }
            Some(v)
        } else {
            None
        }
    }

    /// Read a `u32`, little endian.
    pub fn read_u32(&mut self) -> (r: Option<u32>)
        requires
            old(self).wf(),
        ensures
            final(self).wf(),
            match r {
                Some(v) => old(self).remaining().len() >= 4
                    && old(self).remaining().subrange(0, 4) == spec_le32(v)
                    && final(self).remaining() == old(self).remaining().skip(4),
                None => old(self).remaining().len() < 4
                    && final(self).remaining() == old(self).remaining(),
            },
    {
        if self.data.len() - self.pos >= 4 {
            let b0 = self.data[self.pos];
            let b1 = self.data[self.pos + 1];
            let b2 = self.data[self.pos + 2];
            let b3 = self.data[self.pos + 3];
            let v = (b0 as u32)
                | ((b1 as u32) << 8)
                | ((b2 as u32) << 16)
                | ((b3 as u32) << 24);
            self.pos = self.pos + 4;
            proof {
                lemma_le32_of_bytes(b0, b1, b2, b3);
                assert(old(self).remaining().subrange(0, 4) =~= seq![b0, b1, b2, b3]);
                assert(final(self).remaining() =~= old(self).remaining().skip(4));
            }
            Some(v)
        } else {
            None
        }
    }

    /// Read a `u64`, little endian.
    pub fn read_u64(&mut self) -> (r: Option<u64>)
        requires
            old(self).wf(),
        ensures
            final(self).wf(),
            match r {
                Some(v) => old(self).remaining().len() >= 8
                    && old(self).remaining().subrange(0, 8) == spec_le64(v)
                    && final(self).remaining() == old(self).remaining().skip(8),
                None => old(self).remaining().len() < 8
                    && final(self).remaining() == old(self).remaining(),
            },
    {
        if self.data.len() - self.pos >= 8 {
            let b0 = self.data[self.pos];
            let b1 = self.data[self.pos + 1];
            let b2 = self.data[self.pos + 2];
            let b3 = self.data[self.pos + 3];
            let b4 = self.data[self.pos + 4];
            let b5 = self.data[self.pos + 5];
            let b6 = self.data[self.pos + 6];
            let b7 = self.data[self.pos + 7];
            let v = (b0 as u64)
                | ((b1 as u64) << 8)
                | ((b2 as u64) << 16)
                | ((b3 as u64) << 24)
                | ((b4 as u64) << 32)
                | ((b5 as u64) << 40)
                | ((b6 as u64) << 48)
                | ((b7 as u64) << 56);
            self.pos = self.pos + 8;
            proof {
                lemma_le64_of_bytes(b0, b1, b2, b3, b4, b5, b6, b7);
                assert(old(self).remaining().subrange(0, 8)
                    =~= seq![b0, b1, b2, b3, b4, b5, b6, b7]);
                assert(final(self).remaining() =~= old(self).remaining().skip(8));
            }
            Some(v)
        } else {
            None
        }
    }

    /// Read a length-prefixed byte string.
    pub fn read_bytes(&mut self) -> (r: Option<Vec<u8>>)
        requires
            old(self).wf(),
        ensures
            final(self).wf(),
            read_frame_post(*old(self), *final(self), r),
    {
        let ghost initial = *self;
        let n64 = match self.read_u64() {
            Some(n) => n,
            None => {
                proof {
                    assert(initial.remaining().len() < 8
                        && self.remaining() == initial.remaining());
                    assert(read_frame_post(initial, *self, None::<Vec<u8>>));
                }
                return None;
            }
        };
        let dlen = self.data.len();
        proof {
            assert(self.remaining() == initial.remaining().skip(8));
            assert(self.remaining().len() == dlen - self.pos);
            assert(initial.remaining().len() == 8 + self.remaining().len());
        }
        if n64 > usize::MAX as u64 {
            proof {
                let nn = n64;
                assert(self.remaining().len() <= usize::MAX);
                assert(initial.remaining().subrange(0, 8) == spec_le64(nn)
                    && initial.remaining().len() < 8 + nn
                    && self.remaining() == initial.remaining().skip(8));
                assert(read_frame_post(initial, *self, None::<Vec<u8>>));
            }
            return None;
        }
        let n = n64 as usize;
        if dlen - self.pos < n {
            proof {
                let nn = n64;
                assert(initial.remaining().len() < 8 + nn);
                assert(initial.remaining().subrange(0, 8) == spec_le64(nn)
                    && initial.remaining().len() < 8 + nn
                    && self.remaining() == initial.remaining().skip(8));
                assert(read_frame_post(initial, *self, None::<Vec<u8>>));
            }
            return None;
        }
        let mut out: Vec<u8> = Vec::new();
        let ghost after_len = *self;
        let mut i: usize = 0;
        while i < n
            invariant
                *self == after_len,
                self.wf(),
                0 <= i <= n,
                self.pos + n <= dlen,
                dlen == self.data@.len(),
                out@ == self.remaining().subrange(0, i as int),
            decreases n - i,
        {
            out.push(self.data[self.pos + i]);
            proof {
                assert(self.remaining()[i as int] == self.data@[self.pos + i]);
                assert(out@ =~= self.remaining().subrange(0, i + 1));
            }
            i = i + 1;
        }
        self.pos = self.pos + n;
        proof {
            let rem0 = initial.remaining();
            assert(out@ == after_len.remaining().subrange(0, n as int));
            assert(after_len.remaining() == rem0.skip(8));
            assert(out@.len() == n);
            assert(forall|j: int| 0 <= j < n ==> rem0.skip(8)[j] == rem0[8 + j]);
            assert(forall|j: int| 0 <= j < n ==> out@[j] == rem0[8 + j]);
            assert(rem0.subrange(0, 8) == spec_le64(n64));
            assert(n64 == n as u64);
            assert(out@.len() as u64 == n as u64);
            assert(spec_framed(out@) == spec_le64(n as u64) + out@);
            assert(forall|j: int| 0 <= j < 8 ==> rem0[j] == rem0.subrange(0, 8)[j]);
            assert(rem0.subrange(0, 8 + n) =~= spec_framed(out@));
            assert(final(self).remaining() =~= after_len.remaining().skip(n as int));
            assert(final(self).remaining() =~= rem0.skip(8 + n));
        }
        Some(out)
    }

    /// Read a path, stored as a length-prefixed byte string.
    pub fn read_path(&mut self) -> (r: Option<Vec<u8>>)
        requires
            old(self).wf(),
        ensures
            final(self).wf(),
            read_frame_post(*old(self), *final(self), r),
    {
        self.read_bytes()
    }
}

/// Packing four little-endian bytes gives back exactly those bytes.
proof fn lemma_le32_of_bytes(b0: u8, b1: u8, b2: u8, b3: u8)
    ensures
        spec_le32((b0 as u32) | ((b1 as u32) << 8) | ((b2 as u32) << 16) | ((b3 as u32) << 24))
            == seq![b0, b1, b2, b3],
{
    let v = (b0 as u32) | ((b1 as u32) << 8) | ((b2 as u32) << 16) | ((b3 as u32) << 24);
    assert(v == (b0 as u32) | ((b1 as u32) << 8) | ((b2 as u32) << 16) | ((b3 as u32) << 24)
        ==> (v & 0xff) as u8 == b0 && ((v >> 8) & 0xff) as u8 == b1
            && ((v >> 16) & 0xff) as u8 == b2 && ((v >> 24) & 0xff) as u8 == b3)
        by (bit_vector);
    assert(spec_le32(v) =~= seq![b0, b1, b2, b3]);
}

/// Packing eight little-endian bytes gives back exactly those bytes.
proof fn lemma_le64_of_bytes(b0: u8, b1: u8, b2: u8, b3: u8, b4: u8, b5: u8, b6: u8, b7: u8)
    ensures
        spec_le64(
            (b0 as u64) | ((b1 as u64) << 8) | ((b2 as u64) << 16) | ((b3 as u64) << 24)
            | ((b4 as u64) << 32) | ((b5 as u64) << 40) | ((b6 as u64) << 48)
            | ((b7 as u64) << 56),
        ) == seq![b0, b1, b2, b3, b4, b5, b6, b7],
{
    let v = (b0 as u64) | ((b1 as u64) << 8) | ((b2 as u64) << 16) | ((b3 as u64) << 24)
        | ((b4 as u64) << 32) | ((b5 as u64) << 40) | ((b6 as u64) << 48) | ((b7 as u64) << 56);
    assert(v == (b0 as u64) | ((b1 as u64) << 8) | ((b2 as u64) << 16) | ((b3 as u64) << 24)
        | ((b4 as u64) << 32) | ((b5 as u64) << 40) | ((b6 as u64) << 48) | ((b7 as u64) << 56)
        ==> (v & 0xff) as u8 == b0 && ((v >> 8) & 0xff) as u8 == b1
            && ((v >> 16) & 0xff) as u8 == b2 && ((v >> 24) & 0xff) as u8 == b3
            && ((v >> 32) & 0xff) as u8 == b4 && ((v >> 40) & 0xff) as u8 == b5
            && ((v >> 48) & 0xff) as u8 == b6 && ((v >> 56) & 0xff) as u8 == b7)
        by (bit_vector);
    assert(spec_le64(v) =~= seq![b0, b1, b2, b3, b4, b5, b6, b7]);
}

/// Round trip for `u32`: the little-endian encoding determines the
/// value, so reading back what the writer wrote yields the original.
pub proof fn lemma_le32_injective(a: u32, b: u32)
    requires
        spec_le32(a) == spec_le32(b),
    ensures
        a == b,
{
    assert(spec_le32(a)[0] == spec_le32(b)[0]);
    assert(spec_le32(a)[1] == spec_le32(b)[1]);
    assert(spec_le32(a)[2] == spec_le32(b)[2]);
    assert(spec_le32(a)[3] == spec_le32(b)[3]);
    assert(((a & 0xff) as u8 == (b & 0xff) as u8
        && ((a >> 8) & 0xff) as u8 == ((b >> 8) & 0xff) as u8
        && ((a >> 16) & 0xff) as u8 == ((b >> 16) & 0xff) as u8
        && ((a >> 24) & 0xff) as u8 == ((b >> 24) & 0xff) as u8) ==> a == b) by (bit_vector);
}

/// Round trip for `u64`: the little-endian encoding determines the
/// value, so reading back what the writer wrote yields the original.
pub proof fn lemma_le64_injective(a: u64, b: u64)
    requires
        spec_le64(a) == spec_le64(b),
    ensures
        a == b,
{
    assert(spec_le64(a)[0] == spec_le64(b)[0]);
    assert(spec_le64(a)[1] == spec_le64(b)[1]);
    assert(spec_le64(a)[2] == spec_le64(b)[2]);
    assert(spec_le64(a)[3] == spec_le64(b)[3]);
    assert(spec_le64(a)[4] == spec_le64(b)[4]);
    assert(spec_le64(a)[5] == spec_le64(b)[5]);
    assert(spec_le64(a)[6] == spec_le64(b)[6]);
    assert(spec_le64(a)[7] == spec_le64(b)[7]);
    assert(((a & 0xff) as u8 == (b & 0xff) as u8
        && ((a >> 8) & 0xff) as u8 == ((b >> 8) & 0xff) as u8
        && ((a >> 16) & 0xff) as u8 == ((b >> 16) & 0xff) as u8
        && ((a >> 24) & 0xff) as u8 == ((b >> 24) & 0xff) as u8
        && ((a >> 32) & 0xff) as u8 == ((b >> 32) & 0xff) as u8
        && ((a >> 40) & 0xff) as u8 == ((b >> 40) & 0xff) as u8
        && ((a >> 48) & 0xff) as u8 == ((b >> 48) & 0xff) as u8
        && ((a >> 56) & 0xff) as u8 == ((b >> 56) & 0xff) as u8) ==> a == b) by (bit_vector);
}

/// Round trip for byte strings: the framed encoding determines the
/// bytes, so a reader gives back exactly what the writer framed.
pub proof fn lemma_framed_injective(a: Seq<u8>, b: Seq<u8>)
    requires
        spec_framed(a) == spec_framed(b),
        a.len() <= u64::MAX,
        b.len() <= u64::MAX,
    ensures
        a == b,
{
    assert(spec_framed(a).subrange(0, 8) =~= spec_le64(a.len() as u64));
    assert(spec_framed(b).subrange(0, 8) =~= spec_le64(b.len() as u64));
    lemma_le64_injective(a.len() as u64, b.len() as u64);
    assert(a.len() == b.len());
    assert(a =~= b) by {
        assert forall|i: int| 0 <= i < a.len() implies a[i] == b[i] by {
            assert(spec_framed(a)[8 + i] == a[i]);
            assert(spec_framed(b)[8 + i] == b[i]);
        }
    }
}

} // verus!
