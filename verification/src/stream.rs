//! A stream of class file bytes, read front to back.
use vstd::prelude::*;
use crate::error::{ClassFileError, ClassFileErrorV, unexpected_eof};

verus! {

/// The big-endian value of the two bytes at `i` and `i + 1`.
pub open spec fn be16(b: Seq<u8>, i: int) -> u16 {
    (b[i] as int * 0x100 + b[i + 1] as int) as u16
}

/// The big-endian value of the four bytes from `i`.
pub open spec fn be32(b: Seq<u8>, i: int) -> u32 {
    (be16(b, i) as int * 0x10000 + be16(b, i + 2) as int) as u32
}

/// The big-endian value of the eight bytes from `i`.
pub open spec fn be64(b: Seq<u8>, i: int) -> u64 {
    (be32(b, i) as int * 0x1_0000_0000 + be32(b, i + 4) as int) as u64
}

/// What reading an item of `n` bytes (of value `v`) from the front of `b`
/// gives: the value and its length, or the end-of-stream error.
pub open spec fn fixed<V>(b: Seq<u8>, n: nat, v: V) -> Result<(V, nat), ClassFileErrorV> {
    if b.len() >= n {
        Ok((v, n))
    } else {
        Err(ClassFileErrorV::IoError)
    }
}

/// A utility wrapper to read class file items from bytes. The bytes are
/// read front to back; `position` counts those read so far.
pub struct ClassFileStream {
    data: Vec<u8>,
    position: usize,
}

impl ClassFileStream {
    /// The stream's bytes, from the first.
    pub closed spec fn data(self) -> Seq<u8> {
        self.data@
    }

    /// How many bytes were read.
    pub closed spec fn pos(self) -> int {
        self.position as int
    }

    /// The stream is coherent: it never read past its end.
    pub open spec fn wf(self) -> bool {
        0 <= self.pos() <= self.data().len() <= usize::MAX
    }

    /// The bytes that are still to be read.
    pub open spec fn rest(self) -> Seq<u8> {
        self.data().subrange(self.pos(), self.data().len() as int)
    }

    /// Create a new stream over some bytes.
    pub fn new(data: Vec<u8>) -> (r: Self)
        ensures
            r.wf(),
            r.data() == data@,
            r.pos() == 0,
            r.rest() == data@,
    {
        assert(data@.len() == data.len());
        let r = Self { data, position: 0 };
        assert(r.rest() =~= data@);
        r
    }

    /// How many bytes were read so far.
    pub fn position(&self) -> (r: usize)
        ensures
            r == self.pos(),
    {
        self.position
    }

    /// Whether the bytes are all read.
    pub fn is_empty(&self) -> (r: bool)
        requires
            self.wf(),
        ensures
            r == (self.rest().len() == 0),
    {
        self.position >= self.data.len()
    }

    /// Leave the rest of the bytes unread and stand at the end.
    pub(crate) fn skip_to_end(&mut self)
        ensures
            final(self).wf(),
            final(self).data() == old(self).data(),
            final(self).pos() == old(self).data().len(),
    {
        self.position = self.data.len();
    }

    /// Take `n` bytes, or report the end of the stream (and stay where it
    /// stands).
    fn take_bytes(&mut self, n: usize) -> (r: Result<usize, ClassFileError>)
        requires
            old(self).wf(),
        ensures
            final(self).wf(),
            final(self).data() == old(self).data(),
            match r {
                Ok(start) => start == old(self).pos() && old(self).rest().len() >= n
                    && final(self).pos() == old(self).pos() + n,
                Err(e) => old(self).rest().len() < n && e@ == ClassFileErrorV::IoError
                    && final(self).pos() == old(self).pos(),
            },
    {
        if n <= self.data.len() - self.position {
            let start = self.position;
            self.position = self.position + n;
            Ok(start)
        } else {
            Err(ClassFileError::IoError(unexpected_eof()))
        }
    }

    /// Read an unsigned 4-byte (big-endian) integer from the stream.
    pub fn read_u4(&mut self) -> (r: Result<u32, ClassFileError>)
        requires
            old(self).wf(),
        ensures
            reads_as(*old(self), *final(self), r, fixed(old(self).rest(), 4, be32(old(self).rest(), 0))),
            r is Err ==> final(self).pos() == old(self).pos(),
    {
        let start = self.take_bytes(4)?;
        let b0 = self.data[start] as u32;
        let b1 = self.data[start + 1] as u32;
        let b2 = self.data[start + 2] as u32;
        let b3 = self.data[start + 3] as u32;
        proof {
            let b = old(self).rest();
            assert(b[0] == self.data()[start as int]);
            assert(b[1] == self.data()[start + 1]);
            assert(b[2] == self.data()[start + 2]);
            assert(b[3] == self.data()[start + 3]);
        }
        Ok(((b0 * 0x100 + b1) * 0x10000) + (b2 * 0x100 + b3))
    }

    /// Read an unsigned 2-byte (big-endian) integer from the stream.
    pub fn read_u2(&mut self) -> (r: Result<u16, ClassFileError>)
        requires
            old(self).wf(),
        ensures
            reads_as(*old(self), *final(self), r, fixed(old(self).rest(), 2, be16(old(self).rest(), 0))),
            r is Err ==> final(self).pos() == old(self).pos(),
    {
        let start = self.take_bytes(2)?;
        let b0 = self.data[start] as u16;
        let b1 = self.data[start + 1] as u16;
        proof {
            let b = old(self).rest();
            assert(b[0] == self.data()[start as int]);
            assert(b[1] == self.data()[start + 1]);
        }
        Ok(b0 * 0x100 + b1)
    }

    /// Read an unsigned byte from the stream.
    pub fn read_u1(&mut self) -> (r: Result<u8, ClassFileError>)
        requires
            old(self).wf(),
        ensures
            reads_as(*old(self), *final(self), r, fixed(old(self).rest(), 1, old(self).rest()[0])),
            r is Err ==> final(self).pos() == old(self).pos(),
    {
        let start = self.take_bytes(1)?;
        proof {
            assert(old(self).rest()[0] == self.data()[start as int]);
        }
        Ok(self.data[start])
    }

    /// Read `S` bytes from the stream.
    pub fn read<const S: usize>(&mut self) -> (r: Result<[u8; S], ClassFileError>)
        requires
            old(self).wf(),
        ensures
            reads_as(*old(self), *final(self), r, fixed(old(self).rest(), S as nat, old(self).rest().take(S as int))),
            r is Err ==> final(self).pos() == old(self).pos(),
    {
        let start = self.take_bytes(S)?;
        let mut w = [0u8; S];
        let mut i: usize = 0;
        while i < S
            invariant
                i <= S,
                start + S <= self.data.len(),
                self.data() == old(self).data(),
                start == old(self).pos(),
                forall|j: int| 0 <= j < i ==> w@[j] == self.data()[start + j],
            decreases S - i,
        {
            w[i] = self.data[start + i];
            i = i + 1;
        }
        assert(w@ =~= old(self).rest().take(S as int));
        Ok(w)
    }

    /// Read `l` bytes from the stream, `l` given at run time.
    pub fn read_dynamic(&mut self, l: usize) -> (r: Result<Vec<u8>, ClassFileError>)
        requires
            old(self).wf(),
        ensures
            reads_as(*old(self), *final(self), r, fixed(old(self).rest(), l as nat, old(self).rest().take(l as int))),
            r is Err ==> final(self).pos() == old(self).pos(),
    {
        let start = self.take_bytes(l)?;
        let mut w: Vec<u8> = Vec::new();
        let mut i: usize = 0;
        while i < l
            invariant
                i <= l,
                start + l <= self.data.len(),
                self.data() == old(self).data(),
                start == old(self).pos(),
                w@.len() == i,
                forall|j: int| 0 <= j < i ==> w@[j] == self.data()[start + j],
            decreases l - i,
        {
            w.push(self.data[start + i]);
            i = i + 1;
        }
        assert(w@ =~= old(self).rest().take(l as int));
        Ok(w)
    }
}

/// `r`, returned by reading from stream `old` (which became `new`), is
/// what `d` describes: the value read and the bytes it took, or the error.
/// The bytes of the stream never change.
pub open spec fn reads_as<T: View>(
    old: ClassFileStream,
    new: ClassFileStream,
    r: Result<T, ClassFileError>,
    d: Result<(T::V, nat), ClassFileErrorV>,
) -> bool {
    &&& new.wf()
    &&& new.data() == old.data()
    &&& match d {
        Ok((v, n)) => r matches Ok(x) && x@ == v && new.pos() == old.pos() + n,
        Err(e) => r matches Err(x) && x@ == e,
    }
}

} // verus!
