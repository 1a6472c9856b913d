//! A bounds-checked cursor over a binary payload. Every advance is checked
//! and a read past the end fails with `Error::TruncatedData`.
use vstd::prelude::*;

use crate::errors::Error;

verus! {

/// The unsigned big-endian value of two bytes.
pub open spec fn spec_be_u16(b: Seq<u8>) -> u16
    recommends
        b.len() == 2,
{
    (b[0] * 0x100 + b[1]) as u16
}

/// The unsigned big-endian value of four bytes.
pub open spec fn spec_be_u32(b: Seq<u8>) -> u32
    recommends
        b.len() == 4,
{
    (b[0] * 0x1000000 + b[1] * 0x10000 + b[2] * 0x100 + b[3]) as u32
}

/// A sequential reader over a byte payload.
pub struct Reader<'a> {
    pub data: &'a Vec<u8>,
    pub pos: usize,
}

impl<'a> Reader<'a> {
    /// The bytes the reader walks over.
    pub open spec fn bytes(self) -> Seq<u8> {
        self.data@
    }

    /// The cursor's position.
    pub open spec fn position(self) -> int {
        self.pos as int
    }

    /// The cursor never stands past the end.
    pub open spec fn wf(self) -> bool {
        self.pos <= self.data@.len()
    }

    /// Whether `n` more bytes are available at the cursor.
    pub open spec fn can_take(self, n: int) -> bool {
        self.position() + n <= self.bytes().len()
    }

    /// A reader standing at the start of `data`.
    pub fn new(data: &'a Vec<u8>) -> (r: Reader<'a>)
        ensures
            r.wf(),
            r.bytes() == data@,
            r.position() == 0,
    {
        Reader { data, pos: 0 }
    }

    /// How many bytes are left past the cursor.
    pub fn remaining(&self) -> (n: usize)
        requires
            self.wf(),
        ensures
            n == self.bytes().len() - self.position(),
    {
        self.data.len() - self.pos
    }

    /// Read one byte, or fail with `TruncatedData` at the end.
    pub fn read_u8(&mut self) -> (r: Result<u8, Error>)
        requires
            old(self).wf(),
        ensures
            final(self).wf(),
            final(self).bytes() == old(self).bytes(),
            r is Ok <==> old(self).can_take(1),
            r matches Ok(v) ==> {
                &&& v == old(self).bytes()[old(self).position()]
                &&& final(self).position() == old(self).position() + 1
            },
            r is Err ==> r == Result::<u8, Error>::Err(Error::TruncatedData)
                && final(self).position() == old(self).position(),
    {
        if self.pos < self.data.len() {
            let v = self.data[self.pos];
            self.pos = self.pos + 1;
            Ok(v)
        } else {
            Err(Error::TruncatedData)
        }
    }

    /// Read `n` bytes into a fresh vector, or fail with `TruncatedData`.
    pub fn read_bytes(&mut self, n: usize) -> (r: Result<Vec<u8>, Error>)
        requires
            old(self).wf(),
        ensures
            final(self).wf(),
            final(self).bytes() == old(self).bytes(),
            r is Ok <==> old(self).can_take(n as int),
            r matches Ok(v) ==> {
                &&& v@ == old(self).bytes().subrange(
                    old(self).position(),
                    old(self).position() + n,
                )
                &&& final(self).position() == old(self).position() + n
            },
            r is Err ==> r == Result::<Vec<u8>, Error>::Err(Error::TruncatedData)
                && final(self).position() == old(self).position(),
    {
        if n <= self.data.len() - self.pos {
            let mut out: Vec<u8> = Vec::new();
            let mut i: usize = 0;
            while i < n
                invariant
                    self.pos + n <= self.data@.len(),
                    self.pos + n <= usize::MAX,
                    i <= n,
                    out@ == self.data@.subrange(self.pos as int, self.pos + i),
                decreases n - i,
            {
                out.push(self.data[self.pos + i]);
                i = i + 1;
                assert(out@ =~= self.data@.subrange(self.pos as int, self.pos + i));
            }
            self.pos = self.pos + n;
            Ok(out)
        } else {
            Err(Error::TruncatedData)
        }
    }

    /// Read a two-byte big-endian integer, or fail with `TruncatedData`.
    pub fn read_be_u16(&mut self) -> (r: Result<u16, Error>)
        requires
            old(self).wf(),
        ensures
            final(self).wf(),
            final(self).bytes() == old(self).bytes(),
            r is Ok <==> old(self).can_take(2),
            r matches Ok(v) ==> {
                &&& v == spec_be_u16(
                    old(self).bytes().subrange(old(self).position(), old(self).position() + 2),
                )
                &&& final(self).position() == old(self).position() + 2
            },
            r is Err ==> r == Result::<u16, Error>::Err(Error::TruncatedData)
                && final(self).position() == old(self).position(),
    {
        if 2 <= self.data.len() - self.pos {
            let b0 = self.data[self.pos];
            let b1 = self.data[self.pos + 1];
            self.pos = self.pos + 2;
            let v: u16 = (b0 as u16) * 0x100 + (b1 as u16);
            proof {
                let w = old(self).bytes().subrange(old(self).position(), old(self).position() + 2);
                assert(w[0] == b0 && w[1] == b1);
            }
            Ok(v)
        } else {
            Err(Error::TruncatedData)
        }
    }

    /// Read a four-byte big-endian integer, or fail with `TruncatedData`.
    pub fn read_be_u32(&mut self) -> (r: Result<u32, Error>)
        requires
            old(self).wf(),
        ensures
            final(self).wf(),
            final(self).bytes() == old(self).bytes(),
            r is Ok <==> old(self).can_take(4),
            r matches Ok(v) ==> {
                &&& v == spec_be_u32(
                    old(self).bytes().subrange(old(self).position(), old(self).position() + 4),
                )
                &&& final(self).position() == old(self).position() + 4
            },
            r is Err ==> r == Result::<u32, Error>::Err(Error::TruncatedData)
                && final(self).position() == old(self).position(),
    {
        if 4 <= self.data.len() - self.pos {
            let b0 = self.data[self.pos];
            let b1 = self.data[self.pos + 1];
            let b2 = self.data[self.pos + 2];
            let b3 = self.data[self.pos + 3];
            self.pos = self.pos + 4;
            let v: u32 = (b0 as u32) * 0x1000000 + (b1 as u32) * 0x10000 + (b2 as u32) * 0x100
                + (b3 as u32);
            proof {
                let w = old(self).bytes().subrange(old(self).position(), old(self).position() + 4);
                assert(w[0] == b0 && w[1] == b1 && w[2] == b2 && w[3] == b3);
            }
            Ok(v)
        } else {
            Err(Error::TruncatedData)
        }
    }
}

} // verus!
