use vstd::prelude::*;

use crate::error::HprofError;

verus! {

/// Big-endian value of the first four bytes of `s`.
pub open spec fn be_u32(s: Seq<u8>) -> u32
    recommends
        s.len() >= 4,
{
    (s[0] as int * 0x1000000 + s[1] as int * 0x10000 + s[2] as int * 0x100 + s[3] as int) as u32
}

/// Big-endian value of the first eight bytes of `s`.
pub open spec fn be_u64(s: Seq<u8>) -> u64
    recommends
        s.len() >= 8,
{
    (be_u32(s) as int * 0x1_0000_0000 + be_u32(s.subrange(4, s.len() as int)) as int) as u64
}

/// The two's-complement reading of a 32-bit word.
pub open spec fn signed_of(v: u32) -> i32 {
    if v < 0x8000_0000 {
        v as i32
    } else {
        (v as int - 0x1_0000_0000) as i32
    }
}

/// Big-endian signed value of the first four bytes of `s`.
pub open spec fn be_i32(s: Seq<u8>) -> i32
    recommends
        s.len() >= 4,
{
    signed_of(be_u32(s))
}

/// A sequential, byte-exact cursor over an input held in memory.
pub struct ByteReader {
    bytes: Vec<u8>,
    pos: usize,
}

impl ByteReader {
    /// All bytes of the input.
    pub closed spec fn data(&self) -> Seq<u8> {
        self.bytes@
    }

    /// How many bytes have been consumed.
    pub closed spec fn position(&self) -> nat {
        self.pos as nat
    }

    pub open spec fn wf(&self) -> bool {
        self.position() <= self.data().len()
    }

    /// The bytes not yet consumed.
    pub open spec fn rest(&self) -> Seq<u8> {
        self.data().subrange(self.position() as int, self.data().len() as int)
    }

    /// The reader after consuming `n` more bytes of the same input.
    pub open spec fn advanced(&self, next: &Self, n: nat) -> bool {
        &&& next.data() == self.data()
        &&& next.position() == self.position() + n
        &&& next.wf()
    }

    pub fn new(bytes: Vec<u8>) -> (r: ByteReader)
        ensures
            r.wf(),
            r.data() == bytes@,
            r.position() == 0,
    {
        ByteReader { bytes, pos: 0 }
    }

    /// Number of bytes not yet consumed.
    pub fn remaining(&self) -> (n: usize)
        requires
            self.wf(),
        ensures
            n == self.rest().len(),
    {
        self.bytes.len() - self.pos
    }

    /// Consumes one byte.
    pub fn read_u8(&mut self) -> (r: Result<u8, HprofError>)
        requires
            old(self).wf(),
        ensures
            match r {
                Ok(v) => old(self).rest().len() >= 1 && v == old(self).rest()[0]
                    && old(self).advanced(final(self), 1),
                Err(e) => old(self).rest().len() < 1 && e == HprofError::TruncatedInput
                    && *final(self) == *old(self),
            },
    {
        if self.bytes.len() - self.pos < 1 {
            return Err(HprofError::TruncatedInput);
        }
        let v = self.bytes[self.pos];
        self.pos = self.pos + 1;
        Ok(v)
    }

    /// Consumes four bytes as a big-endian unsigned integer.
    pub fn read_u32(&mut self) -> (r: Result<u32, HprofError>)
        requires
            old(self).wf(),
        ensures
            match r {
                Ok(v) => old(self).rest().len() >= 4 && v == be_u32(old(self).rest())
                    && old(self).advanced(final(self), 4),
                Err(e) => old(self).rest().len() < 4 && e == HprofError::TruncatedInput
                    && *final(self) == *old(self),
            },
    {
        if self.bytes.len() - self.pos < 4 {
            return Err(HprofError::TruncatedInput);
        }
        let p = self.pos;
        let v: u32 = self.bytes[p] as u32 * 0x1000000 + self.bytes[p + 1] as u32 * 0x10000
            + self.bytes[p + 2] as u32 * 0x100 + self.bytes[p + 3] as u32;
        self.pos = p + 4;
        Ok(v)
    }

    /// The big-endian unsigned integer at `offset` bytes ahead, without consuming anything.
    pub fn peek_u32(&self, offset: usize) -> (r: Result<u32, HprofError>)
        requires
            self.wf(),
        ensures
            match r {
                Ok(v) => self.rest().len() >= offset + 4 && v == be_u32(
                    self.rest().subrange(offset as int, self.rest().len() as int),
                ),
                Err(e) => self.rest().len() < offset + 4 && e == HprofError::TruncatedInput,
            },
    {
        if self.bytes.len() - self.pos < 4 || self.bytes.len() - self.pos - 4 < offset {
            return Err(HprofError::TruncatedInput);
        }
        let p = self.pos + offset;
        let v: u32 = self.bytes[p] as u32 * 0x1000000 + self.bytes[p + 1] as u32 * 0x10000
            + self.bytes[p + 2] as u32 * 0x100 + self.bytes[p + 3] as u32;
        Ok(v)
    }

    /// Consumes four bytes as a big-endian two's-complement integer.
    pub fn read_i32(&mut self) -> (r: Result<i32, HprofError>)
        requires
            old(self).wf(),
        ensures
            match r {
                Ok(v) => old(self).rest().len() >= 4 && v == be_i32(old(self).rest())
                    && old(self).advanced(final(self), 4),
                Err(e) => old(self).rest().len() < 4 && e == HprofError::TruncatedInput
                    && *final(self) == *old(self),
            },
    {
        let w = self.read_u32()?;
        if w < 0x8000_0000 {
            Ok(w as i32)
        } else {
            let low = (w - 0x8000_0000) as i32;
            Ok(low - 0x7fff_ffff - 1)
        }
    }

    /// Consumes eight bytes as a big-endian unsigned integer.
    pub fn read_u64(&mut self) -> (r: Result<u64, HprofError>)
        requires
            old(self).wf(),
        ensures
            match r {
                Ok(v) => old(self).rest().len() >= 8 && v == be_u64(old(self).rest())
                    && old(self).advanced(final(self), 8),
                Err(e) => old(self).rest().len() < 8 && e == HprofError::TruncatedInput
                    && *final(self) == *old(self),
            },
    {
        if self.bytes.len() - self.pos < 8 {
            return Err(HprofError::TruncatedInput);
        }
        let ghost start = *self;
        let hi = self.read_u32()?;
        let ghost mid = *self;
        let lo = self.read_u32()?;
        proof {
            let s = start.rest();
            assert(mid.rest() =~= s.subrange(4, s.len() as int));
        }
        Ok(hi as u64 * 0x1_0000_0000 + lo as u64)
    }

    /// Consumes `n` raw bytes.
    pub fn read_bytes(&mut self, n: usize) -> (r: Result<Vec<u8>, HprofError>)
        requires
            old(self).wf(),
        ensures
            match r {
                Ok(v) => old(self).rest().len() >= n && v@ == old(self).rest().subrange(0, n as int)
                    && old(self).advanced(final(self), n as nat),
                Err(e) => old(self).rest().len() < n && e == HprofError::TruncatedInput
                    && *final(self) == *old(self),
            },
    {
        if self.bytes.len() - self.pos < n {
            return Err(HprofError::TruncatedInput);
        }
        let mut out: Vec<u8> = Vec::new();
        let mut i: usize = 0;
        while i < n
            invariant
                self.wf(),
                self.pos + n <= self.bytes.len(),
                i <= n,
                out@ == self.bytes@.subrange(self.pos as int, self.pos + i),
            decreases n - i,
        {
            out.push(self.bytes[self.pos + i]);
            i = i + 1;
        }
        self.pos = self.pos + n;
        Ok(out)
    }
}

} // verus!
