use vstd::prelude::*;

verus! {

/// The unsigned integer held little-endian in `s[p]` and `s[p + 1]`.
pub open spec fn u16_at(s: Seq<u8>, p: int) -> u16 {
    (s[p] + 0x100 * s[p + 1]) as u16
}

/// The unsigned integer held little-endian in the four bytes from `s[p]`.
pub open spec fn u32_at(s: Seq<u8>, p: int) -> u32 {
    (s[p] + 0x100 * s[p + 1] + 0x1_0000 * s[p + 2] + 0x100_0000 * s[p + 3]) as u32
}

/// The unsigned integer held little-endian in the eight bytes from `s[p]`.
pub open spec fn u64_at(s: Seq<u8>, p: int) -> u64 {
    (u32_at(s, p) + 0x1_0000_0000 * u32_at(s, p + 4)) as u64
}

/// The byte `s[p]` read as a two's complement integer.
pub open spec fn i8_at(s: Seq<u8>, p: int) -> i8 {
    if s[p] < 0x80 {
        s[p] as i8
    } else {
        (s[p] - 0x100) as i8
    }
}

/// The two bytes from `s[p]` read as a little-endian two's complement integer.
pub open spec fn i16_at(s: Seq<u8>, p: int) -> i16 {
    if u16_at(s, p) < 0x8000 {
        u16_at(s, p) as i16
    } else {
        (u16_at(s, p) - 0x1_0000) as i16
    }
}

/// A cursor over an immutable byte buffer.
///
/// Each read takes its bytes from the current position and moves the
/// position past them. The reader itself never fails: the caller checks
/// `remaining()` before it reads.
///
/// A copy of a reader reads on from the same position without moving the
/// original: a decoder reads ahead on a copy and keeps its position only
/// once the whole record has decoded.
#[derive(Clone, Copy)]
pub struct Reader<'a> {
    data: &'a [u8],
    pos: usize,
}

impl<'a> Reader<'a> {
    /// The position lies within the buffer. Code holding a reader learns
    /// this from `use_type_invariant`.
    #[verifier::type_invariant]
    pub open spec fn inv(&self) -> bool {
        0 <= self.pos() <= self.bytes().len()
    }

    /// The whole buffer under the cursor, read or not.
    pub closed spec fn bytes(&self) -> Seq<u8> {
        self.data@
    }

    /// The index of the next byte to read.
    pub closed spec fn pos(&self) -> int {
        self.pos as int
    }

    /// The number of bytes that are left to read.
    pub open spec fn rest(&self) -> int {
        self.bytes().len() - self.pos()
    }

    /// A reader at the start of `data`.
    pub fn new(data: &'a [u8]) -> (r: Self)
        ensures
            r.bytes() == data@,
            r.pos() == 0,
    {
        Reader { data, pos: 0 }
    }

    /// The number of bytes that are left to read.
    pub fn remaining(&self) -> (r: usize)
        ensures
            r == self.rest(),
            0 <= self.pos() <= self.bytes().len(),
    {
        proof {
            use_type_invariant(self);
        }
        self.data.len() - self.pos
    }

    pub fn get_u8(&mut self) -> (r: u8)
        requires
            old(self).rest() >= 1,
        ensures
            r == old(self).bytes()[old(self).pos()],
            final(self).bytes() == old(self).bytes(),
            final(self).pos() == old(self).pos() + 1,
    {
        let b = self.data[self.pos];
        self.pos = self.pos + 1;
        b
    }

    /// The next `n` bytes, as a slice of the buffer.
    pub fn get_bytes(&mut self, n: usize) -> (r: &'a [u8])
        requires
            old(self).rest() >= n,
        ensures
            r@ == old(self).bytes().subrange(old(self).pos(), old(self).pos() + n),
            final(self).bytes() == old(self).bytes(),
            final(self).pos() == old(self).pos() + n,
    {
        proof {
            use_type_invariant(&*self);
            // The end fits in a usize: it is at most the slice's length.
            assert(self.data@.len() == self.data.len());
        }
        let start = self.pos;
        self.pos = start + n;
        &self.data[start..start + n]
    }

    pub fn get_i8(&mut self) -> (r: i8)
        requires
            old(self).rest() >= 1,
        ensures
            r == i8_at(old(self).bytes(), old(self).pos()),
            final(self).bytes() == old(self).bytes(),
            final(self).pos() == old(self).pos() + 1,
    {
        let b = self.get_u8();
        if b < 0x80 {
            b as i8
        } else {
            (b as i16 - 0x100) as i8
        }
    }

    pub fn get_u16_le(&mut self) -> (r: u16)
        requires
            old(self).rest() >= 2,
        ensures
            r == u16_at(old(self).bytes(), old(self).pos()),
            final(self).bytes() == old(self).bytes(),
            final(self).pos() == old(self).pos() + 2,
    {
        let b0 = self.get_u8();
        let b1 = self.get_u8();
        b0 as u16 + (b1 as u16) * 0x100
    }

    pub fn get_i16_le(&mut self) -> (r: i16)
        requires
            old(self).rest() >= 2,
        ensures
            r == i16_at(old(self).bytes(), old(self).pos()),
            final(self).bytes() == old(self).bytes(),
            final(self).pos() == old(self).pos() + 2,
    {
        let u = self.get_u16_le();
        if u < 0x8000 {
            u as i16
        } else {
            (u as i32 - 0x1_0000) as i16
        }
    }

    pub fn get_u32_le(&mut self) -> (r: u32)
        requires
            old(self).rest() >= 4,
        ensures
            r == u32_at(old(self).bytes(), old(self).pos()),
            final(self).bytes() == old(self).bytes(),
            final(self).pos() == old(self).pos() + 4,
    {
        let b0 = self.get_u8();
        let b1 = self.get_u8();
        let b2 = self.get_u8();
        let b3 = self.get_u8();
        b0 as u32 + (b1 as u32) * 0x100 + (b2 as u32) * 0x1_0000 + (b3 as u32) * 0x100_0000
    }

    pub fn get_u64_le(&mut self) -> (r: u64)
        requires
            old(self).rest() >= 8,
        ensures
            r == u64_at(old(self).bytes(), old(self).pos()),
            final(self).bytes() == old(self).bytes(),
            final(self).pos() == old(self).pos() + 8,
    {
        let lo = self.get_u32_le();
        let hi = self.get_u32_le();
        lo as u64 + (hi as u64) * 0x1_0000_0000
    }
}

} // verus!
