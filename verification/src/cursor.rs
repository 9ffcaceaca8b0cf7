//! A position-tracked byte cursor over one received datagram.
//!
//! Each field parser reads exactly the bytes it needs from the front of the
//! cursor and advances it; a read past the end fails with
//! [`Error::EndOfInput`] and leaves the cursor unchanged.

use vstd::prelude::*;

use crate::error::Error;

verus! {

/// A read cursor over the bytes of one datagram.
pub struct Cursor {
    bytes: Vec<u8>,
    pos: usize,
}

impl Cursor {
    /// The position never runs past the end of the buffer.
    pub closed spec fn wf(self) -> bool {
        self.pos <= self.bytes@.len()
    }

    /// The bytes not yet consumed.
    pub closed spec fn remaining(self) -> Seq<u8> {
        self.bytes@.skip(self.pos as int)
    }

    /// A cursor standing at the start of the given datagram.
    pub fn new(bytes: &[u8]) -> (c: Cursor)
        ensures
            c.wf(),
            c.remaining() == bytes@,
    {
        let c = Cursor { bytes: vstd::slice::slice_to_vec(bytes), pos: 0 };
        proof {
            assert(c.remaining() =~= bytes@);
        }
        c
    }

    /// How many bytes are left to read.
    pub fn remaining_len(&self) -> (n: usize)
        requires
            self.wf(),
        ensures
            n == self.remaining().len(),
    {
        self.bytes.len() - self.pos
    }

    /// Reads the next byte and advances past it.
    pub fn read_u8(&mut self) -> (r: Result<u8, Error>)
        requires
            old(self).wf(),
        ensures
            final(self).wf(),
            match r {
                Ok(b) => {
                    &&& old(self).remaining().len() >= 1
                    &&& b == old(self).remaining()[0]
                    &&& final(self).remaining() == old(self).remaining().skip(1)
                },
                Err(e) => {
                    &&& e is EndOfInput
                    &&& old(self).remaining().len() == 0
                    &&& *final(self) == *old(self)
                },
            },
    {
        if self.pos < self.bytes.len() {
            let b = self.bytes[self.pos];
            self.pos = self.pos + 1;
            proof {
                assert(self.remaining() =~= old(self).remaining().skip(1));
            }
            Ok(b)
        } else {
            Err(Error::EndOfInput)
        }
    }

    /// Reads the next two bytes as a big-endian 16-bit value.
    pub fn read_u16_be(&mut self) -> (r: Result<u16, Error>)
        requires
            old(self).wf(),
        ensures
            final(self).wf(),
            match r {
                Ok(v) => {
                    &&& old(self).remaining().len() >= 2
                    &&& v == crate::wire::be16(
                        old(self).remaining()[0],
                        old(self).remaining()[1],
                    )
                    &&& final(self).remaining() == old(self).remaining().skip(2)
                },
                Err(e) => {
                    &&& e is EndOfInput
                    &&& old(self).remaining().len() < 2
                    &&& *final(self) == *old(self)
                },
            },
    {
        if self.remaining_len() < 2 {
            return Err(Error::EndOfInput);
        }
        let hi = match self.read_u8() {
            Ok(b) => b,
            Err(e) => return Err(e),
        };
        let lo = match self.read_u8() {
            Ok(b) => b,
            Err(e) => return Err(e),
        };
        proof {
            assert(self.remaining() =~= old(self).remaining().skip(2));
        }
        Ok(crate::wire::u16_from_be(hi, lo))
    }

    /// Reads the next two bytes as a little-endian 16-bit value.
    pub fn read_u16_le(&mut self) -> (r: Result<u16, Error>)
        requires
            old(self).wf(),
        ensures
            final(self).wf(),
            match r {
                Ok(v) => {
                    &&& old(self).remaining().len() >= 2
                    &&& v == crate::wire::le16(
                        old(self).remaining()[0],
                        old(self).remaining()[1],
                    )
                    &&& final(self).remaining() == old(self).remaining().skip(2)
                },
                Err(e) => {
                    &&& e is EndOfInput
                    &&& old(self).remaining().len() < 2
                    &&& *final(self) == *old(self)
                },
            },
    {
        if self.remaining_len() < 2 {
            return Err(Error::EndOfInput);
        }
        let lo = match self.read_u8() {
            Ok(b) => b,
            Err(e) => return Err(e),
        };
        let hi = match self.read_u8() {
            Ok(b) => b,
            Err(e) => return Err(e),
        };
        proof {
            assert(self.remaining() =~= old(self).remaining().skip(2));
        }
        Ok(crate::wire::u16_from_le(lo, hi))
    }

    /// Reads the next `n` bytes, or fails without moving when fewer are left.
    pub fn read_n(&mut self, n: usize) -> (r: Result<Vec<u8>, Error>)
        requires
            old(self).wf(),
        ensures
            final(self).wf(),
            match r {
                Ok(v) => {
                    &&& old(self).remaining().len() >= n
                    &&& v@ == old(self).remaining().take(n as int)
                    &&& final(self).remaining() == old(self).remaining().skip(n as int)
                },
                Err(e) => {
                    &&& e is EndOfInput
                    &&& old(self).remaining().len() < n
                    &&& *final(self) == *old(self)
                },
            },
    {
        if self.remaining_len() < n {
            return Err(Error::EndOfInput);
        }
        let mut out: Vec<u8> = Vec::new();
        let mut i: usize = 0;
        while i < n
            invariant
                i <= n,
                self.wf(),
                n <= old(self).remaining().len(),
                self.remaining() == old(self).remaining().skip(i as int),
                out@ == old(self).remaining().take(i as int),
            decreases n - i,
        {
            let b = match self.read_u8() {
                Ok(b) => b,
                Err(_) => {
                    proof {
                        assert(false);
                    }
                    return Err(Error::EndOfInput);
                },
            };
            out.push(b);
            i = i + 1;
            proof {
                assert(self.remaining() =~= old(self).remaining().skip(i as int));
                assert(out@ =~= old(self).remaining().take(i as int));
            }
        }
        Ok(out)
    }

    /// Takes every byte that is left, emptying the cursor.
    pub fn take_rest(&mut self) -> (v: Vec<u8>)
        requires
            old(self).wf(),
        ensures
            final(self).wf(),
            v@ == old(self).remaining(),
            final(self).remaining().len() == 0,
    {
        let n = self.remaining_len();
        match self.read_n(n) {
            Ok(v) => {
                proof {
                    assert(v@ =~= old(self).remaining());
                }
                v
            },
            Err(_) => {
                proof {
                    assert(false);
                }
                Vec::new()
            },
        }
    }
}

} // verus!
