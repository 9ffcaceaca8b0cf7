//! The validated 15-bit port-address scalar.

use vstd::prelude::*;

use crate::cursor::Cursor;
use crate::error::Error;
use crate::wire;

verus! {

/// A 15-bit logical output-port addressing value, range 0 to 32767.
///
/// The top bit must never be set: a wire value with bit 15 set is a parse
/// error, never a silent truncation. On the wire the two bytes of this
/// field stand in little-endian order, unlike the other multi-byte fields
/// of a command body, which are big-endian; the asymmetry is the
/// protocol's own and is kept as observed.
#[derive(Debug, Clone, Copy, PartialEq, Eq, Structural)]
pub struct PortAddress {
    pub value: u16,
}

impl PortAddress {
    /// The range invariant: bit 15 is clear.
    pub open spec fn wf(self) -> bool {
        self.value < 32768
    }

    /// Reads the two little-endian bytes of a port address; a value with
    /// its top bit set is rejected.
    pub fn from_cursor(cursor: &mut Cursor) -> (r: Result<PortAddress, Error>)
        requires
            old(cursor).wf(),
        ensures
            final(cursor).wf(),
            match r {
                Ok(p) => {
                    &&& old(cursor).remaining().len() >= 2
                    &&& p.value == wire::le16(
                        old(cursor).remaining()[0],
                        old(cursor).remaining()[1],
                    )
                    &&& p.wf()
                    &&& final(cursor).remaining() == old(cursor).remaining().skip(2)
                },
                Err(e) => match e {
                    Error::EndOfInput => {
                        &&& old(cursor).remaining().len() < 2
                        &&& *final(cursor) == *old(cursor)
                    },
                    Error::AddressOutOfRange(v) => {
                        &&& old(cursor).remaining().len() >= 2
                        &&& v == wire::le16(
                            old(cursor).remaining()[0],
                            old(cursor).remaining()[1],
                        )
                        &&& v >= 32768
                        &&& final(cursor).remaining() == old(cursor).remaining().skip(2)
                    },
                    _ => false,
                },
            },
    {
        let v = match cursor.read_u16_le() {
            Ok(v) => v,
            Err(e) => return Err(e),
        };
        if v >= 32768 {
            return Err(Error::AddressOutOfRange(v));
        }
        Ok(PortAddress { value: v })
    }

    /// Appends the two little-endian bytes of the stored value; the range
    /// invariant already holds from construction, so nothing is re-checked.
    pub fn into_buffer(&self, buffer: &mut Vec<u8>)
        ensures
            final(buffer)@ == old(buffer)@ + wire::le16_bytes(self.value as int),
    {
        wire::push_u16_le(buffer, self.value);
    }
}

impl From<u8> for PortAddress {
    /// A one-byte raw value always fits in 15 bits, so the conversion is
    /// total.
    fn from(value: u8) -> (r: PortAddress) {
        PortAddress { value: value as u16 }
    }
}

impl vstd::std_specs::convert::FromSpecImpl<u8> for PortAddress {
    open spec fn obeys_from_spec() -> bool {
        true
    }

    open spec fn from_spec(value: u8) -> PortAddress {
        PortAddress { value: value as u16 }
    }
}

} // verus!
