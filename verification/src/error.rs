//! Typed failures surfaced by parsing and serialization.

use vstd::prelude::*;

verus! {

/// Every failure of a parse or serialize call. No operation panics or
/// recovers internally: the first field to fail aborts the whole call and
/// the error is returned to the caller.
#[derive(Debug)]
pub enum Error {
    /// The byte cursor was exhausted before a field could be fully read.
    EndOfInput,
    /// The first eight bytes of a datagram do not match the fixed protocol
    /// signature.
    SignatureMismatch,
    /// The operation code does not map to any known command body; carries
    /// the code that was read.
    UnsupportedOperation(u16),
    /// The payload byte count is zero or exceeds 512 at serialization time;
    /// carries the offending bytes and the allowed inclusive range of the
    /// transmitted (padded) size.
    PayloadSizeInvalid { message: Vec<u8>, min_allowed: usize, max_allowed: usize },
    /// A port-address value with its top bit set was read from the wire;
    /// carries the offending value.
    AddressOutOfRange(u16),
}

} // verus!
