//! Codec for a lighting-control network protocol carrying DMX512 channel
//! data and timecode signals over a datagram transport.
//!
//! The crate converts in-memory command values to exact wire byte sequences
//! and back, enforcing the protocol's framing, padding and range rules:
//! a fixed eight-byte signature, a two-byte operation code, a derived
//! big-endian length field, and a variable-length payload padded to an even
//! number of bytes.

pub mod command;
pub mod cursor;
pub mod error;
pub mod output;
pub mod port_address;
pub mod timecode;
pub mod wire;

pub use command::ArtCommand;
pub use error::Error;
pub use output::BigEndianLength;
pub use output::Output;
pub use output::PaddedData;
pub use port_address::PortAddress;
pub use timecode::Timecode;
