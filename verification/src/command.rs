//! The envelope and its dispatch: the fixed protocol signature, the
//! operation code, and the routing of a raw datagram to the matching
//! command body.

use vstd::prelude::*;

use crate::cursor::Cursor;
use crate::error::Error;
use crate::output;
use crate::output::Output;
use crate::timecode;
use crate::timecode::Timecode;
use crate::wire;

verus! {

/// The fixed eight-byte protocol signature: seven printable characters and
/// a terminating zero byte.
pub open spec fn signature_seq() -> Seq<u8> {
    seq![65u8, 114u8, 116u8, 45u8, 78u8, 101u8, 116u8, 0u8]
}

/// Whether the envelope is complete: the signature matches and the
/// two-byte operation code is present.
pub open spec fn envelope_ok(input: Seq<u8>) -> bool {
    input.len() >= 10 && input.take(8) == signature_seq()
}

/// The operation code of a datagram, read in little-endian order.
pub open spec fn opcode_of(input: Seq<u8>) -> int {
    wire::le16(input[8], input[9])
}

/// Whether a whole datagram parses successfully: the envelope is complete
/// and the body bytes satisfy the parser the operation code selects.
pub open spec fn parse_succeeds(input: Seq<u8>) -> bool {
    &&& envelope_ok(input)
    &&& {
        ||| (opcode_of(input) == 0x5000 && output::output_parse_ok(input.skip(10)))
        ||| (opcode_of(input) == 0x9700 && input.skip(10).len() >= 9)
    }
}

/// The exact wire bytes of a serialized [`Output`] command: signature,
/// operation code, then the command body.
pub open spec fn output_wire_bytes(o: Output) -> Seq<u8> {
    signature_seq() + seq![0u8, 80u8] + output::output_body_bytes(o)
}

/// The exact wire bytes of a serialized [`Timecode`] command.
pub open spec fn timecode_wire_bytes(t: Timecode) -> Seq<u8> {
    signature_seq() + seq![0u8, 151u8] + timecode::timecode_body_bytes(t)
}

/// A command value, one variant for each supported command body.
#[derive(Debug)]
pub enum ArtCommand {
    /// DMX512 channel data.
    Output(Output),
    /// Timecode data.
    Timecode(Timecode),
}

/// Reads the eight signature bytes and compares them with the fixed
/// protocol signature.
fn check_signature(cursor: &mut Cursor) -> (r: Result<(), Error>)
    requires
        old(cursor).wf(),
    ensures
        final(cursor).wf(),
        match r {
            Ok(_) => {
                &&& old(cursor).remaining().len() >= 8
                &&& old(cursor).remaining().take(8) == signature_seq()
                &&& final(cursor).remaining() == old(cursor).remaining().skip(8)
            },
            Err(e) => match e {
                Error::EndOfInput => {
                    &&& old(cursor).remaining().len() < 8
                    &&& *final(cursor) == *old(cursor)
                },
                Error::SignatureMismatch => {
                    &&& old(cursor).remaining().len() >= 8
                    &&& old(cursor).remaining().take(8) != signature_seq()
                },
                _ => false,
            },
        },
{
    let sig = match cursor.read_n(8) {
        Ok(v) => v,
        Err(e) => return Err(e),
    };
    if sig[0] != 65 || sig[1] != 114 || sig[2] != 116 || sig[3] != 45 || sig[4] != 78 || sig[5]
        != 101 || sig[6] != 116 || sig[7] != 0 {
        return Err(Error::SignatureMismatch);
    }
    proof {
        assert(old(cursor).remaining().take(8) =~= signature_seq());
    }
    Ok(())
}

/// Appends the fixed protocol signature.
fn write_signature(buffer: &mut Vec<u8>)
    ensures
        final(buffer)@ == old(buffer)@ + signature_seq(),
{
    buffer.push(65);
    buffer.push(114);
    buffer.push(116);
    buffer.push(45);
    buffer.push(78);
    buffer.push(101);
    buffer.push(116);
    buffer.push(0);
    proof {
        assert(buffer@ =~= old(buffer)@ + signature_seq());
    }
}

impl ArtCommand {
    /// Parses one complete datagram: checks the signature, reads the
    /// operation code, and delegates the remaining bytes to the command
    /// body the code selects. Each failure is surfaced as the typed error
    /// the first failing field produced.
    pub fn from_buffer(buffer: &[u8]) -> (r: Result<ArtCommand, Error>)
        ensures
            r is Ok <==> parse_succeeds(buffer@),
            match r {
                Ok(c) => match c {
                    ArtCommand::Output(o) => {
                        &&& opcode_of(buffer@) == 0x5000
                        &&& output::output_matches_bytes(o, buffer@.skip(10))
                        &&& o.port_address.wf()
                    },
                    ArtCommand::Timecode(t) => {
                        &&& opcode_of(buffer@) == 0x9700
                        &&& timecode::timecode_matches_bytes(t, buffer@.skip(10))
                    },
                },
                Err(e) => match e {
                    Error::EndOfInput => buffer@.len() < 8 || (buffer@.take(8) == signature_seq()
                        && (buffer@.len() < 10 || (opcode_of(buffer@) == 0x5000 && (
                        buffer@.skip(10).len() < 6 || (buffer@.skip(10).len() < 8 && wire::le16(
                            buffer@.skip(10)[4],
                            buffer@.skip(10)[5],
                        ) < 32768))) || (opcode_of(buffer@) == 0x9700 && buffer@.skip(10).len()
                            < 9))),
                    Error::SignatureMismatch => buffer@.len() >= 8 && buffer@.take(8)
                        != signature_seq(),
                    Error::UnsupportedOperation(op) => {
                        &&& envelope_ok(buffer@)
                        &&& op == opcode_of(buffer@)
                        &&& op != 0x5000
                        &&& op != 0x9700
                    },
                    Error::AddressOutOfRange(v) => {
                        &&& envelope_ok(buffer@)
                        &&& opcode_of(buffer@) == 0x5000
                        &&& buffer@.skip(10).len() >= 6
                        &&& v == wire::le16(buffer@.skip(10)[4], buffer@.skip(10)[5])
                        &&& v >= 32768
                    },
                    _ => false,
                },
            },
    {
        let mut cursor = Cursor::new(buffer);
        match check_signature(&mut cursor) {
            Ok(_) => {},
            Err(e) => return Err(e),
        }
        let op = match cursor.read_u16_le() {
            Ok(v) => v,
            Err(e) => return Err(e),
        };
        proof {
            assert(cursor.remaining() =~= buffer@.skip(10));
            assert(buffer@.skip(8)[0] == buffer@[8] && buffer@.skip(8)[1] == buffer@[9]);
        }
        if op == 0x5000 {
            match Output::from_cursor(&mut cursor) {
                Ok(o) => Ok(ArtCommand::Output(o)),
                Err(e) => Err(e),
            }
        } else if op == 0x9700 {
            match Timecode::from_cursor(&mut cursor) {
                Ok(t) => Ok(ArtCommand::Timecode(t)),
                Err(e) => Err(e),
            }
        } else {
            Err(Error::UnsupportedOperation(op))
        }
    }

    /// Serializes the command: signature, the operation code of the
    /// variant, then the command body. An output command whose payload
    /// breaks the size rule fails with the payload's own error and nothing
    /// is returned.
    pub fn into_buffer(self) -> (r: Result<Vec<u8>, Error>)
        ensures
            match self {
                ArtCommand::Output(o) => match r {
                    Ok(b) => {
                        &&& 1 <= o.data@.len() <= 512
                        &&& b@ == output_wire_bytes(o)
                    },
                    Err(e) => {
                        &&& (o.data@.len() == 0 || o.data@.len() > 512)
                        &&& (e matches Error::PayloadSizeInvalid { message, min_allowed, max_allowed } ==> {
                            &&& message@ == (if o.data@.len() == 0 {
                                Seq::<u8>::empty()
                            } else {
                                o.data@
                            })
                            &&& min_allowed == 2
                            &&& max_allowed == 512
                        })
                        &&& e is PayloadSizeInvalid
                    },
                },
                ArtCommand::Timecode(t) => {
                    &&& r is Ok
                    &&& (r matches Ok(b) ==> b@ == timecode_wire_bytes(t))
                },
            },
    {
        let mut buffer: Vec<u8> = Vec::new();
        write_signature(&mut buffer);
        match self {
            ArtCommand::Output(command) => {
                wire::push_u16_le(&mut buffer, 0x5000);
                match command.into_buffer(&mut buffer) {
                    Ok(_) => {},
                    Err(e) => return Err(e),
                }
                proof {
                    assert(buffer@ =~= output_wire_bytes(command));
                }
                Ok(buffer)
            },
            ArtCommand::Timecode(command) => {
                wire::push_u16_le(&mut buffer, 0x9700);
                match command.into_buffer(&mut buffer) {
                    Ok(_) => {},
                    Err(e) => return Err(e),
                }
                proof {
                    assert(buffer@ =~= timecode_wire_bytes(command));
                }
                Ok(buffer)
            },
        }
    }
}

/// For every payload with raw length 1 to 512 serialization succeeds (the
/// `Ok` condition of [`ArtCommand::into_buffer`]), and the length field
/// written to the wire holds the raw payload length rounded up to even.
pub proof fn lemma_written_length_is_padded_length(o: Output)
    requires
        1 <= o.data@.len() <= 512,
    ensures
        wire::be16(output_wire_bytes(o)[16], output_wire_bytes(o)[17]) == output::padded_len(
            o.data@.len(),
        ),
{
    let w = output_wire_bytes(o);
    let p = output::padded_len(o.data@.len()) as int;
    assert(w[16] == wire::be16_bytes(p)[0]);
    assert(w[17] == wire::be16_bytes(p)[1]);
    wire::lemma_be16_of_be16_bytes(p);
}

/// Round trip: serializing the command a well-formed output datagram
/// parses to reproduces the datagram exactly when its payload length is
/// even, and reproduces it with one extra trailing zero byte when the
/// payload length is odd. A datagram is well formed here when its length
/// field already holds the payload's padded length and the payload size
/// rule is met.
pub proof fn lemma_output_round_trip(input: Seq<u8>, o: Output)
    requires
        input.take(8) == signature_seq(),
        input.len() >= 18,
        opcode_of(input) == 0x5000,
        output::output_matches_bytes(o, input.skip(10)),
        1 <= o.data@.len() <= 512,
        wire::be16(input[16], input[17]) == output::padded_len(o.data@.len()),
    ensures
        o.data@.len() % 2 == 0 ==> output_wire_bytes(o) == input,
        o.data@.len() % 2 != 0 ==> output_wire_bytes(o) == input.push(0u8),
{
    let body = input.skip(10);
    let w = output_wire_bytes(o);
    wire::lemma_le16_bytes_of_le16(input[8], input[9]);
    assert(input[8] == 0 && input[9] == 80);
    wire::lemma_le16_bytes_of_le16(body[4], body[5]);
    wire::lemma_be16_bytes_of_be16(body[6], body[7]);
    assert(body[6] == input[16] && body[7] == input[17]);
    assert(o.data@ =~= input.skip(18));
    if o.data@.len() % 2 == 0 {
        assert(w =~= input);
    } else {
        assert(w =~= input.push(0u8));
    }
}

/// Round trip for a timecode datagram of exactly the envelope and the nine
/// body bytes: serializing the command it parses to reproduces it exactly.
pub proof fn lemma_timecode_round_trip(input: Seq<u8>, t: Timecode)
    requires
        input.take(8) == signature_seq(),
        input.len() == 19,
        opcode_of(input) == 0x9700,
        timecode::timecode_matches_bytes(t, input.skip(10)),
    ensures
        timecode_wire_bytes(t) == input,
{
    let body = input.skip(10);
    wire::lemma_le16_bytes_of_le16(input[8], input[9]);
    assert(input[8] == 0 && input[9] == 151);
    assert(timecode_wire_bytes(t) =~= input);
}

} // verus!
