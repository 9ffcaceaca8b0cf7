//! The DMX512 data command body and its two special fields: the padded
//! variable-length payload and the derived big-endian length.

use vstd::prelude::*;

use crate::cursor::Cursor;
use crate::error::Error;
use crate::port_address::PortAddress;
use crate::wire;

verus! {

/// A raw payload length rounded up to the nearest even number.
pub open spec fn padded_len(n: nat) -> nat {
    if n % 2 == 0 {
        n
    } else {
        n + 1
    }
}

/// A payload as transmitted: unchanged when its length is even, with one
/// zero byte appended when it is odd. Padding never truncates or mutates
/// existing bytes.
pub open spec fn padded(data: Seq<u8>) -> Seq<u8> {
    if data.len() % 2 == 0 {
        data
    } else {
        data.push(0u8)
    }
}

/// A variable-length byte sequence of DMX channel levels.
///
/// Any length may be held in memory; the size rule (1 to 512 raw bytes,
/// even after padding) is enforced at serialization time.
#[derive(Debug)]
pub struct PaddedData {
    pub inner: Vec<u8>,
}

impl View for PaddedData {
    type V = Seq<u8>;

    open spec fn view(&self) -> Seq<u8> {
        self.inner@
    }
}

impl Default for PaddedData {
    /// An empty payload; it is rejected if serialized as it stands.
    fn default() -> (r: PaddedData)
        ensures
            r@ == Seq::<u8>::empty(),
    {
        PaddedData { inner: Vec::new() }
    }
}

impl From<Vec<u8>> for PaddedData {
    fn from(inner: Vec<u8>) -> (r: PaddedData) {
        PaddedData { inner }
    }
}

impl vstd::std_specs::convert::FromSpecImpl<Vec<u8>> for PaddedData {
    open spec fn obeys_from_spec() -> bool {
        true
    }

    open spec fn from_spec(inner: Vec<u8>) -> PaddedData {
        PaddedData { inner }
    }
}

impl PaddedData {
    /// The raw byte count, before padding.
    pub fn len(&self) -> (n: usize)
        ensures
            n == self@.len(),
    {
        self.inner.len()
    }

    /// The transmitted byte count: the raw count rounded up to even.
    pub fn len_rounded_up(&self) -> (n: usize)
        requires
            self@.len() < usize::MAX,
        ensures
            n == padded_len(self@.len()),
    {
        let mut len = self.inner.len();
        if len % 2 != 0 {
            len = len + 1;
        }
        len
    }

    /// Takes every remaining byte of the datagram as the payload, verbatim;
    /// this never fails, as the transport delivers exactly one complete
    /// packet per call.
    pub fn from_cursor(cursor: &mut Cursor) -> (r: Result<PaddedData, Error>)
        requires
            old(cursor).wf(),
        ensures
            final(cursor).wf(),
            r matches Ok(d) && d@ == old(cursor).remaining(),
            final(cursor).remaining().len() == 0,
    {
        Ok(PaddedData { inner: cursor.take_rest() })
    }

    /// Appends the payload followed by its padding byte, after checking the
    /// size rule: the raw length must lie in 1 to 512, so that the
    /// transmitted length lies in 2 to 512. On failure the buffer is left
    /// untouched and the offending bytes travel with the error.
    pub fn into_buffer(&self, buffer: &mut Vec<u8>) -> (r: Result<(), Error>)
        ensures
            match r {
                Ok(_) => {
                    &&& 1 <= self@.len() <= 512
                    &&& final(buffer)@ == old(buffer)@ + padded(self@)
                },
                Err(e) => {
                    &&& (self@.len() == 0 || self@.len() > 512)
                    &&& (e matches Error::PayloadSizeInvalid { message, min_allowed, max_allowed } ==> {
                        &&& message@ == (if self@.len() == 0 {
                            Seq::<u8>::empty()
                        } else {
                            self@
                        })
                        &&& min_allowed == 2
                        &&& max_allowed == 512
                    })
                    &&& e is PayloadSizeInvalid
                    &&& *final(buffer) == *old(buffer)
                },
            },
    {
        let len = self.inner.len();
        if len == 0 {
            return Err(Error::PayloadSizeInvalid {
                message: Vec::new(),
                min_allowed: 2,
                max_allowed: 512,
            });
        }
        if len > 512 {
            return Err(Error::PayloadSizeInvalid {
                message: clone_bytes(&self.inner),
                min_allowed: 2,
                max_allowed: 512,
            });
        }
        let mut i: usize = 0;
        while i < len
            invariant
                i <= len,
                len == self@.len(),
                buffer@ == old(buffer)@ + self@.take(i as int),
            decreases len - i,
        {
            buffer.push(self.inner[i]);
            i = i + 1;
            proof {
                assert(buffer@ =~= old(buffer)@ + self@.take(i as int));
            }
        }
        assert(self@.take(len as int) =~= self@);
        if len % 2 != 0 {
            buffer.push(0);
            proof {
                assert(buffer@ =~= old(buffer)@ + padded(self@));
            }
        }
        Ok(())
    }

    /// A fixed small payload for round-trip testing.
    pub fn get_test_value() -> (r: PaddedData)
        ensures
            r@ == seq![1u8, 2u8, 3u8, 4u8],
    {
        let mut inner: Vec<u8> = Vec::new();
        inner.push(1);
        inner.push(2);
        inner.push(3);
        inner.push(4);
        proof {
            assert(inner@ =~= seq![1u8, 2u8, 3u8, 4u8]);
        }
        PaddedData { inner }
    }

    /// Structural equality of the raw bytes.
    pub fn is_equal(&self, other: &PaddedData) -> (r: bool)
        ensures
            r == (self@ == other@),
    {
        bytes_equal(&self.inner, &other.inner)
    }
}

/// A copy of a byte vector.
fn clone_bytes(v: &Vec<u8>) -> (r: Vec<u8>)
    ensures
        r@ == v@,
{
    let mut out: Vec<u8> = Vec::new();
    let mut i: usize = 0;
    while i < v.len()
        invariant
            i <= v@.len(),
            out@ == v@.take(i as int),
        decreases v@.len() - i,
    {
        out.push(v[i]);
        i = i + 1;
        proof {
            assert(out@ =~= v@.take(i as int));
        }
    }
    proof {
        assert(out@ =~= v@);
    }
    out
}

/// Whether two byte vectors hold the same bytes.
fn bytes_equal(a: &Vec<u8>, b: &Vec<u8>) -> (r: bool)
    ensures
        r == (a@ == b@),
{
    if a.len() != b.len() {
        return false;
    }
    let mut i: usize = 0;
    while i < a.len()
        invariant
            i <= a@.len(),
            a@.len() == b@.len(),
            forall|j: int| 0 <= j < i ==> a@[j] == b@[j],
        decreases a@.len() - i,
    {
        if a[i] != b[i] {
            return false;
        }
        i = i + 1;
    }
    proof {
        assert(a@ =~= b@);
    }
    true
}

/// The relaxed equality of two length fields: an unparsed instance is
/// considered equal to any parsed one, since the correct value is only
/// knowable after a full encode.
pub open spec fn length_equal_for_testing(a: BigEndianLength, b: BigEndianLength) -> bool {
    if (a.parsed_length is Some) != (b.parsed_length is Some) {
        true
    } else {
        a.parsed_length == b.parsed_length
    }
}

/// The length field of an [`Output`] command.
///
/// After parsing it holds the literal 16-bit big-endian value read from the
/// wire, kept as information only. Before serialization it holds no
/// meaningful value: at serialize time the wire value is always recomputed
/// from the sibling payload's padded length, and any stored value is
/// ignored, so the transmitted length is always consistent with what is
/// actually sent.
#[derive(Debug)]
pub struct BigEndianLength {
    pub parsed_length: Option<u16>,
}

impl Default for BigEndianLength {
    /// A length that has not been parsed; its wire value is derived at
    /// serialization time.
    fn default() -> (r: BigEndianLength)
        ensures
            r.parsed_length is None,
    {
        BigEndianLength { parsed_length: None }
    }
}

impl BigEndianLength {
    /// Reads the literal 16-bit big-endian wire value; no cross-field
    /// validation happens at this stage, as the protocol is permissive on
    /// read and strict on write.
    pub fn from_cursor(cursor: &mut Cursor) -> (r: Result<BigEndianLength, Error>)
        requires
            old(cursor).wf(),
        ensures
            final(cursor).wf(),
            match r {
                Ok(l) => {
                    &&& old(cursor).remaining().len() >= 2
                    &&& l.parsed_length == Some(
                        wire::be16(old(cursor).remaining()[0], old(cursor).remaining()[1]) as u16,
                    )
                    &&& final(cursor).remaining() == old(cursor).remaining().skip(2)
                },
                Err(e) => {
                    &&& e is EndOfInput
                    &&& old(cursor).remaining().len() < 2
                    &&& *final(cursor) == *old(cursor)
                },
            },
    {
        let length = match cursor.read_u16_be() {
            Ok(v) => v,
            Err(e) => return Err(e),
        };
        Ok(BigEndianLength { parsed_length: Some(length) })
    }

    /// Writes the sibling payload's padded length as a 16-bit big-endian
    /// value, ignoring any stored parsed value. The payload length must be
    /// small enough for its padded length to fit the 16-bit field.
    pub fn into_buffer(&self, buffer: &mut Vec<u8>, context: &Output) -> (r: Result<(), Error>)
        requires
            context.data@.len() + 1 < 65536,
        ensures
            r is Ok,
            final(buffer)@ == old(buffer)@ + wire::be16_bytes(padded_len(context.data@.len()) as int),
    {
        let len = context.data.len_rounded_up();
        wire::push_u16_be(buffer, len as u16);
        Ok(())
    }

    /// The parsed wire value, or zero when none was parsed.
    pub fn value_or_zero(&self) -> (v: u16)
        ensures
            v == match self.parsed_length {
                Some(l) => l,
                None => 0u16,
            },
    {
        match self.parsed_length {
            Some(l) => l,
            None => 0,
        }
    }

    /// A fresh, unparsed length for round-trip testing.
    pub fn get_test_value() -> (r: BigEndianLength)
        ensures
            r.parsed_length is None,
    {
        BigEndianLength { parsed_length: None }
    }

    /// The relaxed equality described by [`length_equal_for_testing`].
    pub fn is_equal(&self, other: &BigEndianLength) -> (r: bool)
        ensures
            r == length_equal_for_testing(*self, *other),
    {
        match (self.parsed_length, other.parsed_length) {
            (Some(a), Some(b)) => a == b,
            _ => true,
        }
    }
}

/// The data packet used to transfer DMX512 channel data. The payload is
/// output through the port selected by the port-address field.
#[derive(Debug)]
pub struct Output {
    /// The protocol version the sender speaks; accepted verbatim on parse,
    /// whatever its numeric value.
    pub version: [u8; 2],
    /// Lets a receiver put packets that arrived out of order back in
    /// sequence; zero disables the feature.
    pub sequence: u8,
    /// The physical input port the data came from; informational only.
    pub physical: u8,
    /// The 15-bit port address this packet is destined for.
    pub port_address: PortAddress,
    /// The wire length of the payload, always derived at serialization time.
    pub length: BigEndianLength,
    /// The DMX512 channel levels.
    pub data: PaddedData,
}

/// The exact body bytes an [`Output`] serializes to: version, sequence,
/// physical, little-endian port address, big-endian padded length, then the
/// padded payload.
pub open spec fn output_body_bytes(o: Output) -> Seq<u8> {
    o.version@ + seq![o.sequence, o.physical] + wire::le16_bytes(o.port_address.value as int)
        + wire::be16_bytes(padded_len(o.data@.len()) as int) + padded(o.data@)
}

/// Whether body bytes parse successfully as an [`Output`]: all six fixed
/// bytes are present and the port address has its top bit clear. No
/// condition is placed on the version bytes: older versions parse too.
pub open spec fn output_parse_ok(body: Seq<u8>) -> bool {
    body.len() >= 8 && wire::le16(body[4], body[5]) < 32768
}

/// How a parsed [`Output`] relates to the body bytes it was read from.
pub open spec fn output_matches_bytes(o: Output, body: Seq<u8>) -> bool {
    &&& body.len() >= 8
    &&& o.version@ == body.take(2)
    &&& o.sequence == body[2]
    &&& o.physical == body[3]
    &&& o.port_address.value == wire::le16(body[4], body[5])
    &&& o.length.parsed_length == Some(wire::be16(body[6], body[7]) as u16)
    &&& o.data@ == body.skip(8)
}

impl Default for Output {
    /// The current supported protocol version, sequencing disabled, port
    /// address one, an unparsed length and an empty payload.
    fn default() -> (r: Output)
        ensures
            r.version@ == seq![0u8, 14u8],
            r.sequence == 0,
            r.physical == 0,
            r.port_address.value == 1,
            r.length.parsed_length is None,
            r.data@ == Seq::<u8>::empty(),
    {
        let r = Output {
            version: [0, 14],
            sequence: 0,
            physical: 0,
            port_address: PortAddress { value: 1 },
            length: BigEndianLength { parsed_length: None },
            data: PaddedData { inner: Vec::new() },
        };
        proof {
            assert(r.version@ =~= seq![0u8, 14u8]);
        }
        r
    }
}

impl Output {
    /// Reads the six fields in declared order from the cursor; the payload
    /// takes every byte that is left.
    pub fn from_cursor(cursor: &mut Cursor) -> (r: Result<Output, Error>)
        requires
            old(cursor).wf(),
        ensures
            final(cursor).wf(),
            match r {
                Ok(o) => {
                    &&& output_parse_ok(old(cursor).remaining())
                    &&& output_matches_bytes(o, old(cursor).remaining())
                    &&& o.port_address.wf()
                    &&& final(cursor).remaining().len() == 0
                },
                Err(e) => match e {
                    Error::EndOfInput => old(cursor).remaining().len() < 6 || (
                    old(cursor).remaining().len() < 8 && wire::le16(
                        old(cursor).remaining()[4],
                        old(cursor).remaining()[5],
                    ) < 32768),
                    Error::AddressOutOfRange(v) => {
                        &&& old(cursor).remaining().len() >= 6
                        &&& v == wire::le16(
                            old(cursor).remaining()[4],
                            old(cursor).remaining()[5],
                        )
                        &&& v >= 32768
                    },
                    _ => false,
                },
            },
    {
        let v0 = match cursor.read_u8() {
            Ok(b) => b,
            Err(e) => return Err(e),
        };
        let v1 = match cursor.read_u8() {
            Ok(b) => b,
            Err(e) => return Err(e),
        };
        let sequence = match cursor.read_u8() {
            Ok(b) => b,
            Err(e) => return Err(e),
        };
        let physical = match cursor.read_u8() {
            Ok(b) => b,
            Err(e) => return Err(e),
        };
        let port_address = match PortAddress::from_cursor(cursor) {
            Ok(p) => p,
            Err(e) => return Err(e),
        };
        let length = match BigEndianLength::from_cursor(cursor) {
            Ok(l) => l,
            Err(e) => return Err(e),
        };
        let data = match PaddedData::from_cursor(cursor) {
            Ok(d) => d,
            Err(e) => return Err(e),
        };
        let version = [v0, v1];
        let o = Output { version, sequence, physical, port_address, length, data };
        proof {
            assert(o.version@ =~= old(cursor).remaining().take(2));
            assert(o.data@ =~= old(cursor).remaining().skip(8));
        }
        Ok(o)
    }

    /// Validates the payload size, then appends the six fields in declared
    /// order; the length field is recomputed from the payload's padded
    /// length. On failure the buffer is left untouched.
    pub fn into_buffer(&self, buffer: &mut Vec<u8>) -> (r: Result<(), Error>)
        ensures
            match r {
                Ok(_) => {
                    &&& 1 <= self.data@.len() <= 512
                    &&& final(buffer)@ == old(buffer)@ + output_body_bytes(*self)
                },
                Err(e) => {
                    &&& (self.data@.len() == 0 || self.data@.len() > 512)
                    &&& (e matches Error::PayloadSizeInvalid { message, min_allowed, max_allowed } ==> {
                        &&& message@ == (if self.data@.len() == 0 {
                            Seq::<u8>::empty()
                        } else {
                            self.data@
                        })
                        &&& min_allowed == 2
                        &&& max_allowed == 512
                    })
                    &&& e is PayloadSizeInvalid
                    &&& *final(buffer) == *old(buffer)
                },
            },
    {
        let mut payload: Vec<u8> = Vec::new();
        match self.data.into_buffer(&mut payload) {
            Ok(_) => {},
            Err(e) => return Err(e),
        }
        buffer.push(self.version[0]);
        buffer.push(self.version[1]);
        buffer.push(self.sequence);
        buffer.push(self.physical);
        self.port_address.into_buffer(buffer);
        match self.length.into_buffer(buffer, self) {
            Ok(_) => {},
            Err(e) => return Err(e),
        }
        let mut i: usize = 0;
        let ghost mid = buffer@;
        while i < payload.len()
            invariant
                i <= payload@.len(),
                buffer@ == mid + payload@.take(i as int),
            decreases payload@.len() - i,
        {
            buffer.push(payload[i]);
            i = i + 1;
            proof {
                assert(buffer@ =~= mid + payload@.take(i as int));
            }
        }
        proof {
            assert(payload@.take(payload@.len() as int) =~= payload@);
            assert(buffer@ =~= old(buffer)@ + output_body_bytes(*self));
        }
        Ok(())
    }

    /// Equality after parsing: all fields structurally equal, with the
    /// relaxed comparison for the derived length field.
    pub fn is_equal(&self, other: &Output) -> (r: bool)
        ensures
            r == {
                &&& self.version@ == other.version@
                &&& self.sequence == other.sequence
                &&& self.physical == other.physical
                &&& self.port_address == other.port_address
                &&& length_equal_for_testing(self.length, other.length)
                &&& self.data@ == other.data@
            },
    {
        let versions_equal = self.version[0] == other.version[0] && self.version[1]
            == other.version[1];
        proof {
            if versions_equal {
                assert(self.version@ =~= other.version@);
            }
        }
        versions_equal && self.sequence == other.sequence && self.physical == other.physical
            && self.port_address == other.port_address && self.length.is_equal(&other.length)
            && self.data.is_equal(&other.data)
    }
}

} // verus!
