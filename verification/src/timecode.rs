//! The timecode command body: eight fixed-width fields, no derived or
//! variable-length field.

use vstd::prelude::*;

use crate::cursor::Cursor;
use crate::error::Error;

verus! {

/// A packet carrying timecode data.
#[derive(Debug)]
pub struct Timecode {
    /// The protocol version the sender speaks; accepted verbatim on parse,
    /// whatever its numeric value.
    pub version: [u8; 2],
    /// Filler byte.
    pub filler1: u8,
    /// Identifies different streams of time code; zero is the master.
    pub stream_id: u8,
    /// Frames time, 0 to 29 depending on mode.
    pub frames: u8,
    /// Seconds, 0 to 59.
    pub seconds: u8,
    /// Minutes, 0 to 59.
    pub minutes: u8,
    /// Hours, 0 to 23.
    pub hours: u8,
    /// Frame rate: 0 is 24, 1 is 25, 2 is 29.97, 3 is 30 frames a second.
    pub key_type: u8,
}

/// The exact body bytes a [`Timecode`] serializes to: all nine bytes in
/// declared order.
pub open spec fn timecode_body_bytes(t: Timecode) -> Seq<u8> {
    t.version@ + seq![t.filler1, t.stream_id, t.frames, t.seconds, t.minutes, t.hours, t.key_type]
}

/// How a parsed [`Timecode`] relates to the body bytes it was read from;
/// bytes past the ninth are ignored.
pub open spec fn timecode_matches_bytes(t: Timecode, body: Seq<u8>) -> bool {
    &&& body.len() >= 9
    &&& t.version@ == body.take(2)
    &&& t.filler1 == body[2]
    &&& t.stream_id == body[3]
    &&& t.frames == body[4]
    &&& t.seconds == body[5]
    &&& t.minutes == body[6]
    &&& t.hours == body[7]
    &&& t.key_type == body[8]
}

impl Default for Timecode {
    /// The current supported protocol version and every time field zero.
    fn default() -> (r: Timecode)
        ensures
            r.version@ == seq![0u8, 14u8],
            r.filler1 == 0,
            r.stream_id == 0,
            r.frames == 0,
            r.seconds == 0,
            r.minutes == 0,
            r.hours == 0,
            r.key_type == 0,
    {
        let r = Timecode {
            version: [0, 14],
            filler1: 0,
            stream_id: 0,
            frames: 0,
            seconds: 0,
            minutes: 0,
            hours: 0,
            key_type: 0,
        };
        proof {
            assert(r.version@ =~= seq![0u8, 14u8]);
        }
        r
    }
}

impl Timecode {
    /// Reads the nine body bytes in declared order from the cursor.
    pub fn from_cursor(cursor: &mut Cursor) -> (r: Result<Timecode, Error>)
        requires
            old(cursor).wf(),
        ensures
            final(cursor).wf(),
            match r {
                Ok(t) => {
                    &&& old(cursor).remaining().len() >= 9
                    &&& timecode_matches_bytes(t, old(cursor).remaining())
                    &&& final(cursor).remaining() == old(cursor).remaining().skip(9)
                },
                Err(e) => {
                    &&& e is EndOfInput
                    &&& old(cursor).remaining().len() < 9
                },
            },
    {
        let v0 = match cursor.read_u8() {
            Ok(b) => b,
            Err(e) => return Err(e),
        };
        let v1 = match cursor.read_u8() {
            Ok(b) => b,
            Err(e) => return Err(e),
        };
        let filler1 = match cursor.read_u8() {
            Ok(b) => b,
            Err(e) => return Err(e),
        };
        let stream_id = match cursor.read_u8() {
            Ok(b) => b,
            Err(e) => return Err(e),
        };
        let frames = match cursor.read_u8() {
            Ok(b) => b,
            Err(e) => return Err(e),
        };
        let seconds = match cursor.read_u8() {
            Ok(b) => b,
            Err(e) => return Err(e),
        };
        let minutes = match cursor.read_u8() {
            Ok(b) => b,
            Err(e) => return Err(e),
        };
        let hours = match cursor.read_u8() {
            Ok(b) => b,
            Err(e) => return Err(e),
        };
        let key_type = match cursor.read_u8() {
            Ok(b) => b,
            Err(e) => return Err(e),
        };
        let t = Timecode {
            version: [v0, v1],
            filler1,
            stream_id,
            frames,
            seconds,
            minutes,
            hours,
            key_type,
        };
        proof {
            assert(t.version@ =~= old(cursor).remaining().take(2));
            assert(cursor.remaining() =~= old(cursor).remaining().skip(9));
        }
        Ok(t)
    }

    /// Appends the nine body bytes in declared order; nothing can fail.
    pub fn into_buffer(&self, buffer: &mut Vec<u8>) -> (r: Result<(), Error>)
        ensures
            r is Ok,
            final(buffer)@ == old(buffer)@ + timecode_body_bytes(*self),
    {
        buffer.push(self.version[0]);
        buffer.push(self.version[1]);
        buffer.push(self.filler1);
        buffer.push(self.stream_id);
        buffer.push(self.frames);
        buffer.push(self.seconds);
        buffer.push(self.minutes);
        buffer.push(self.hours);
        buffer.push(self.key_type);
        proof {
            assert(buffer@ =~= old(buffer)@ + timecode_body_bytes(*self));
        }
        Ok(())
    }

    /// Equality after parsing: all fields structurally equal.
    pub fn is_equal(&self, other: &Timecode) -> (r: bool)
        ensures
            r == {
                &&& self.version@ == other.version@
                &&& self.filler1 == other.filler1
                &&& self.stream_id == other.stream_id
                &&& self.frames == other.frames
                &&& self.seconds == other.seconds
                &&& self.minutes == other.minutes
                &&& self.hours == other.hours
                &&& self.key_type == other.key_type
            },
    {
        let versions_equal = self.version[0] == other.version[0] && self.version[1]
            == other.version[1];
        proof {
            if versions_equal {
                assert(self.version@ =~= other.version@);
            }
        }
        versions_equal && self.filler1 == other.filler1 && self.stream_id == other.stream_id
            && self.frames == other.frames && self.seconds == other.seconds && self.minutes
            == other.minutes && self.hours == other.hours && self.key_type == other.key_type
    }
}

} // verus!
