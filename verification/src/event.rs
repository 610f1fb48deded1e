//! Decoding decrypted notification buffers into structured move events.
//!
//! A decrypted buffer is read as a most-significant-bit-first bitstream.
//! Bits [0,4) hold the event-type discriminant; only value 2, a move event,
//! is recognized. A move record needs 63 bits and carries its serial number,
//! face code, turn direction and elapsed time in fixed bit ranges; the gaps
//! between those ranges are reserved and never validated.

use vstd::prelude::*;

use crate::bits::{bit_at, bits_be, lemma_bits_be_bound, lemma_bits_be_congruent, load_bits_be};
use crate::stream::PollNext;

verus! {

/// Why one buffer failed to decode. Neither failure ends the stream of
/// decode results.
#[derive(Debug, Clone, Copy, PartialEq, Eq, Structural)]
pub enum DecodeError {
    /// Too short to hold the 63 bits of a move record.
    InvalidLength,
    /// The event-type discriminant is not a recognized value.
    UnknownEventType,
}

/// One of the six faces of the cube, in the protocol's canonical order.
#[derive(Debug, Clone, Copy, PartialEq, Eq, Structural)]
pub enum Move {
    U,
    R,
    F,
    D,
    L,
    B,
}

/// A face turn: the face and how often it is turned, where -1 means one
/// reversed (prime) turn and 1 one normal turn.
#[derive(Debug, Clone, Copy, PartialEq, Eq, Structural)]
pub struct Command(pub Move, pub i8);

/// One decoded move event.
#[derive(Debug, Clone, Copy, PartialEq, Eq, Structural)]
pub struct GanCubeMove {
    /// 8-bit sequence number; wraps around.
    pub serial: u8,
    /// Which face turned.
    pub face: Move,
    /// Whether the turn is reversed.
    pub prime: bool,
    /// Milliseconds since the device's internal reference; 16-bit range.
    pub elapsed: u64,
}

/// A decoded event. The protocol defines further event categories; they are
/// reported as the unknown-type failure, never guessed at.
#[derive(Debug, Clone, Copy, PartialEq, Eq, Structural)]
pub enum GanCubeEvent {
    Move(GanCubeMove),
}

/// The event-type discriminant: bits [0,4).
pub open spec fn event_type(data: Seq<u8>) -> nat {
    bits_be(data, 0, 4)
}

/// The face code of a move record: bits [12,16).
pub open spec fn face_code(data: Seq<u8>) -> nat {
    bits_be(data, 12, 16)
}

/// The protocol guarantees face codes 0 to 5 on every move record. A buffer
/// breaking that guarantee is a contract violation, not a decode failure.
pub open spec fn face_code_ok(data: Seq<u8>) -> bool {
    (data.len() >= 8 && event_type(data) == 2) ==> face_code(data) <= 5
}

/// The face a code stands for, in the canonical order U,R,F,D,L,B.
pub open spec fn face_of_code(c: nat) -> Move
    recommends
        c <= 5,
{
    if c == 0 {
        Move::U
    } else if c == 1 {
        Move::R
    } else if c == 2 {
        Move::F
    } else if c == 3 {
        Move::D
    } else if c == 4 {
        Move::L
    } else {
        Move::B
    }
}

/// The move record held in `data`: serial in bits [4,12), face code in
/// [12,16), the prime flag in bit 16, elapsed milliseconds in bits [47,63).
pub open spec fn move_spec(data: Seq<u8>) -> GanCubeMove
    recommends
        data.len() >= 8,
{
    GanCubeMove {
        serial: bits_be(data, 4, 12) as u8,
        face: face_of_code(face_code(data)),
        prime: bit_at(data, 16),
        elapsed: bits_be(data, 47, 63) as u64,
    }
}

/// What decoding a buffer yields. A buffer too short even for the
/// discriminant cannot hold any recognizable record and is reported as the
/// length failure; an unrecognized discriminant is reported before any
/// length demand a move record would make.
pub open spec fn decode_spec(data: Seq<u8>) -> Result<GanCubeEvent, DecodeError> {
    if data.len() < 1 {
        Err(DecodeError::InvalidLength)
    } else if event_type(data) != 2 {
        Err(DecodeError::UnknownEventType)
    } else if data.len() < 8 {
        Err(DecodeError::InvalidLength)
    } else {
        Ok(GanCubeEvent::Move(move_spec(data)))
    }
}

impl GanCubeMove {
    /// The turn as a command: the face, with repeatance -1 for a prime turn
    /// and 1 otherwise.
    pub fn command(&self) -> (c: Command)
        ensures
            c == command_spec(*self),
    {
        Command(self.face, if self.prime { -1 } else { 1 })
    }

    /// The move record of a buffer that already passed the discriminant
    /// check: its serial, face, direction and elapsed time, or the length
    /// failure when the buffer cannot hold 63 bits.
    pub fn from_bytes(bytes: &Vec<u8>) -> (r: Result<GanCubeMove, DecodeError>)
        requires
            bytes@.len() >= 8 ==> face_code(bytes@) <= 5,
        ensures
            bytes@.len() < 8 ==> r == Result::<GanCubeMove, DecodeError>::Err(
                DecodeError::InvalidLength,
            ),
            bytes@.len() >= 8 ==> r == Result::<GanCubeMove, DecodeError>::Ok(move_spec(bytes@)),
    {
        if bytes.len() < 8 {
            return Err(DecodeError::InvalidLength);
        }
        proof {
            lemma_bits_be_bound(bytes@, 4, 12);
            lemma_bits_be_bound(bytes@, 16, 17);
            vstd::arithmetic::power2::lemma2_to64();
        }
        let serial = load_bits_be(bytes, 4, 12) as u8;
        let code = load_bits_be(bytes, 12, 16);
        let face = if code == 0 {
            Move::U
        } else if code == 1 {
            Move::R
        } else if code == 2 {
            Move::F
        } else if code == 3 {
            Move::D
        } else if code == 4 {
            Move::L
        } else {
            Move::B
        };
        let prime = load_bits_be(bytes, 16, 17) == 1;
        let elapsed = load_bits_be(bytes, 47, 63) as u64;
        Ok(GanCubeMove { serial, face, prime, elapsed })
    }
}

/// The command a move stands for.
pub open spec fn command_spec(m: GanCubeMove) -> Command {
    Command(m.face, if m.prime { -1i8 } else { 1i8 })
}

impl GanCubeEvent {
    /// Decodes one decrypted buffer. Exactly the buffers whose discriminant
    /// is 2 and which hold at least 63 bits decode to a move event; an
    /// unrecognized discriminant yields `UnknownEventType`, and a buffer too
    /// short for a move record — or for any record at all — yields
    /// `InvalidLength`.
    pub fn from_bytes(bytes: &Vec<u8>) -> (r: Result<GanCubeEvent, DecodeError>)
        requires
            face_code_ok(bytes@),
        ensures
            r == decode_spec(bytes@),
    {
        if bytes.len() < 1 {
            return Err(DecodeError::InvalidLength);
        }
        let discriminant = load_bits_be(bytes, 0, 4);
        if discriminant != 2 {
            return Err(DecodeError::UnknownEventType);
        }
        match GanCubeMove::from_bytes(bytes) {
            Ok(m) => Ok(GanCubeEvent::Move(m)),
            Err(e) => Err(e),
        }
    }
}

/// Whether a buffer keeps the protocol's face-code guarantee, so that an
/// unverified caller can test it before decoding and treat a breach as the
/// contract violation it is.
pub fn face_code_in_range(bytes: &Vec<u8>) -> (b: bool)
    ensures
        b == face_code_ok(bytes@),
{
    if bytes.len() < 8 {
        return true;
    }
    let discriminant = load_bits_be(bytes, 0, 4);
    if discriminant != 2 {
        return true;
    }
    load_bits_be(bytes, 12, 16) <= 5
}

/// The decoding transform: answers one pull by its consumer. "Not ready"
/// and "no more items" pass through unchanged; an item is decoded, and a
/// failed decode is itself the produced item — it never ends the sequence.
pub fn decode_next(upstream: PollNext<Vec<u8>>) -> (r: PollNext<
    Result<GanCubeEvent, DecodeError>,
>)
    requires
        upstream matches PollNext::Item(buf) ==> face_code_ok(buf@),
    ensures
        match upstream {
            PollNext::Item(buf) => r matches PollNext::Item(res) && res == decode_spec(buf@),
            PollNext::Pending => r is Pending,
            PollNext::Exhausted => r is Exhausted,
        },
{
    match upstream {
        PollNext::Item(buf) => PollNext::Item(GanCubeEvent::from_bytes(&buf)),
        PollNext::Pending => PollNext::Pending,
        PollNext::Exhausted => PollNext::Exhausted,
    }
}

/// Law: decoding is byte-range-pure. Two buffers of at least 8 bytes that
/// agree on bits [0,17) — discriminant, serial, face and the prime flag —
/// and on bits [47,63) — the elapsed time — decode identically, whatever
/// their other bits or lengths.
pub proof fn lemma_decode_reads_event_bits_only(a: Seq<u8>, b: Seq<u8>)
    requires
        a.len() >= 8,
        b.len() >= 8,
        forall|i: int| 0 <= i < 17 ==> bit_at(a, i) == bit_at(b, i),
        forall|i: int| 47 <= i < 63 ==> bit_at(a, i) == bit_at(b, i),
    ensures
        decode_spec(a) == decode_spec(b),
{
    lemma_bits_be_congruent(a, b, 0, 4);
    lemma_bits_be_congruent(a, b, 4, 12);
    lemma_bits_be_congruent(a, b, 12, 16);
    lemma_bits_be_congruent(a, b, 47, 63);
}

} // verus!
