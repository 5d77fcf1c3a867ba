//! Messages from the cube: the frame is checked and unwrapped, then its body
//! is read according to its opcode.

use vstd::prelude::*;
use crate::crc::crc16;
use crate::cubestate::{known_colors, solved_facelets, unpack_facelets, CubeState};
use crate::error::ParseError;
use crate::frame::{encode_spec, encoded_frame_round_trip, frame_body, le16, MAGIC};

verus! {

/// The two framings the cube has been seen to speak. Nothing in a frame tells
/// them apart, so the caller picks one.
#[derive(Debug, Clone, Copy, PartialEq, Eq, Structural)]
pub enum Revision {
    /// A one-byte opcode, followed by a big-endian tick counter; a state
    /// change carries the turn that caused it and is acknowledged only when
    /// it leaves the cube solved.
    ByteOpcode,
    /// A two-byte little-endian opcode; messages carry no timestamp and no
    /// turn, and every one is acknowledged.
    WordOpcode,
}

/// What a message from the cube is about.
#[derive(Debug, Clone, Copy, PartialEq, Eq, Structural)]
pub enum Opcode {
    CubeHello,
    StateChange,
    SyncConfirmation,
}

impl Opcode {
    /// The opcode with the value `x`, if any.
    pub open spec fn from_code(x: u16) -> Option<Opcode> {
        if x == 2 {
            Some(Opcode::CubeHello)
        } else if x == 3 {
            Some(Opcode::StateChange)
        } else if x == 4 {
            Some(Opcode::SyncConfirmation)
        } else {
            None
        }
    }

    /// Reads a one-byte opcode.
    pub fn from_u8(x: u8) -> (r: Result<Opcode, ParseError>)
        ensures
            match Opcode::from_code(x as u16) {
                Some(op) => r == Ok::<Opcode, ParseError>(op),
                None => r == Err::<Opcode, ParseError>(ParseError::BadOpcode { bad_opcode: x as u16 }),
            },
    {
        Opcode::from_u16(x as u16)
    }

    /// Reads a two-byte opcode.
    pub fn from_u16(x: u16) -> (r: Result<Opcode, ParseError>)
        ensures
            match Opcode::from_code(x) {
                Some(op) => r == Ok::<Opcode, ParseError>(op),
                None => r == Err::<Opcode, ParseError>(ParseError::BadOpcode { bad_opcode: x }),
            },
    {
        if x == 2 {
            Ok(Opcode::CubeHello)
        } else if x == 3 {
            Ok(Opcode::StateChange)
        } else if x == 4 {
            Ok(Opcode::SyncConfirmation)
        } else {
            Err(ParseError::BadOpcode { bad_opcode: x })
        }
    }
}

/// A quarter turn of one face; `i` marks the counter-clockwise ones.
#[derive(Debug, Clone, Copy, PartialEq, Eq, Structural)]
pub enum Turn {
    Li,
    L,
    Ri,
    R,
    Di,
    D,
    Ui,
    U,
    Fi,
    F,
    Bi,
    B,
}

impl Turn {
    /// The byte that stands for this turn.
    pub open spec fn code(self) -> u8 {
        match self {
            Turn::Li => 1,
            Turn::L => 2,
            Turn::Ri => 3,
            Turn::R => 4,
            Turn::Di => 5,
            Turn::D => 6,
            Turn::Ui => 7,
            Turn::U => 8,
            Turn::Fi => 9,
            Turn::F => 10,
            Turn::Bi => 11,
            Turn::B => 12,
        }
    }

    /// The turn that the byte `x` stands for, if any.
    pub open spec fn from_code(x: u8) -> Option<Turn> {
        if x == 1 {
            Some(Turn::Li)
        } else if x == 2 {
            Some(Turn::L)
        } else if x == 3 {
            Some(Turn::Ri)
        } else if x == 4 {
            Some(Turn::R)
        } else if x == 5 {
            Some(Turn::Di)
        } else if x == 6 {
            Some(Turn::D)
        } else if x == 7 {
            Some(Turn::Ui)
        } else if x == 8 {
            Some(Turn::U)
        } else if x == 9 {
            Some(Turn::Fi)
        } else if x == 10 {
            Some(Turn::F)
        } else if x == 11 {
            Some(Turn::Bi)
        } else if x == 12 {
            Some(Turn::B)
        } else {
            None
        }
    }

    /// The usual notation of this turn.
    pub open spec fn notation_spec(self) -> Seq<char> {
        match self {
            Turn::Li => "L'"@,
            Turn::L => "L"@,
            Turn::Ri => "R'"@,
            Turn::R => "R"@,
            Turn::Di => "D'"@,
            Turn::D => "D"@,
            Turn::Ui => "U'"@,
            Turn::U => "U"@,
            Turn::Fi => "F'"@,
            Turn::F => "F"@,
            Turn::Bi => "B'"@,
            Turn::B => "B"@,
        }
    }

    /// Reads a turn byte; fails with `BadTurn` on any byte but 1 to 12.
    pub fn from_byte(x: u8) -> (r: Result<Turn, ParseError>)
        ensures
            match Turn::from_code(x) {
                Some(t) => r == Ok::<Turn, ParseError>(t),
                None => r == Err::<Turn, ParseError>(ParseError::BadTurn { turn: x }),
            },
    {
        match x {
            1 => Ok(Turn::Li),
            2 => Ok(Turn::L),
            3 => Ok(Turn::Ri),
            4 => Ok(Turn::R),
            5 => Ok(Turn::Di),
            6 => Ok(Turn::D),
            7 => Ok(Turn::Ui),
            8 => Ok(Turn::U),
            9 => Ok(Turn::Fi),
            10 => Ok(Turn::F),
            11 => Ok(Turn::Bi),
            12 => Ok(Turn::B),
            _ => Err(ParseError::BadTurn { turn: x }),
        }
    }

    /// The usual notation of this turn (`R`, `U'`, ...).
    pub fn notation(&self) -> (r: &'static str)
        ensures
            r@ == self.notation_spec(),
    {
        match self {
            Turn::Li => "L'",
            Turn::L => "L",
            Turn::Ri => "R'",
            Turn::R => "R",
            Turn::Di => "D'",
            Turn::D => "D",
            Turn::Ui => "U'",
            Turn::U => "U",
            Turn::Fi => "F'",
            Turn::F => "F",
            Turn::Bi => "B'",
            Turn::B => "B",
        }
    }
}


/// The facelet state a hello from the cube reports.
#[derive(Debug)]
pub struct CubeHello {
    pub state: CubeState,
}

/// A change of the cube's state.
#[derive(Debug)]
pub struct StateChange {
    pub state: CubeState,
    /// The turn that caused it, where the revision reports one.
    pub turn: Option<Turn>,
}

/// The "body" of a cube->app message: the decrypted contents minus the magic
/// byte, the length, the opcode, the checksum and the padding.
#[derive(Debug)]
pub enum C2aBody {
    CubeHello(CubeHello),
    StateChange(StateChange),
}

/// A message body as values: the facelets, and the turn of a state change.
pub enum BodyModel {
    CubeHello { state: Seq<u8> },
    StateChange { state: Seq<u8>, turn: Option<Turn> },
}

/// A message from the cube as values.
pub struct MessageModel {
    pub revision: Revision,
    /// The five bytes that an acknowledgement echoes.
    pub ack_head: Seq<u8>,
    /// Milliseconds on the cube's clock, where the revision reports them.
    pub timestamp: Option<u32>,
    pub body: BodyModel,
}

impl View for C2aBody {
    type V = BodyModel;

    open spec fn view(&self) -> BodyModel {
        match self {
            C2aBody::CubeHello(h) => BodyModel::CubeHello { state: h.state@ },
            C2aBody::StateChange(sc) => BodyModel::StateChange { state: sc.state@, turn: sc.turn },
        }
    }
}

/// A message from the cube to the app.
#[derive(Debug)]
pub struct C2aMessage {
    revision: Revision,
    /// The opcode and the four bytes after it, which an acknowledgement
    /// echoes.
    ack_head: Vec<u8>,
    millis_timestamp: Option<u32>,
    body: C2aBody,
}

impl View for C2aMessage {
    type V = MessageModel;

    closed spec fn view(&self) -> MessageModel {
        MessageModel {
            revision: self.revision,
            ack_head: self.ack_head@,
            timestamp: self.millis_timestamp,
            body: self.body@,
        }
    }
}

/// Whether the cube expects a message to be acknowledged: a hello always; a
/// state change always under `WordOpcode`, and under `ByteOpcode` only where
/// it leaves the cube solved.
pub open spec fn needs_ack_spec(m: MessageModel) -> bool {
    match m.body {
        BodyModel::CubeHello { .. } => true,
        BodyModel::StateChange { state, .. } => m.revision == Revision::WordOpcode || state
            == solved_facelets(),
    }
}

/// Four bytes read as a big-endian number.
pub open spec fn be32(a: u8, b: u8, c: u8, d: u8) -> u32 {
    (a * 16777216 + b * 65536 + c * 256 + d) as u32
}

/// Milliseconds for a count of the cube's ticks, 1.6 of which make a
/// millisecond, truncated.
pub open spec fn ticks_to_millis(ticks: u32) -> u32 {
    (ticks * 5 / 8) as u32
}

/// A message with the given parts, its ack window being the first five
/// bytes of `body`.
pub open spec fn message_of(revision: Revision, body: Seq<u8>, timestamp: Option<u32>, b: BodyModel) -> MessageModel {
    MessageModel { revision, ack_head: body.subrange(0, 5), timestamp, body: b }
}

/// `m`, where every facelet of `state` holds a known color; else the
/// frame is rejected with `BadColorValue`.
pub open spec fn with_known_colors(state: Seq<u8>, m: MessageModel) -> Result<MessageModel, ParseError> {
    if known_colors(state) {
        Ok(m)
    } else {
        Err(ParseError::BadColorValue)
    }
}

/// What a frame's body (opcode onward) says under the one-byte opcode
/// framing: opcode, tick counter, 27 bytes of facelets, and, in a state
/// change, the turn byte.
pub open spec fn byte_opcode_body(b: Seq<u8>) -> Result<MessageModel, ParseError> {
    if b.len() < 1 {
        Err(ParseError::TooShort)
    } else {
        let state = unpack_facelets(b.subrange(5, 32));
        match Opcode::from_code(b[0] as u16) {
            None => Err(ParseError::BadOpcode { bad_opcode: b[0] as u16 }),
            Some(Opcode::SyncConfirmation) => Err(ParseError::Unimplemented),
            Some(Opcode::CubeHello) => if b.len() < 32 {
                Err(ParseError::TooShort)
            } else {
                with_known_colors(
                    state,
                    message_of(
                        Revision::ByteOpcode,
                        b,
                        Some(ticks_to_millis(be32(b[1], b[2], b[3], b[4]))),
                        BodyModel::CubeHello { state },
                    ),
                )
            },
            Some(Opcode::StateChange) => if b.len() < 33 {
                Err(ParseError::TooShort)
            } else {
                match Turn::from_code(b[32]) {
                    None => Err(ParseError::BadTurn { turn: b[32] }),
                    Some(t) => with_known_colors(
                        state,
                        message_of(
                            Revision::ByteOpcode,
                            b,
                            Some(ticks_to_millis(be32(b[1], b[2], b[3], b[4]))),
                            BodyModel::StateChange { state, turn: Some(t) },
                        ),
                    ),
                }
            },
        }
    }
}

/// What a frame's body says under the two-byte opcode framing: opcode, three
/// reserved bytes, 27 bytes of facelets and two reserved bytes, and in a
/// state change 56 reserved bytes more.
pub open spec fn word_opcode_body(b: Seq<u8>) -> Result<MessageModel, ParseError> {
    if b.len() < 2 {
        Err(ParseError::TooShort)
    } else {
        let code = le16(b[0], b[1]);
        let state = unpack_facelets(b.subrange(5, 32));
        match Opcode::from_code(code) {
            None => Err(ParseError::BadOpcode { bad_opcode: code }),
            Some(Opcode::SyncConfirmation) => Err(ParseError::Unimplemented),
            Some(Opcode::CubeHello) => if b.len() < 34 {
                Err(ParseError::TooShort)
            } else {
                with_known_colors(
                    state,
                    message_of(Revision::WordOpcode, b, None, BodyModel::CubeHello { state }),
                )
            },
            Some(Opcode::StateChange) => if b.len() < 90 {
                Err(ParseError::TooShort)
            } else {
                with_known_colors(
                    state,
                    message_of(
                        Revision::WordOpcode,
                        b,
                        None,
                        BodyModel::StateChange { state, turn: None },
                    ),
                )
            },
        }
    }
}

/// What a frame's body says under `revision`.
pub open spec fn body_spec(b: Seq<u8>, revision: Revision) -> Result<MessageModel, ParseError> {
    match revision {
        Revision::ByteOpcode => byte_opcode_body(b),
        Revision::WordOpcode => word_opcode_body(b),
    }
}

/// What a decrypted frame says under `revision`: its framing is checked
/// first, then its body is read.
pub open spec fn parse_spec(bytes: Seq<u8>, revision: Revision) -> Result<MessageModel, ParseError> {
    match frame_body(bytes) {
        Err(e) => Err(e),
        Ok(b) => body_spec(b, revision),
    }
}

/// Reads fields at given offsets of a byte slice.
struct Parser<'a> {
    bytes: &'a [u8],
}

impl<'a> Parser<'a> {
    fn get_bytes(&self, idx: usize, n: usize) -> (r: Result<&'a [u8], ParseError>)
        ensures
            idx + n <= self.bytes@.len() ==> (r matches Ok(s) && s@ == self.bytes@.subrange(
                idx as int,
                idx + n,
            )),
            idx + n > self.bytes@.len() ==> r == Err::<&[u8], ParseError>(ParseError::TooShort),
    {
        if idx > self.bytes.len() || n > self.bytes.len() - idx {
            Err(ParseError::TooShort)
        } else {
            Ok(&self.bytes[idx..idx + n])
        }
    }

    fn trim_padding(&mut self, message_length: u8)
        requires
            message_length <= old(self).bytes@.len(),
        ensures
            final(self).bytes@ == old(self).bytes@.subrange(0, message_length as int),
    {
        self.bytes = &self.bytes[0..message_length as usize];
    }

    fn get_u8(&self, idx: usize) -> (r: Result<u8, ParseError>)
        ensures
            idx < self.bytes@.len() ==> r == Ok::<u8, ParseError>(self.bytes@[idx as int]),
            idx >= self.bytes@.len() ==> r == Err::<u8, ParseError>(ParseError::TooShort),
    {
        if idx < self.bytes.len() {
            Ok(self.bytes[idx])
        } else {
            Err(ParseError::TooShort)
        }
    }

    fn get_u16(&self, idx: usize) -> (r: Result<u16, ParseError>)
        ensures
            idx + 2 <= self.bytes@.len() ==> r == Ok::<u16, ParseError>(
                le16(self.bytes@[idx as int], self.bytes@[idx + 1]),
            ),
            idx + 2 > self.bytes@.len() ==> r == Err::<u16, ParseError>(ParseError::TooShort),
    {
        match self.get_bytes(idx, 2) {
            Ok(s) => Ok(s[0] as u16 + 256 * (s[1] as u16)),
            Err(e) => Err(e),
        }
    }

    fn get_u32_be(&self, idx: usize) -> (r: Result<u32, ParseError>)
        ensures
            idx + 4 <= self.bytes@.len() ==> r == Ok::<u32, ParseError>(
                be32(
                    self.bytes@[idx as int],
                    self.bytes@[idx + 1],
                    self.bytes@[idx + 2],
                    self.bytes@[idx + 3],
                ),
            ),
            idx + 4 > self.bytes@.len() ==> r == Err::<u32, ParseError>(ParseError::TooShort),
    {
        match self.get_bytes(idx, 4) {
            Ok(s) => Ok(
                (s[0] as u32) * 16777216 + (s[1] as u32) * 65536 + (s[2] as u32) * 256 + s[3] as u32,
            ),
            Err(e) => Err(e),
        }
    }
}

impl C2aMessage {
    fn needs_ack(&self) -> (r: bool)
        ensures
            r == needs_ack_spec(self@),
    {
        match &self.body {
            C2aBody::CubeHello(_) => true,
            C2aBody::StateChange(sc) => match self.revision {
                Revision::WordOpcode => true,
                Revision::ByteOpcode => sc.state.is_solved(),
            },
        }
    }

    /// Returns `Some(ack)`, the bytes to frame and send back, if this message
    /// needs to be acknowledged; returns `None` if it does not.
    pub fn make_ack(&self) -> (r: Option<&[u8]>)
        ensures
            r is Some <==> needs_ack_spec(self@),
            r matches Some(a) ==> a@ == self@.ack_head,
    {
        if self.needs_ack() {
            Some(self.ack_head.as_slice())
        } else {
            None
        }
    }

    /// The time of the message in milliseconds, where the revision reports
    /// one.
    pub fn timestamp(&self) -> (r: Option<u32>)
        ensures
            r == self@.timestamp,
    {
        self.millis_timestamp
    }

    /// What the message reports.
    pub fn body(&self) -> (r: &C2aBody)
        ensures
            r@ == self@.body,
    {
        &self.body
    }

    /// The framing this message was read under.
    pub fn revision(&self) -> (r: Revision)
        ensures
            r == self@.revision,
    {
        self.revision
    }
}

/// Reads the body of a frame (opcode onward, checksum and padding removed).
fn parse_body(body: &[u8], revision: Revision) -> (r: Result<C2aMessage, ParseError>)
    ensures
        match r {
            Ok(m) => body_spec(body@, revision) == Ok::<MessageModel, ParseError>(m@),
            Err(e) => body_spec(body@, revision) == Err::<MessageModel, ParseError>(e),
        },
{
    let p = Parser { bytes: body };
    let (opcode, millis_timestamp) = match revision {
        Revision::ByteOpcode => {
            let code = match p.get_u8(0) {
                Ok(c) => c,
                Err(e) => return Err(e),
            };
            let opcode = match Opcode::from_u8(code) {
                Ok(op) => op,
                Err(e) => return Err(e),
            };
            if let Opcode::SyncConfirmation = opcode {
                return Err(ParseError::Unimplemented);
            }
            let ticks = match p.get_u32_be(1) {
                Ok(t) => t,
                Err(e) => return Err(e),
            };
            (opcode, Some(((ticks as u64) * 5 / 8) as u32))
        },
        Revision::WordOpcode => {
            let code = match p.get_u16(0) {
                Ok(c) => c,
                Err(e) => return Err(e),
            };
            let opcode = match Opcode::from_u16(code) {
                Ok(op) => op,
                Err(e) => return Err(e),
            };
            (opcode, None)
        },
    };
    let parsed = match opcode {
        Opcode::SyncConfirmation => {
            return Err(ParseError::Unimplemented);
        },
        Opcode::CubeHello => {
            let needed: usize = match revision {
                Revision::ByteOpcode => 32,
                Revision::WordOpcode => 34,
            };
            if body.len() < needed {
                return Err(ParseError::TooShort);
            }
            let rawstate = match p.get_bytes(5, 27) {
                Ok(s) => s,
                Err(e) => return Err(e),
            };
            let state = CubeState::from_raw(rawstate);
            if !state.colors_known() {
                return Err(ParseError::BadColorValue);
            }
            C2aBody::CubeHello(CubeHello { state })
        },
        Opcode::StateChange => {
            let rawstate = match p.get_bytes(5, 27) {
                Ok(s) => s,
                Err(e) => return Err(e),
            };
            let turn = match revision {
                Revision::ByteOpcode => {
                    let turnbyte = match p.get_u8(32) {
                        Ok(t) => t,
                        Err(e) => return Err(e),
                    };
                    match Turn::from_byte(turnbyte) {
                        Ok(t) => Some(t),
                        Err(e) => return Err(e),
                    }
                },
                Revision::WordOpcode => {
                    if body.len() < 90 {
                        return Err(ParseError::TooShort);
                    }
                    None
                },
            };
            let state = CubeState::from_raw(rawstate);
            if !state.colors_known() {
                return Err(ParseError::BadColorValue);
            }
            C2aBody::StateChange(StateChange { state, turn })
        },
    };
    let mut ack_head: Vec<u8> = Vec::new();
    let mut i: usize = 0;
    while i < 5
        invariant
            0 <= i <= 5,
            body@.len() >= 32,
            ack_head@ == body@.subrange(0, i as int),
        decreases 5 - i,
    {
        ack_head.push(body[i]);
        i += 1;
        assert(ack_head@ =~= body@.subrange(0, i as int));
    }
    let m = C2aMessage { revision, ack_head, millis_timestamp, body: parsed };
    assert(m@.ack_head =~= body@.subrange(0, 5));
    Ok(m)
}

/// Given the bytes of a **decrypted** frame, parses them into a cube->app
/// message under `revision`. The frame must start with the magic byte, hold
/// at least its declared length (at least 4) and carry the checksum of its
/// contents; what follows the declared length is padding. A message whose
/// facelets hold a value that is no color is rejected with `BadColorValue`.
pub fn parse_c2a_message(bytes: &[u8], revision: Revision) -> (r: Result<C2aMessage, ParseError>)
    ensures
        match r {
            Ok(m) => parse_spec(bytes@, revision) == Ok::<MessageModel, ParseError>(m@),
            Err(e) => parse_spec(bytes@, revision) == Err::<MessageModel, ParseError>(e),
        },
{
    let mut p = Parser { bytes };
    let magic = match p.get_u8(0) {
        Ok(b) => b,
        Err(e) => return Err(e),
    };
    if magic != MAGIC {
        return Err(ParseError::BadMagic);
    }
    let length = match p.get_u8(1) {
        Ok(b) => b,
        Err(e) => return Err(e),
    };
    if bytes.len() < length as usize || length < 4 {
        return Err(ParseError::TooShort);
    }
    p.trim_padding(length);
    let end = length as usize - 2;
    let checksum = match p.get_u16(end) {
        Ok(c) => c,
        Err(e) => return Err(e),
    };
    let covered = match p.get_bytes(0, end) {
        Ok(s) => s,
        Err(e) => return Err(e),
    };
    let ghost l = length as int;
    assert(covered@ =~= bytes@.subrange(0, l - 2));
    assert(p.bytes@[l - 2] == bytes@[l - 2] && p.bytes@[l - 1] == bytes@[l - 1]);
    if crc16(covered) != checksum {
        return Err(ParseError::FailedChecksum);
    }
    let body = match p.get_bytes(2, end - 2) {
        Ok(s) => s,
        Err(e) => return Err(e),
    };
    assert(body@ =~= bytes@.subrange(2, l - 2));
    parse_body(body, revision)
}

/// Framing a body and parsing the frame reads the body as it was: the
/// framing never stands in the way of a body of at most 251 bytes.
pub proof fn parse_of_encoded_frame(body: Seq<u8>, revision: Revision)
    requires
        body.len() <= 251,
    ensures
        parse_spec(encode_spec(body), revision) == body_spec(body, revision),
{
    encoded_frame_round_trip(body);
}

/// A frame whose declared length is beyond the end of the buffer is rejected
/// as too short.
pub proof fn declared_length_past_end_is_too_short(bytes: Seq<u8>, revision: Revision)
    requires
        bytes.len() >= 2,
        bytes[0] == MAGIC,
        bytes[1] > bytes.len(),
    ensures
        parse_spec(bytes, revision) == Err::<MessageModel, ParseError>(ParseError::TooShort),
{
}

} // verus!
