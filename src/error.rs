//! The ways a frame, a block buffer or a facelet state can be rejected.

use vstd::prelude::*;

verus! {

/// Why a buffer could not be decrypted, parsed or decoded.
#[derive(Debug, Clone, Copy, PartialEq, Eq, Structural)]
pub enum ParseError {
    /// The frame does not start with the magic byte `0xFE`.
    BadMagic,
    /// The frame is shorter than its declared length, or than a field of it.
    TooShort,
    /// The checksum carried by the frame does not match its contents.
    FailedChecksum,
    /// The opcode is none that the protocol defines.
    BadOpcode { bad_opcode: u16 },
    /// The turn byte of a state change is not a move (1 to 12).
    BadTurn { turn: u8 },
    /// A facelet holds a value that is no known color.
    BadColorValue,
    /// A buffer handed to the block cipher is not a whole number of blocks.
    InvalidBlockLength,
    /// The opcode is known, but its message is not handled.
    Unimplemented,
}

} // verus!
