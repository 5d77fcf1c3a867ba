//! Codec for the notification protocol of a Bluetooth smart cube: block
//! encryption, frame checksums and framing, message parsing and the decoding
//! of the packed facelet state.

mod cipher;
mod crc;
mod cubestate;
mod error;
mod frame;
mod messages;
mod session;

pub use crate::crc::{crc16, crc16_of, crc_shift, crc_shift_n, crc_update, flipped_bit_changes_checksum};
pub use crate::cubestate::{
    known_colors, pack_facelets, packed_facelets_round_trip, solved_face_code, solved_facelets, solved_facelets_decode,
    unpack_facelets, Color, CubeState,
};
pub use crate::error::ParseError;
pub use crate::cipher::{
    aes128_decrypt, aes128_encrypt, block_of, blockwise, cipher_block, cube_key, decrypted, encrypted,
    BlockCipher,
};
pub use crate::frame::{
    encode_frame, encode_spec, encoded_frame_round_trip, frame_body, frame_head, le16, make_app_hello,
    padded_len, seal_command, BLOCK_LEN, MAGIC,
};
pub use crate::messages::{
    be32, body_spec, byte_opcode_body, declared_length_past_end_is_too_short, message_of, needs_ack_spec,
    parse_c2a_message, parse_of_encoded_frame, parse_spec, ticks_to_millis, with_known_colors, word_opcode_body, BodyModel,
    C2aBody, C2aMessage, CubeHello, MessageModel, Opcode, Revision, StateChange, Turn,
};
pub use crate::session::handle_notification;
