//! One step of a session with the cube: what to make of a notification, and
//! what to send back.

use vstd::prelude::*;
use crate::cipher::{decrypted, encrypted, BlockCipher};
use crate::error::ParseError;
use crate::frame::{encode_spec, seal_command};
use crate::messages::{
    needs_ack_spec, parse_c2a_message, parse_spec, C2aMessage, MessageModel, Revision,
};

verus! {

proof fn lemma_ack_head_len(bytes: Seq<u8>, revision: Revision, m: MessageModel)
    requires
        parse_spec(bytes, revision) == Ok::<MessageModel, ParseError>(m),
    ensures
        m.ack_head.len() == 5,
{
}

/// Decrypts and parses a notification of the cube, and seals the
/// acknowledgement the message asks for, if any. Fails with
/// `InvalidBlockLength` where the notification is not a whole number of
/// blocks, and with the parse error where its frame is rejected.
pub fn handle_notification(cipher: &BlockCipher, notification: Vec<u8>, revision: Revision) -> (r:
    Result<(C2aMessage, Option<Vec<u8>>), ParseError>)
    ensures
        notification@.len() % 16 != 0 ==> (r matches Err(e) && e == ParseError::InvalidBlockLength),
        notification@.len() % 16 == 0 ==> match r {
            Ok((m, ack)) => {
                &&& parse_spec(decrypted(cipher.key@, notification@), revision) == Ok::<
                    MessageModel,
                    ParseError,
                >(m@)
                &&& ack is Some <==> needs_ack_spec(m@)
                &&& ack matches Some(a) ==> a@ == encrypted(cipher.key@, encode_spec(m@.ack_head))
            },
            Err(e) => parse_spec(decrypted(cipher.key@, notification@), revision) == Err::<
                MessageModel,
                ParseError,
            >(e),
        },
{
    let mut bytes = notification;
    match cipher.decrypt_blocks(&mut bytes) {
        Ok(()) => {},
        Err(e) => return Err(e),
    }
    let msg = match parse_c2a_message(bytes.as_slice(), revision) {
        Ok(m) => m,
        Err(e) => return Err(e),
    };
    proof {
        lemma_ack_head_len(bytes@, revision, msg@);
    }
    let reply = match msg.make_ack() {
        Some(head) => Some(seal_command(cipher, head)),
        None => None,
    };
    Ok((msg, reply))
}

} // verus!
