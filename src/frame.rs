//! Framing: the magic byte, the declared length, the checksum and the zero
//! padding that wrap every message body, in both directions.

use vstd::prelude::*;
use crate::cipher::{decrypted, encrypted, BlockCipher};
use crate::crc::{crc16, crc16_of};
use crate::error::ParseError;

verus! {

/// The byte that starts every frame.
pub const MAGIC: u8 = 0xFE;

/// Frames are padded with zeros to a multiple of this many bytes.
pub const BLOCK_LEN: usize = 16;

/// The 16-bit value of two bytes, the first the low one.
pub open spec fn le16(lo: u8, hi: u8) -> u16 {
    (lo + 256 * hi) as u16
}

/// `n` rounded up to a multiple of 16.
pub open spec fn padded_len(n: int) -> int {
    if n % 16 == 0 {
        n
    } else {
        n + 16 - n % 16
    }
}

/// The checksummed part of the frame for `body`: magic byte, declared
/// length, body.
pub open spec fn frame_head(body: Seq<u8>) -> Seq<u8> {
    seq![MAGIC, (body.len() + 4) as u8] + body
}

/// The frame for `body`: its head, the checksum of the head (low byte
/// first), then zeros up to a multiple of 16 bytes.
pub open spec fn encode_spec(body: Seq<u8>) -> Seq<u8> {
    let head = frame_head(body);
    let c = crc16_of(head);
    let framed = head + seq![(c % 256) as u8, (c / 256) as u8];
    framed + Seq::new((padded_len(framed.len() as int) - framed.len()) as nat, |i: int| 0u8)
}

/// The body that a (decrypted) frame carries, or why it carries none. The
/// declared length counts magic byte, length byte, body and checksum, and no
/// padding.
pub open spec fn frame_body(bytes: Seq<u8>) -> Result<Seq<u8>, ParseError> {
    if bytes.len() < 1 {
        Err(ParseError::TooShort)
    } else if bytes[0] != MAGIC {
        Err(ParseError::BadMagic)
    } else if bytes.len() < 2 {
        Err(ParseError::TooShort)
    } else if bytes.len() < bytes[1] || bytes[1] < 4 {
        Err(ParseError::TooShort)
    } else if crc16_of(bytes.subrange(0, bytes[1] - 2)) != le16(
        bytes[bytes[1] - 2],
        bytes[bytes[1] - 1],
    ) {
        Err(ParseError::FailedChecksum)
    } else {
        Ok(bytes.subrange(2, bytes[1] - 2))
    }
}

/// Frames `body`: prefixes the magic byte and the length, appends the
/// checksum of all that and pads with zeros to a multiple of 16 bytes.
pub fn encode_frame(body: &[u8]) -> (r: Vec<u8>)
    requires
        body@.len() + 4 <= 255,
    ensures
        r@ == encode_spec(body@),
{
    let mut v: Vec<u8> = Vec::new();
    v.push(MAGIC);
    v.push((body.len() + 4) as u8);
    let mut i: usize = 0;
    while i < body.len()
        invariant
            0 <= i <= body@.len(),
            body@.len() + 4 <= 255,
            v@ == seq![MAGIC, (body@.len() + 4) as u8] + body@.subrange(0, i as int),
        decreases body@.len() - i,
    {
        v.push(body[i]);
        i += 1;
        assert(v@ =~= seq![MAGIC, (body@.len() + 4) as u8] + body@.subrange(0, i as int));
    }
    assert(v@ =~= frame_head(body@));
    let c = crc16(v.as_slice());
    v.push((c % 256) as u8);
    v.push((c / 256) as u8);
    let ghost framed = v@;
    assert(framed =~= frame_head(body@) + seq![(c % 256) as u8, (c / 256) as u8]);
    while v.len() % BLOCK_LEN != 0
        invariant
            framed.len() <= v@.len() <= padded_len(framed.len() as int),
            framed.len() == body@.len() + 4,
            body@.len() + 4 <= 255,
            v@.subrange(0, framed.len() as int) == framed,
            forall|k: int| framed.len() <= k < v@.len() ==> #[trigger] v@[k] == 0,
        decreases padded_len(framed.len() as int) - v@.len(),
    {
        v.push(0);
    }
    assert(v@.len() == padded_len(framed.len() as int));
    assert(v@ =~= encode_spec(body@)) by {
        assert forall|k: int| 0 <= k < framed.len() implies v@[k] == #[trigger] framed[k] by {
            assert(v@.subrange(0, framed.len() as int)[k] == framed[k]);
        }
    }
    v
}

/// A frame for `body` as it goes on the wire: framed, then encrypted block by
/// block.
pub fn seal_command(cipher: &BlockCipher, body: &[u8]) -> (r: Vec<u8>)
    requires
        body@.len() + 4 <= 255,
    ensures
        r@ == encrypted(cipher.key@, encode_spec(body@)),
        decrypted(cipher.key@, r@) == encode_spec(body@),
{
    let mut v = encode_frame(body);
    assert(v@.len() % 16 == 0);
    let _ = cipher.encrypt_blocks(&mut v);
    v
}

/// The hello that opens a session: eleven zero bytes, then the six bytes of
/// the peer's hardware address `mac` in reverse order.
pub fn make_app_hello(mac: [u8; 6]) -> (r: Vec<u8>)
    ensures
        r@ == Seq::new(11, |i: int| 0u8) + mac@.reverse(),
{
    let mut v: Vec<u8> = Vec::new();
    let mut i: usize = 0;
    while i < 11
        invariant
            0 <= i <= 11,
            v@ == Seq::new(i as nat, |k: int| 0u8),
        decreases 11 - i,
    {
        v.push(0);
        i += 1;
        assert(v@ =~= Seq::new(i as nat, |k: int| 0u8));
    }
    let mut j: usize = 6;
    while j > 0
        invariant
            0 <= j <= 6,
            v@ == Seq::new(11, |k: int| 0u8) + mac@.reverse().subrange(0, 6 - j),
        decreases j,
    {
        j -= 1;
        v.push(mac[j]);
        assert(v@ =~= Seq::new(11, |k: int| 0u8) + mac@.reverse().subrange(0, 6 - j));
    }
    assert(mac@.reverse().subrange(0, 6) =~= mac@.reverse());
    v
}

/// Framing a body of at most 251 bytes and reading the frame back gives the
/// body: the length, the magic byte and the checksum all hold, and the
/// padding is dropped.
pub proof fn encoded_frame_round_trip(body: Seq<u8>)
    requires
        body.len() <= 251,
    ensures
        frame_body(encode_spec(body)) == Ok::<Seq<u8>, ParseError>(body),
{
    let head = frame_head(body);
    let c = crc16_of(head);
    let e = encode_spec(body);
    let l = body.len() + 4;
    assert(e[0] == MAGIC);
    assert(e[1] == l as u8);
    assert(e.subrange(0, l - 2) =~= head);
    assert(e.subrange(2, l - 2) =~= body);
    assert(e[l - 2] == (c % 256) as u8);
    assert(e[l - 1] == (c / 256) as u8);
    assert(le16((c % 256) as u8, (c / 256) as u8) == c);
}

} // verus!
