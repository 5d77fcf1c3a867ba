//! The block cipher envelope: AES-128 under a fixed key, applied to each
//! 16-byte block of a buffer on its own, with no chaining and no IV.

use aes::cipher::{BlockDecrypt, BlockEncrypt, KeyInit};
use vstd::prelude::*;
use crate::error::ParseError;

verus! {

/// The AES-128 encryption of one 16-byte block under a 16-byte key.
pub uninterp spec fn aes128_encrypt(key: Seq<u8>, block: Seq<u8>) -> Seq<u8>;

/// The AES-128 decryption of one 16-byte block under a 16-byte key.
pub uninterp spec fn aes128_decrypt(key: Seq<u8>, block: Seq<u8>) -> Seq<u8>;

/// Relies on aes::Aes128, through `KeyInit::new` and
/// `BlockEncrypt::encrypt_block`: the block is the AES-128 encryption of its
/// input under `key`, and AES-128 decryption under the same key gives the
/// input back.
#[verifier::external_body]
fn aes128_encrypt_block(key: &[u8; 16], block: [u8; 16]) -> (r: [u8; 16])
    ensures
        r@ == aes128_encrypt(key@, block@),
        aes128_decrypt(key@, r@) == block@,
{
    let mut b = aes::Block::from(block);
    aes::Aes128::new(&(*key).into()).encrypt_block(&mut b);
    b.into()
}

/// Relies on aes::Aes128, through `KeyInit::new` and
/// `BlockDecrypt::decrypt_block`: the block is the AES-128 decryption of its
/// input under `key`.
#[verifier::external_body]
fn aes128_decrypt_block(key: &[u8; 16], block: [u8; 16]) -> (r: [u8; 16])
    ensures
        r@ == aes128_decrypt(key@, block@),
{
    let mut b = aes::Block::from(block);
    aes::Aes128::new(&(*key).into()).decrypt_block(&mut b);
    b.into()
}

/// The key that the cube and its peer share.
pub open spec fn cube_key() -> Seq<u8> {
    seq![87u8, 177, 249, 171, 205, 90, 232, 167, 156, 185, 140, 231, 87, 140, 81, 8]
}

/// The `b`-th 16-byte block of `s`.
pub open spec fn block_of(s: Seq<u8>, b: int) -> Seq<u8> {
    s.subrange(16 * b, 16 * b + 16)
}

/// One block encrypted, or decrypted where `decrypt` holds.
pub open spec fn cipher_block(key: Seq<u8>, block: Seq<u8>, decrypt: bool) -> Seq<u8> {
    if decrypt {
        aes128_decrypt(key, block)
    } else {
        aes128_encrypt(key, block)
    }
}

/// `s` with each of its 16-byte blocks encrypted (or decrypted) on its own.
pub open spec fn blockwise(key: Seq<u8>, s: Seq<u8>, decrypt: bool) -> Seq<u8> {
    Seq::new(s.len(), |n: int| cipher_block(key, block_of(s, n / 16), decrypt)[n % 16])
}

/// `s` with each of its blocks encrypted under `key`.
pub open spec fn encrypted(key: Seq<u8>, s: Seq<u8>) -> Seq<u8> {
    blockwise(key, s, false)
}

/// `s` with each of its blocks decrypted under `key`.
pub open spec fn decrypted(key: Seq<u8>, s: Seq<u8>) -> Seq<u8> {
    blockwise(key, s, true)
}

/// AES-128 under a fixed key, block by block.
pub struct BlockCipher {
    pub key: [u8; 16],
}

impl BlockCipher {
    /// The cipher under the key that the cube uses.
    pub fn new() -> (r: BlockCipher)
        ensures
            r.key@ == cube_key(),
    {
        let key: [u8; 16] = [87, 177, 249, 171, 205, 90, 232, 167, 156, 185, 140, 231, 87, 140, 81, 8];
        assert(key@ =~= cube_key());
        BlockCipher { key }
    }

    /// Encrypts `buf` in place, block by block; fails with
    /// `InvalidBlockLength`, leaving it as it was, where it is not a whole
    /// number of blocks. Decrypting the result gives `buf` back.
    pub fn encrypt_blocks(&self, buf: &mut Vec<u8>) -> (r: Result<(), ParseError>)
        ensures
            r is Err <==> old(buf)@.len() % 16 != 0,
            r is Err ==> r == Err::<(), ParseError>(ParseError::InvalidBlockLength) && final(buf)@
                == old(buf)@,
            r is Ok ==> final(buf)@ == encrypted(self.key@, old(buf)@),
            r is Ok ==> decrypted(self.key@, final(buf)@) == old(buf)@,
    {
        if buf.len() % 16 != 0 {
            return Err(ParseError::InvalidBlockLength);
        }
        self.transform_blocks(buf, false);
        Ok(())
    }

    /// Decrypts `buf` in place, block by block; fails with
    /// `InvalidBlockLength`, leaving it as it was, where it is not a whole
    /// number of blocks.
    pub fn decrypt_blocks(&self, buf: &mut Vec<u8>) -> (r: Result<(), ParseError>)
        ensures
            r is Err <==> old(buf)@.len() % 16 != 0,
            r is Err ==> r == Err::<(), ParseError>(ParseError::InvalidBlockLength) && final(buf)@
                == old(buf)@,
            r is Ok ==> final(buf)@ == decrypted(self.key@, old(buf)@),
    {
        if buf.len() % 16 != 0 {
            return Err(ParseError::InvalidBlockLength);
        }
        self.transform_blocks(buf, true);
        Ok(())
    }

    fn transform_blocks(&self, buf: &mut Vec<u8>, decrypt: bool)
        requires
            old(buf)@.len() % 16 == 0,
        ensures
            final(buf)@ == blockwise(self.key@, old(buf)@, decrypt),
            !decrypt ==> decrypted(self.key@, final(buf)@) == old(buf)@,
    {
        let ghost orig = buf@;
        let ghost key = self.key@;
        let nblocks = buf.len() / 16;
        let mut i: usize = 0;
        while i < nblocks
            invariant
                orig.len() % 16 == 0,
                nblocks as int * 16 == orig.len(),
                0 <= i <= nblocks,
                key == self.key@,
                buf@.len() == orig.len(),
                orig.len() <= usize::MAX,
                forall|n: int| 0 <= n < 16 * i ==> buf@[n] == #[trigger] blockwise(key, orig, decrypt)[n],
                forall|n: int| 16 * i <= n < orig.len() ==> buf@[n] == #[trigger] orig[n],
                forall|b: int|
                    0 <= b < i ==> (#[trigger] cipher_block(key, block_of(orig, b), decrypt)).len()
                        == 16,
                !decrypt ==> forall|b: int|
                    0 <= b < i ==> aes128_decrypt(key, #[trigger] aes128_encrypt(key, block_of(orig, b)))
                        == block_of(orig, b),
            decreases nblocks - i,
        {
            assert(i * 16 < orig.len());
            let start = i * 16;
            let mut block: [u8; 16] = [0u8; 16];
            let mut j: usize = 0;
            while j < 16
                invariant
                    start == i * 16,
                    i < nblocks,
                    nblocks as int * 16 == orig.len(),
                    buf@.len() == orig.len(),
                    0 <= j <= 16,
                    forall|n: int| 16 * i <= n < orig.len() ==> buf@[n] == #[trigger] orig[n],
                    forall|m: int| 0 <= m < j ==> block@[m] == #[trigger] orig[start + m],
                decreases 16 - j,
            {
                block[j] = buf[start + j];
                j += 1;
            }
            assert forall|m: int| 0 <= m < 16 implies block@[m] == #[trigger] block_of(
                orig,
                i as int,
            )[m] by {
                assert(orig[start + m] == orig.subrange(16 * i, 16 * i + 16)[m]);
            }
            assert(block@ =~= block_of(orig, i as int));
            let out = if decrypt {
                aes128_decrypt_block(&self.key, block)
            } else {
                aes128_encrypt_block(&self.key, block)
            };
            assert(out@ == cipher_block(key, block_of(orig, i as int), decrypt));
            let mut j: usize = 0;
            while j < 16
                invariant
                    start == i * 16,
                    i < nblocks,
                    nblocks as int * 16 == orig.len(),
                    buf@.len() == orig.len(),
                    0 <= j <= 16,
                    out@ == cipher_block(key, block_of(orig, i as int), decrypt),
                    forall|n: int| 0 <= n < 16 * i ==> buf@[n] == #[trigger] blockwise(key, orig, decrypt)[n],
                    forall|n: int| 16 * i + j <= n < orig.len() ==> buf@[n] == #[trigger] orig[n],
                    forall|m: int| 0 <= m < j ==> buf@[start + m] == #[trigger] out@[m],
                decreases 16 - j,
            {
                buf[start + j] = out[j];
                j += 1;
            }
            assert forall|n: int| 0 <= n < 16 * (i + 1) implies buf@[n] == #[trigger] blockwise(
                key,
                orig,
                decrypt,
            )[n] by {
                if n >= 16 * i {
                    let m = n - 16 * i;
                    assert(n / 16 == i as int && n % 16 == m);
                    assert(buf@[start + m] == out@[m]);
                }
            }
            i += 1;
        }
        assert(buf@ =~= blockwise(key, orig, decrypt));
        if !decrypt {
            let ghost fin = buf@;
            assert forall|n: int| 0 <= n < orig.len() implies #[trigger] decrypted(key, fin)[n]
                == orig[n] by {
                let b = n / 16;
                assert(0 <= b < nblocks);
                assert(block_of(fin, b) =~= aes128_encrypt(key, block_of(orig, b))) by {
                    assert(cipher_block(key, block_of(orig, b), decrypt).len() == 16);
                    assert forall|m: int| 0 <= m < 16 implies #[trigger] block_of(fin, b)[m]
                        == aes128_encrypt(key, block_of(orig, b))[m] by {
                        let k = 16 * b + m;
                        assert(k / 16 == b && k % 16 == m);
                        assert(fin[k] == blockwise(key, orig, decrypt)[k]);
                    }
                }
                assert(aes128_decrypt(key, aes128_encrypt(key, block_of(orig, b))) == block_of(orig, b));
            }
            assert(decrypted(key, fin) =~= orig);
        }
    }
}

} // verus!
