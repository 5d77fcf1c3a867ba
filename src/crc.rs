//! CRC-16/MODBUS: initial value `0xFFFF`, reflected polynomial `0xA001`,
//! no final xor. The cube checks it over every frame, from the magic byte to
//! the end of the body.

use vstd::prelude::*;

verus! {

/// One shift of the register, feeding back the reflected polynomial when the
/// bit shifted out is set.
pub open spec fn crc_shift(c: u16) -> u16 {
    if c & 1u16 == 1u16 {
        (c >> 1u16) ^ 0xA001u16
    } else {
        c >> 1u16
    }
}

/// `n` shifts of the register.
pub open spec fn crc_shift_n(c: u16, n: nat) -> u16
    decreases n,
{
    if n == 0 {
        c
    } else {
        crc_shift(crc_shift_n(c, (n - 1) as nat))
    }
}

/// The register after taking in one more byte.
pub open spec fn crc_update(c: u16, b: u8) -> u16 {
    crc_shift_n(c ^ (b as u16), 8)
}

/// The checksum of a byte sequence.
pub open spec fn crc16_of(s: Seq<u8>) -> u16
    decreases s.len(),
{
    if s.len() == 0 {
        0xFFFFu16
    } else {
        crc_update(crc16_of(s.drop_last()), s.last())
    }
}

/// Computes the checksum of `bytes`.
pub fn crc16(bytes: &[u8]) -> (r: u16)
    ensures
        r == crc16_of(bytes@),
{
    let mut crc: u16 = 0xFFFF;
    let mut i: usize = 0;
    while i < bytes.len()
        invariant
            0 <= i <= bytes@.len(),
            crc == crc16_of(bytes@.subrange(0, i as int)),
        decreases bytes@.len() - i,
    {
        let start: u16 = crc ^ (bytes[i] as u16);
        let mut c: u16 = start;
        let mut k: usize = 0;
        while k < 8
            invariant
                k <= 8,
                c == crc_shift_n(start, k as nat),
            decreases 8 - k,
        {
            if c & 1 == 1 {
                c = (c >> 1) ^ 0xA001;
            } else {
                c = c >> 1;
            }
            k += 1;
        }
        assert(bytes@.subrange(0, i + 1).drop_last() =~= bytes@.subrange(0, i as int));
        crc = c;
        i += 1;
    }
    assert(bytes@.subrange(0, bytes@.len() as int) =~= bytes@);
    crc
}

proof fn lemma_shift_xor(a: u16, b: u16)
    ensures
        crc_shift(a ^ b) == crc_shift(a) ^ crc_shift(b),
{
    assert((if (a ^ b) & 1u16 == 1u16 {
        ((a ^ b) >> 1u16) ^ 0xA001u16
    } else {
        (a ^ b) >> 1u16
    }) == (if a & 1u16 == 1u16 {
        (a >> 1u16) ^ 0xA001u16
    } else {
        a >> 1u16
    }) ^ (if b & 1u16 == 1u16 {
        (b >> 1u16) ^ 0xA001u16
    } else {
        b >> 1u16
    })) by (bit_vector);
}

proof fn lemma_shift_nonzero(a: u16)
    requires
        a != 0,
    ensures
        crc_shift(a) != 0,
{
    assert(a != 0 ==> (if a & 1u16 == 1u16 {
        (a >> 1u16) ^ 0xA001u16
    } else {
        a >> 1u16
    }) != 0) by (bit_vector);
}

proof fn lemma_shift_n_xor(a: u16, b: u16, n: nat)
    ensures
        crc_shift_n(a ^ b, n) == crc_shift_n(a, n) ^ crc_shift_n(b, n),
    decreases n,
{
    if n > 0 {
        lemma_shift_n_xor(a, b, (n - 1) as nat);
        lemma_shift_xor(crc_shift_n(a, (n - 1) as nat), crc_shift_n(b, (n - 1) as nat));
    }
}

proof fn lemma_shift_n_nonzero(a: u16, n: nat)
    requires
        a != 0,
    ensures
        crc_shift_n(a, n) != 0,
    decreases n,
{
    if n > 0 {
        lemma_shift_n_nonzero(a, (n - 1) as nat);
        lemma_shift_nonzero(crc_shift_n(a, (n - 1) as nat));
    }
}

/// The registers of two runs differ after a byte where they differ before it,
/// or where the bytes differ but the registers agree.
proof fn lemma_update_differs(c1: u16, c2: u16, b1: u8, b2: u8)
    requires
        (c1 == c2) != (b1 == b2),
    ensures
        crc_update(c1, b1) != crc_update(c2, b2),
{
    let x1 = c1 ^ (b1 as u16);
    let x2 = c2 ^ (b2 as u16);
    assert(((c1 == c2) != (b1 == b2)) ==> (c1 ^ (b1 as u16)) ^ (c2 ^ (b2 as u16)) != 0)
        by (bit_vector);
    lemma_shift_n_xor(x1, x2, 8);
    lemma_shift_n_nonzero(x1 ^ x2, 8);
    let y1 = crc_shift_n(x1, 8);
    let y2 = crc_shift_n(x2, 8);
    assert(y1 ^ y2 != 0 ==> y1 != y2) by (bit_vector);
}

/// Two sequences that differ in the byte at `k` alone have checksums that
/// differ on every prefix that takes in that byte.
proof fn lemma_prefix_checksums_differ(s: Seq<u8>, t: Seq<u8>, k: int, j: int)
    requires
        s.len() == t.len(),
        0 <= k < j <= s.len(),
        s[k] != t[k],
        forall|i: int| 0 <= i < s.len() && i != k ==> s[i] == t[i],
    ensures
        crc16_of(s.subrange(0, j)) != crc16_of(t.subrange(0, j)),
    decreases j,
{
    let sp = s.subrange(0, j);
    let tp = t.subrange(0, j);
    assert(sp.drop_last() =~= s.subrange(0, j - 1));
    assert(tp.drop_last() =~= t.subrange(0, j - 1));
    if j == k + 1 {
        assert(s.subrange(0, k) =~= t.subrange(0, k));
        lemma_update_differs(crc16_of(s.subrange(0, k)), crc16_of(t.subrange(0, k)), s[k], t[k]);
    } else {
        lemma_prefix_checksums_differ(s, t, k, j - 1);
        lemma_update_differs(
            crc16_of(s.subrange(0, j - 1)),
            crc16_of(t.subrange(0, j - 1)),
            s[j - 1],
            t[j - 1],
        );
    }
}

/// Flipping any one bit of any byte changes the checksum: the checksum has no
/// blind spot for single-bit errors, wherever they fall.
pub proof fn flipped_bit_changes_checksum(s: Seq<u8>, k: int, bit: u8)
    requires
        0 <= k < s.len(),
        bit < 8,
    ensures
        crc16_of(s.update(k, s[k] ^ (1u8 << bit))) != crc16_of(s),
{
    let b = s[k];
    assert(bit < 8 ==> b ^ (1u8 << bit) != b) by (bit_vector);
    let t = s.update(k, b ^ (1u8 << bit));
    assert(s.subrange(0, s.len() as int) =~= s);
    assert(t.subrange(0, t.len() as int) =~= t);
    lemma_prefix_checksums_differ(t, s, k, s.len() as int);
}

} // verus!
