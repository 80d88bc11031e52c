//! The fixed frame cipher used by the sensor hardware.
//!
//! Older firmware revisions encrypt every 8-byte report with a fixed,
//! key-dependent transform: a byte permutation, a position-wise XOR with the
//! session key, a right rotation of the whole 64-bit frame by three bits,
//! and a wrapping subtraction of a constant mask derived from the ASCII
//! string `Htemp99e`. [`decrypt`] undoes the device's encryption; it is a
//! pure, total transform of exactly eight bytes.

use vstd::prelude::*;

verus! {

/// Byte `i` of the fixed ASCII string `Htemp99e`.
pub open spec fn magic_byte(i: int) -> u8 {
    if i == 0 {
        0x48
    } else if i == 1 {
        0x74
    } else if i == 2 {
        0x65
    } else if i == 3 {
        0x6d
    } else if i == 4 {
        0x70
    } else if i == 5 {
        0x39
    } else if i == 6 {
        0x39
    } else {
        0x65
    }
}

/// The per-position subtraction mask: a nibble swap of one magic byte.
pub open spec fn mask_byte(m: u8) -> u8 {
    (m << 4) | (m >> 4)
}

/// The fixed permutation applied first: the byte swaps (0,2), (1,4), (3,7)
/// and (5,6), performed in place on the frame.
pub open spec fn swapped(data: Seq<u8>) -> Seq<u8> {
    seq![data[2], data[4], data[0], data[7], data[1], data[6], data[5], data[3]]
}

/// The permuted frame XORed position-wise with the key.
pub open spec fn xored(data: Seq<u8>, key: Seq<u8>) -> Seq<u8> {
    Seq::new(8, |i: int| swapped(data)[i] ^ key[i])
}

/// One byte of the whole-frame right bit-rotation by 3: the low three bits
/// of the preceding byte become the top bits, the top five bits of the
/// current byte move down.
pub open spec fn rot_byte(prev: u8, cur: u8) -> u8 {
    (prev << 5) | (cur >> 3)
}

/// Byte `i` of the decrypted frame: rotate the XORed, permuted frame and
/// subtract the mask, with 8-bit wrapping.
pub open spec fn decrypt_byte(data: Seq<u8>, key: Seq<u8>, i: int) -> u8 {
    let x = xored(data, key);
    rot_byte(x[(i + 7) % 8], x[i]).wrapping_sub(mask_byte(magic_byte(i)))
}

/// The decrypted frame: the mathematical model of [`decrypt`].
pub open spec fn decrypt_spec(data: Seq<u8>, key: Seq<u8>) -> Seq<u8> {
    Seq::new(8, |i: int| decrypt_byte(data, key, i))
}

/// Decrypts one raw 8-byte frame with the 8-byte session key.
///
/// Total, with no failure path: every frame and key decrypt to exactly
/// eight bytes, given bit-for-bit by [`decrypt_spec`].
pub fn decrypt(data: [u8; 8], key: [u8; 8]) -> (out: [u8; 8])
    ensures
        out@ == decrypt_spec(data@, key@),
{
    let x0: u8 = data[2] ^ key[0];
    let x1: u8 = data[4] ^ key[1];
    let x2: u8 = data[0] ^ key[2];
    let x3: u8 = data[7] ^ key[3];
    let x4: u8 = data[1] ^ key[4];
    let x5: u8 = data[6] ^ key[5];
    let x6: u8 = data[5] ^ key[6];
    let x7: u8 = data[3] ^ key[7];

    let r0: u8 = (x7 << 5) | (x0 >> 3);
    let r1: u8 = (x0 << 5) | (x1 >> 3);
    let r2: u8 = (x1 << 5) | (x2 >> 3);
    let r3: u8 = (x2 << 5) | (x3 >> 3);
    let r4: u8 = (x3 << 5) | (x4 >> 3);
    let r5: u8 = (x4 << 5) | (x5 >> 3);
    let r6: u8 = (x5 << 5) | (x6 >> 3);
    let r7: u8 = (x6 << 5) | (x7 >> 3);

    let mut out: [u8; 8] = [0u8; 8];
    out[0] = r0.wrapping_sub(mask_exec(0x48));
    out[1] = r1.wrapping_sub(mask_exec(0x74));
    out[2] = r2.wrapping_sub(mask_exec(0x65));
    out[3] = r3.wrapping_sub(mask_exec(0x6d));
    out[4] = r4.wrapping_sub(mask_exec(0x70));
    out[5] = r5.wrapping_sub(mask_exec(0x39));
    out[6] = r6.wrapping_sub(mask_exec(0x39));
    out[7] = r7.wrapping_sub(mask_exec(0x65));

    proof {
        assert(out@ =~= decrypt_spec(data@, key@));
    }
    out
}

/// Computes the subtraction mask for one magic byte, exactly as
/// [`mask_byte`] states it.
fn mask_exec(m: u8) -> (r: u8)
    ensures
        r == mask_byte(m),
{
    (m << 4) | (m >> 4)
}

/// Byte `i` of the cleartext with the subtraction mask added back: the
/// inverse of the cipher's last stage.
pub open spec fn mask_added(data: Seq<u8>, i: int) -> u8 {
    data[i].wrapping_add(mask_byte(magic_byte(i)))
}

/// One byte of the inverse rotation, a left rotation of the whole frame by
/// three bits: the top three bits of the following byte come back down.
pub open spec fn unrot_byte(cur: u8, next: u8) -> u8 {
    (cur << 3) | (next >> 5)
}

/// The frame with the mask added back and the rotation undone: the
/// cipher's last two stages, inverted.
pub open spec fn unrotated(data: Seq<u8>) -> Seq<u8> {
    Seq::new(8, |i: int| unrot_byte(mask_added(data, i), mask_added(data, (i + 1) % 8)))
}

/// The unrotated frame XORed position-wise with the key: the cipher's
/// first three stages, inverted.
pub open spec fn unxored(data: Seq<u8>, key: Seq<u8>) -> Seq<u8> {
    Seq::new(8, |i: int| unrotated(data)[i] ^ key[i])
}

/// The transform the device applies before sending a frame: the inverse
/// of [`decrypt_spec`], stage by stage — add the mask back, rotate left,
/// XOR with the key, and undo the (self-inverse) permutation.
pub open spec fn encrypt_spec(data: Seq<u8>, key: Seq<u8>) -> Seq<u8> {
    swapped(unxored(data, key))
}

/// Rotating right by three and back left by three returns the middle byte:
/// `a`, `b`, `c` are three consecutive bytes of the frame.
proof fn lemma_rot_round_trip(a: u8, b: u8, c: u8)
    by (bit_vector)
    ensures
        unrot_byte(rot_byte(a, b), rot_byte(b, c)) == b,
{
}

/// XORing twice with the same byte is the identity.
proof fn lemma_xor_cancel(a: u8, b: u8)
    by (bit_vector)
    ensures
        (a ^ b) ^ b == a,
{
}

/// Wrapping subtraction and addition of the same byte cancel.
proof fn lemma_wrap_cancel(a: u8, m: u8)
    ensures
        a.wrapping_sub(m).wrapping_add(m) == a,
{
}

/// One position of the inversion chain: with the mask cancelled and the
/// rotation undone, position `i` of the re-encryption intermediate equals
/// the permuted-and-XORed byte the cipher produced there.
proof fn lemma_invert_position(data: Seq<u8>, key: Seq<u8>, i: int, prev: int, next: int)
    requires
        data.len() == 8,
        key.len() == 8,
        0 <= i < 8,
        prev == (i + 7) % 8,
        next == (i + 1) % 8,
    ensures
        unxored(decrypt_spec(data, key), key)[i] == swapped(data)[i],
{
    let cleartext = decrypt_spec(data, key);
    let x = xored(data, key);
    lemma_wrap_cancel(rot_byte(x[prev], x[i]), mask_byte(magic_byte(i)));
    assert(mask_added(cleartext, i) == rot_byte(x[prev], x[i]));
    lemma_wrap_cancel(rot_byte(x[i], x[next]), mask_byte(magic_byte(next)));
    assert(mask_added(cleartext, next) == rot_byte(x[i], x[next]));
    lemma_rot_round_trip(x[prev], x[i], x[next]);
    assert(unrotated(cleartext)[i] == x[i]);
    lemma_xor_cancel(swapped(data)[i], key[i]);
}

/// Decryption is invertible by design: re-encrypting the cleartext of any
/// frame with the same key restores the original frame.
pub proof fn lemma_decrypt_invertible(data: Seq<u8>, key: Seq<u8>)
    requires
        data.len() == 8,
        key.len() == 8,
    ensures
        encrypt_spec(decrypt_spec(data, key), key) == data,
{
    lemma_invert_position(data, key, 0, 7, 1);
    lemma_invert_position(data, key, 1, 0, 2);
    lemma_invert_position(data, key, 2, 1, 3);
    lemma_invert_position(data, key, 3, 2, 4);
    lemma_invert_position(data, key, 4, 3, 5);
    lemma_invert_position(data, key, 5, 4, 6);
    lemma_invert_position(data, key, 6, 5, 7);
    lemma_invert_position(data, key, 7, 6, 0);
    assert(encrypt_spec(decrypt_spec(data, key), key) =~= data);
}

/// Decryption is deterministic: two frames decrypted with equal inputs
/// yield equal cleartext. Together with the exact postcondition of
/// [`decrypt`], every call on a given frame and key returns the same
/// eight bytes.
pub proof fn lemma_decrypt_deterministic(
    data1: Seq<u8>,
    key1: Seq<u8>,
    data2: Seq<u8>,
    key2: Seq<u8>,
)
    requires
        data1 == data2,
        key1 == key2,
    ensures
        decrypt_spec(data1, key1) == decrypt_spec(data2, key2),
{
}

} // verus!
