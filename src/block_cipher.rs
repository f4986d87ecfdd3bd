//! AES-128 through the `aes` and `cbc` crates, with a zero initialisation vector.
use aes::cipher::generic_array::GenericArray;
use aes::cipher::{BlockDecryptMut, BlockEncryptMut, KeyIvInit};
use vstd::prelude::*;

verus! {

/// AES-128 encryption of one 16-byte block under a 16-byte key.
pub uninterp spec fn aes128_encrypt(key: Seq<u8>, block: Seq<u8>) -> Seq<u8>;

/// AES-128 decryption of one 16-byte block under a 16-byte key.
pub uninterp spec fn aes128_decrypt(key: Seq<u8>, block: Seq<u8>) -> Seq<u8>;

/// Byte-wise exclusive or of two blocks.
pub open spec fn xor_block(a: Seq<u8>, b: Seq<u8>) -> Seq<u8> {
    Seq::new(16, |i: int| a[i] ^ b[i])
}

/// Relies on `cbc::Encryptor<aes::Aes128>` with a zero IV: the first block of a
/// CBC encryption is the AES encryption of that block XOR the IV, so here the
/// plain AES-128 encryption of `block` under `key`.
#[verifier::external_body]
pub(crate) fn encrypt_block(key: &[u8; 16], block: &[u8; 16]) -> (r: [u8; 16])
    ensures
        r@ == aes128_encrypt(key@, block@),
{
    let iv = GenericArray::from([0u8; 16]);
    let mut ctx = cbc::Encryptor::<aes::Aes128>::new(&GenericArray::from(*key), &iv);
    let mut b = GenericArray::from(*block);
    ctx.encrypt_block_mut(&mut b);
    let mut out = [0u8; 16];
    out.copy_from_slice(b.as_slice());
    out
}

/// Relies on `cbc::Decryptor<aes::Aes128>::decrypt_blocks_mut` with a zero IV
/// over two blocks: the first plaintext block is the AES decryption of `c0`
/// (XOR the zero IV), the second the AES decryption of `c1` XOR `c0`.
#[verifier::external_body]
pub(crate) fn decrypt_pair(key: &[u8; 16], c0: &[u8; 16], c1: &[u8; 16]) -> (r: (
    [u8; 16],
    [u8; 16],
))
    ensures
        r.0@ == aes128_decrypt(key@, c0@),
        r.1@ == xor_block(aes128_decrypt(key@, c1@), c0@),
{
    let iv = GenericArray::from([0u8; 16]);
    let mut ctx = cbc::Decryptor::<aes::Aes128>::new(&GenericArray::from(*key), &iv);
    let mut blocks = [GenericArray::from(*c0), GenericArray::from(*c1)];
    ctx.decrypt_blocks_mut(&mut blocks);
    let mut p0 = [0u8; 16];
    let mut p1 = [0u8; 16];
    p0.copy_from_slice(blocks[0].as_slice());
    p1.copy_from_slice(blocks[1].as_slice());
    (p0, p1)
}

} // verus!
