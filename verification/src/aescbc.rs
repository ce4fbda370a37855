use aes::cipher::block_padding::Pkcs7;
use aes::cipher::{BlockDecryptMut, BlockEncryptMut, KeyIvInit};
use vstd::prelude::*;

verus! {

/// The AES-256-CBC encryption of a plaintext under a 32-byte key and a
/// 16-byte IV, with PKCS#7 padding applied first. A function of the three
/// arguments alone; its value is pinned only by the cipher.
pub uninterp spec fn aes256_cbc_encrypt(key: Seq<u8>, iv: Seq<u8>, plaintext: Seq<u8>) -> Seq<u8>;

/// The AES-256-CBC decryption of a ciphertext under a 32-byte key and a
/// 16-byte IV, with PKCS#7 padding removed afterwards; `None` when the
/// input is not a positive multiple of the block size or the padding is
/// malformed.
pub uninterp spec fn aes256_cbc_decrypt(key: Seq<u8>, iv: Seq<u8>, ciphertext: Seq<u8>) -> Option<
    Seq<u8>,
>;

/// Relies on `cbc::Encryptor::<aes::Aes256>` with
/// `encrypt_padded_vec_mut::<Pkcs7>`: the result is a function of key, IV
/// and plaintext alone; PKCS#7 pads to the next multiple of 16, appending
/// a whole block when the plaintext is already aligned; and decrypting the
/// result under the same key and IV gives the plaintext back.
#[verifier::external_body]
pub fn aes256_cbc_encrypt_padded(key: &[u8], iv: &[u8], plaintext: &[u8]) -> (r: Vec<u8>)
    requires
        key@.len() == 32,
        iv@.len() == 16,
    ensures
        r@ == aes256_cbc_encrypt(key@, iv@, plaintext@),
        r@.len() == plaintext@.len() + 16 - (plaintext@.len() % 16),
        aes256_cbc_decrypt(key@, iv@, r@) == Some(plaintext@),
{
    cbc::Encryptor::<aes::Aes256>::new(key.into(), iv.into())
        .encrypt_padded_vec_mut::<Pkcs7>(plaintext)
}

/// Relies on `cbc::Decryptor::<aes::Aes256>` with
/// `decrypt_padded_mut::<Pkcs7>`: the result is a function of key, IV and
/// ciphertext alone, and the call fails exactly when the input length is
/// not a multiple of 16 or the padding is malformed after decryption.
#[verifier::external_body]
pub fn aes256_cbc_decrypt_padded(key: &[u8], iv: &[u8], ciphertext: Vec<u8>) -> (r: Option<
    Vec<u8>,
>)
    requires
        key@.len() == 32,
        iv@.len() == 16,
    ensures
        match r {
            Some(p) => aes256_cbc_decrypt(key@, iv@, ciphertext@) == Some(p@),
            None => aes256_cbc_decrypt(key@, iv@, ciphertext@) is None,
        },
{
    let mut buffer = ciphertext;
    cbc::Decryptor::<aes::Aes256>::new(key.into(), iv.into())
        .decrypt_padded_mut::<Pkcs7>(&mut buffer)
        .ok()
        .map(|plaintext| plaintext.to_vec())
}

} // verus!
