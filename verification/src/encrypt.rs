use crate::aescbc::{aes256_cbc_decrypt, aes256_cbc_encrypt, aes256_cbc_encrypt_padded};
use crate::cipher::{Cipher, Header};
use crate::error::Error;
use crate::mac::{hmac, mac_spec};
use vstd::prelude::*;
use vstd::slice::slice_to_vec;

verus! {

/// Whether `c` is an envelope that encrypts `plaintext` under `key`: its
/// ciphertext is the padded AES-256-CBC encryption of the plaintext under
/// the envelope's own IV, its tag is the MAC over that ciphertext with the
/// envelope's own MAC key, and decrypting the ciphertext gives the
/// plaintext back.
pub open spec fn encrypts(c: Cipher, plaintext: Seq<u8>, key: Seq<u8>) -> bool {
    &&& c.wf()
    &&& c.ciphertext_spec() == aes256_cbc_encrypt(key, c.header_spec().iv_spec(), plaintext)
    &&& c.header_spec().hmac_spec() == mac_spec(
        c.header_spec().iv_spec(),
        c.ciphertext_spec(),
        key,
        c.header_spec().key_spec(),
    )
    &&& aes256_cbc_decrypt(key, c.header_spec().iv_spec(), c.ciphertext_spec()) == Some(plaintext)
}

/// Encrypt `plaintext` under the 32-byte `key` with the given IV and
/// per-message MAC key, and seal the result in an envelope.
///
/// This is the deterministic core of encryption: `encrypt` feeds it fresh
/// random material, and a test may feed it fixed bytes.
pub fn encrypt_with(plaintext: &[u8], key: &[u8], iv: &[u8], mac_key: &[u8]) -> (r: Result<
    Cipher,
    Error,
>)
    requires
        key@.len() == 32,
        iv@.len() == 16,
        mac_key@.len() == 16,
    ensures
        r is Ok,
        r matches Ok(c) ==> encrypts(c, plaintext@, key@) && c.header_spec().iv_spec() == iv@
            && c.header_spec().key_spec() == mac_key@,
{
    let ciphertext = aes256_cbc_encrypt_padded(key, iv, plaintext);
    let tag = match hmac(iv, ciphertext.as_slice(), key, mac_key) {
        Ok(t) => t,
        Err(e) => {
            return Err(e);
        },
    };
    let header = Header::new(slice_to_vec(iv), slice_to_vec(mac_key), tag);
    Ok(Cipher::new(header, ciphertext))
}

/// A source of fresh random material for encryption.
pub trait Encrypt {
    /// Encrypt the plaintext under the 32-byte key, drawing a fresh IV and
    /// a fresh per-message MAC key from `self`.
    fn encrypt(&mut self, plaintext: &[u8], key: &[u8]) -> (r: Result<Cipher, Error>)
        requires
            key@.len() == 32,
        ensures
            r is Ok,
            r matches Ok(c) ==> encrypts(c, plaintext@, key@),
    ;
}

#[verifier::external_type_specification]
#[verifier::external_body]
pub struct ExOsRng(rand::rngs::OsRng);

/// Relies on `rand::rngs::OsRng` (`RngCore::fill_bytes`): 16 bytes drawn
/// from the operating system's secure random source. Nothing is promised
/// of their values.
#[verifier::external_body]
fn os_random_16(rng: &mut rand::rngs::OsRng) -> (r: Vec<u8>)
    ensures
        r@.len() == 16,
{
    let mut buffer = [0u8; 16];
    rand::RngCore::fill_bytes(rng, &mut buffer);
    buffer.to_vec()
}

impl Encrypt for rand::rngs::OsRng {
    /// Encrypt with a fresh IV and MAC key from the operating system's
    /// secure random source.
    fn encrypt(&mut self, plaintext: &[u8], key: &[u8]) -> (r: Result<Cipher, Error>) {
        let iv = os_random_16(self);
        let mac_key = os_random_16(self);
        encrypt_with(plaintext, key, iv.as_slice(), mac_key.as_slice())
    }
}

} // verus!
