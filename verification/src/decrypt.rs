use crate::aescbc::aes256_cbc_decrypt;
use crate::cipher::{truncation_error, Cipher};
use crate::error::Error;
use crate::hexcode::hex_decode_spec;
use crate::mac::mac_spec;
use vstd::prelude::*;

verus! {

/// The outcome of decrypting a hex-encoded envelope under a key, checked
/// in wire order: hex decoding, the 64-byte header, then the tag, and only
/// when the tag matches is the ciphertext decrypted and unpadded. The tag
/// check strictly precedes decryption, so a tampered envelope fails before
/// any plaintext exists.
pub open spec fn decrypt_spec(s: Seq<char>, key: Seq<u8>) -> Result<Seq<u8>, Error> {
    match hex_decode_spec(s) {
        Option::None => Err(Error::MalformedHex),
        Option::Some(bytes) => if bytes.len() < 64 {
            Err(truncation_error(bytes.len() as int))
        } else {
            let iv = bytes.subrange(0, 16);
            let mac_key = bytes.subrange(16, 32);
            let tag = bytes.subrange(32, 64);
            let ciphertext = bytes.subrange(64, bytes.len() as int);
            if mac_spec(iv, ciphertext, key, mac_key) != tag {
                Err(Error::AuthenticationFailed)
            } else {
                match aes256_cbc_decrypt(key, iv, ciphertext) {
                    Option::Some(p) => Ok(p),
                    Option::None => Err(Error::InvalidPadding),
                }
            }
        },
    }
}

/// Parse the hex-encoded envelope, verify its tag under `key`, and only
/// then decrypt: the result is exactly `decrypt_spec` of the input.
pub fn decrypt(hex: &str, key: &[u8]) -> (r: Result<Vec<u8>, Error>)
    requires
        key@.len() == 32,
    ensures
        ({
            let d = decrypt_spec(hex@, key@);
            match r {
                Ok(p) => d matches Ok(q) && q == p@,
                Err(e) => d matches Err(e2) && e2 == e,
            }
        }),
{
    let cipher = match Cipher::from_hex(hex) {
        Ok(c) => c,
        Err(e) => {
            return Err(e);
        },
    };
    if !cipher.is_hmac_valid(key) {
        return Err(Error::AuthenticationFailed);
    }
    cipher.decrypt(key)
}

/// Hex text that can be opened as an envelope.
pub trait Decrypt {
    /// The hex text this value carries.
    spec fn hex_view(&self) -> Seq<char>;

    /// Decrypt the hex-encoded envelope under the 32-byte key.
    fn decrypt(&self, key: &[u8]) -> (r: Result<Vec<u8>, Error>)
        requires
            key@.len() == 32,
        ensures
            ({
                let d = decrypt_spec(self.hex_view(), key@);
                match r {
                    Ok(p) => d matches Ok(q) && q == p@,
                    Err(e) => d matches Err(e2) && e2 == e,
                }
            }),
    ;
}

impl Decrypt for String {
    open spec fn hex_view(&self) -> Seq<char> {
        self@
    }

    fn decrypt(&self, key: &[u8]) -> (r: Result<Vec<u8>, Error>) {
        decrypt(self.as_str(), key)
    }
}

} // verus!
