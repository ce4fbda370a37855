use crate::error::Error;
use crate::hexcode::{hex_bytes_lower, hex_lower_bytes};
use hmac::Mac;
use vstd::prelude::*;

verus! {

/// The HMAC-SHA256 tag for a key and a message. The tag is a function of
/// the two arguments alone; its value is pinned only by the primitive.
pub uninterp spec fn hmac_sha256(key: Seq<u8>, message: Seq<u8>) -> Seq<u8>;

/// The authentication tag of this wire format: HMAC-SHA256 keyed with the
/// *lowercase hex text* of the MAC key, over the hex text of the IV, the
/// payload and the encryption key, concatenated in that order.
///
/// Hashing hex text rather than raw bytes is part of the wire contract;
/// an implementation that hashes raw bytes produces incompatible tags.
pub open spec fn mac_spec(iv: Seq<u8>, payload: Seq<u8>, key: Seq<u8>, mac_key: Seq<u8>) -> Seq<
    u8,
> {
    hmac_sha256(
        hex_bytes_lower(mac_key),
        hex_bytes_lower(iv) + hex_bytes_lower(payload) + hex_bytes_lower(key),
    )
}

/// Relies on `hmac::Hmac<sha2::Sha256>` (`new_from_slice`, `update`,
/// `finalize`): the tag is a function of key and message alone, is 32
/// bytes long, and key setup accepts keys of any length, so the call
/// cannot fail.
#[verifier::external_body]
fn hmac_sha256_compute(key: &[u8], message: &[u8]) -> (r: Result<Vec<u8>, Error>)
    ensures
        r is Ok,
        r matches Ok(t) ==> t@ == hmac_sha256(key@, message@) && t@.len() == 32,
{
    let mut mac = match <hmac::Hmac<sha2::Sha256> as Mac>::new_from_slice(key) {
        Ok(mac) => mac,
        Err(_) => return Err(Error::InvalidKeyLength),
    };
    mac.update(message);
    Ok(mac.finalize().into_bytes().to_vec())
}

/// The 32-byte authentication tag over an IV, a ciphertext payload, the
/// encryption key and a per-message MAC key.
///
/// The tag is a pure function of the four inputs: identical inputs always
/// yield an identical tag, namely `mac_spec` of their byte strings.
pub fn hmac(iv: &[u8], payload: &[u8], key: &[u8], hmac_key: &[u8]) -> (r: Result<Vec<u8>, Error>)
    ensures
        r matches Ok(t) && t@ == mac_spec(iv@, payload@, key@, hmac_key@) && t@.len() == 32,
{
    let mac_key_hex = hex_lower_bytes(hmac_key);
    let mut message = hex_lower_bytes(iv);
    let mut payload_hex = hex_lower_bytes(payload);
    message.append(&mut payload_hex);
    let mut key_hex = hex_lower_bytes(key);
    message.append(&mut key_hex);
    hmac_sha256_compute(mac_key_hex.as_slice(), message.as_slice())
}

} // verus!
