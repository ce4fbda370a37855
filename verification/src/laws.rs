use crate::decrypt::decrypt_spec;
use crate::encrypt::encrypts;
use crate::error::Error;
use crate::hexcode::{
    case_equivalent, hex_chars_lower, hex_chars_upper, hex_decode_spec,
    lemma_hex_decode_case_insensitive, lemma_hex_decode_lower, lemma_hex_decode_upper,
};
use crate::mac::mac_spec;
use crate::cipher::{parses_to, Cipher};
use vstd::prelude::*;

verus! {

/// Serialization round trip: parsing the serialized bytes of any
/// well-formed envelope recovers that envelope, field for field.
pub proof fn lemma_parse_serialized(c: Cipher)
    requires
        c.wf(),
    ensures
        parses_to(c.bytes_spec(), c),
{
    let b = c.bytes_spec();
    assert(b.subrange(0, 16) =~= c.header_spec().iv_spec());
    assert(b.subrange(16, 32) =~= c.header_spec().key_spec());
    assert(b.subrange(32, 64) =~= c.header_spec().hmac_spec());
    assert(b.subrange(64, b.len() as int) =~= c.ciphertext_spec());
}

/// Round trip: decrypting the hex text of any envelope that encrypts
/// `plaintext` under `key` gives `plaintext` back, whether the text is
/// lower- or uppercase.
pub proof fn lemma_round_trip(c: Cipher, plaintext: Seq<u8>, key: Seq<u8>)
    requires
        key.len() == 32,
        encrypts(c, plaintext, key),
    ensures
        decrypt_spec(hex_chars_lower(c.bytes_spec()), key) == Ok::<Seq<u8>, Error>(plaintext),
        decrypt_spec(hex_chars_upper(c.bytes_spec()), key) == Ok::<Seq<u8>, Error>(plaintext),
{
    let b = c.bytes_spec();
    lemma_hex_decode_lower(b);
    lemma_hex_decode_upper(b);
    assert(b.subrange(0, 16) =~= c.header_spec().iv_spec());
    assert(b.subrange(16, 32) =~= c.header_spec().key_spec());
    assert(b.subrange(32, 64) =~= c.header_spec().hmac_spec());
    assert(b.subrange(64, b.len() as int) =~= c.ciphertext_spec());
}

/// Fail closed on tampering: an envelope whose stored tag does not match
/// the tag recomputed from its own IV, ciphertext and MAC key is rejected
/// as `AuthenticationFailed`, and no decryption outcome shows through.
pub proof fn lemma_mismatched_tag_rejected(s: Seq<char>, key: Seq<u8>)
    requires
        hex_decode_spec(s) matches Some(b) && b.len() >= 64 && mac_spec(
            b.subrange(0, 16),
            b.subrange(64, b.len() as int),
            key,
            b.subrange(16, 32),
        ) != b.subrange(32, 64),
    ensures
        decrypt_spec(s, key) == Err::<Seq<u8>, Error>(Error::AuthenticationFailed),
{
}

/// Case independence: two hex texts equal up to ASCII letter case decrypt
/// to the same outcome under every key, successful or not.
pub proof fn lemma_decrypt_case_insensitive(s1: Seq<char>, s2: Seq<char>, key: Seq<u8>)
    requires
        case_equivalent(s1, s2),
    ensures
        decrypt_spec(s1, key) == decrypt_spec(s2, key),
{
    lemma_hex_decode_case_insensitive(s1, s2);
}

} // verus!
