mod aescbc;
mod cipher;
mod decrypt;
mod encrypt;
mod error;
mod hexcode;
mod laws;
mod mac;

pub use aescbc::{aes256_cbc_decrypt, aes256_cbc_encrypt};
pub use cipher::{bytes_eq, parses_to, truncation_error, Cipher, Header};
pub use decrypt::{decrypt, decrypt_spec, Decrypt};
pub use encrypt::{encrypt_with, encrypts, Encrypt};
pub use error::{error_message, kind_label, Error, Kind};
pub use hexcode::{
    case_equivalent, hex_bytes_lower, hex_char_lower, hex_char_upper, hex_char_value,
    hex_chars_lower, hex_chars_upper, hex_decode_spec, hex_digit_lower, hex_lower_bytes,
    is_hex_char, is_hex_string, same_letter,
};
pub use laws::{
    lemma_decrypt_case_insensitive, lemma_mismatched_tag_rejected, lemma_parse_serialized,
    lemma_round_trip,
};
pub use mac::{hmac, hmac_sha256, mac_spec};
