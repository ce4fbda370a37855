use crate::error::{Error, Kind};
use crate::hexcode::{hex_chars_lower, hex_chars_upper, hex_encode, hex_encode_upper};
use vstd::prelude::*;
use vstd::slice::{slice_subrange, slice_to_vec};

verus! {

/// The error for a buffer of `n` bytes that is too short to hold a header:
/// the field whose bytes ran out first is named.
pub open spec fn truncation_error(n: int) -> Error {
    if n < 16 {
        Error::TruncatedInput(Kind::Iv)
    } else if n < 32 {
        Error::TruncatedInput(Kind::Key)
    } else {
        Error::TruncatedInput(Kind::Hmac)
    }
}

/// The fixed 64-byte metadata prefix of an envelope: a 16-byte IV, a
/// 16-byte per-message MAC key, and a 32-byte authentication tag, laid out
/// positionally with no length prefixes.
#[derive(Debug)]
pub struct Header {
    iv: Vec<u8>,
    key: Vec<u8>,
    hmac: Vec<u8>,
}

impl Header {
    /// The IV bytes.
    pub closed spec fn iv_spec(&self) -> Seq<u8> {
        self.iv@
    }

    /// The per-message MAC key bytes.
    pub closed spec fn key_spec(&self) -> Seq<u8> {
        self.key@
    }

    /// The stored authentication tag bytes.
    pub closed spec fn hmac_spec(&self) -> Seq<u8> {
        self.hmac@
    }

    /// Every field has its fixed width.
    pub open spec fn wf(&self) -> bool {
        self.iv_spec().len() == 16 && self.key_spec().len() == 16 && self.hmac_spec().len() == 32
    }

    /// The 64-byte serialized form: IV, MAC key, tag, in order.
    pub open spec fn bytes_spec(&self) -> Seq<u8> {
        self.iv_spec() + self.key_spec() + self.hmac_spec()
    }

    /// Assemble a header from its three fields.
    pub fn new(iv: Vec<u8>, key: Vec<u8>, hmac: Vec<u8>) -> (r: Header)
        requires
            iv@.len() == 16,
            key@.len() == 16,
            hmac@.len() == 32,
        ensures
            r.wf(),
            r.iv_spec() == iv@,
            r.key_spec() == key@,
            r.hmac_spec() == hmac@,
    {
        Header { iv, key, hmac }
    }

    /// The IV.
    pub fn iv(&self) -> (r: &[u8])
        ensures
            r@ == self.iv_spec(),
    {
        self.iv.as_slice()
    }

    /// The per-message MAC key.
    pub fn key(&self) -> (r: &[u8])
        ensures
            r@ == self.key_spec(),
    {
        self.key.as_slice()
    }

    /// The stored authentication tag.
    pub fn hmac(&self) -> (r: &[u8])
        ensures
            r@ == self.hmac_spec(),
    {
        self.hmac.as_slice()
    }

    /// Read a header from the first 64 bytes of a buffer: IV from 0..16,
    /// MAC key from 16..32, tag from 32..64. A shorter buffer fails,
    /// naming the field that was cut short.
    pub fn parse(bytes: &[u8]) -> (r: Result<Header, Error>)
        ensures
            bytes@.len() >= 64 ==> (r matches Ok(h) && h.wf() && h.iv_spec() == bytes@.subrange(
                0,
                16,
            ) && h.key_spec() == bytes@.subrange(16, 32) && h.hmac_spec() == bytes@.subrange(
                32,
                64,
            )),
            bytes@.len() < 64 ==> (r matches Err(e) && e == truncation_error(bytes@.len() as int)),
    {
        if bytes.len() < 16 {
            return Err(Error::TruncatedInput(Kind::Iv));
        }
        if bytes.len() < 32 {
            return Err(Error::TruncatedInput(Kind::Key));
        }
        if bytes.len() < 64 {
            return Err(Error::TruncatedInput(Kind::Hmac));
        }
        let iv = slice_to_vec(slice_subrange(bytes, 0, 16));
        let key = slice_to_vec(slice_subrange(bytes, 16, 32));
        let hmac = slice_to_vec(slice_subrange(bytes, 32, 64));
        Ok(Header { iv, key, hmac })
    }

    /// The serialized 64 bytes.
    pub fn to_bytes(&self) -> (r: Vec<u8>)
        ensures
            r@ == self.bytes_spec(),
    {
        let mut r = slice_to_vec(self.iv.as_slice());
        let mut key = slice_to_vec(self.key.as_slice());
        let mut hmac = slice_to_vec(self.hmac.as_slice());
        r.append(&mut key);
        r.append(&mut hmac);
        r
    }

    /// The lowercase hex text of the serialized header.
    pub fn to_hex(&self) -> (r: String)
        ensures
            r@ == hex_chars_lower(self.bytes_spec()),
    {
        let bytes = self.to_bytes();
        hex_encode(bytes.as_slice())
    }

    /// The uppercase hex text of the serialized header.
    pub fn to_hex_upper(&self) -> (r: String)
        ensures
            r@ == hex_chars_upper(self.bytes_spec()),
    {
        let bytes = self.to_bytes();
        hex_encode_upper(bytes.as_slice())
    }
}

} // verus!
