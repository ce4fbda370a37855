mod header;

use crate::aescbc::{aes256_cbc_decrypt, aes256_cbc_decrypt_padded};
use crate::error::Error;
use crate::hexcode::{
    hex_chars_lower, hex_chars_upper, hex_decode, hex_decode_spec, hex_encode, hex_encode_upper,
};
use crate::mac::{hmac, mac_spec};
pub use header::{truncation_error, Header};
use vstd::prelude::*;
use vstd::slice::{slice_subrange, slice_to_vec};

verus! {

/// Whether two byte slices hold the same bytes.
pub fn bytes_eq(a: &[u8], b: &[u8]) -> (r: bool)
    ensures
        r == (a@ == b@),
{
    if a.len() != b.len() {
        return false;
    }
    let mut i: usize = 0;
    while i < a.len()
        invariant
            i <= a@.len(),
            a@.len() == b@.len(),
            forall|j: int| 0 <= j < i ==> a@[j] == b@[j],
        decreases a@.len() - i,
    {
        if a[i] != b[i] {
            return false;
        }
        i = i + 1;
    }
    proof {
        assert(a@ =~= b@);
    }
    true
}

/// An envelope: a 64-byte header followed by the AES-256-CBC ciphertext.
#[derive(Debug)]
pub struct Cipher {
    header: Header,
    ciphertext: Vec<u8>,
}

/// Whether `c` is exactly the envelope serialized in `bytes`: a 64-byte
/// header split positionally, and the remainder as ciphertext.
pub open spec fn parses_to(bytes: Seq<u8>, c: Cipher) -> bool {
    &&& bytes.len() >= 64
    &&& c.wf()
    &&& c.header_spec().iv_spec() == bytes.subrange(0, 16)
    &&& c.header_spec().key_spec() == bytes.subrange(16, 32)
    &&& c.header_spec().hmac_spec() == bytes.subrange(32, 64)
    &&& c.ciphertext_spec() == bytes.subrange(64, bytes.len() as int)
}

impl Cipher {
    /// The header.
    pub closed spec fn header_spec(&self) -> Header {
        self.header
    }

    /// The ciphertext bytes.
    pub closed spec fn ciphertext_spec(&self) -> Seq<u8> {
        self.ciphertext@
    }

    /// The header has its fixed layout.
    pub open spec fn wf(&self) -> bool {
        self.header_spec().wf()
    }

    /// The serialized form: header first, ciphertext after, no separators.
    pub open spec fn bytes_spec(&self) -> Seq<u8> {
        self.header_spec().bytes_spec() + self.ciphertext_spec()
    }

    /// Whether the stored tag equals the tag recomputed from the
    /// envelope's own IV, ciphertext and MAC key under `key`.
    pub open spec fn is_authentic_spec(&self, key: Seq<u8>) -> bool {
        mac_spec(
            self.header_spec().iv_spec(),
            self.ciphertext_spec(),
            key,
            self.header_spec().key_spec(),
        ) == self.header_spec().hmac_spec()
    }

    /// Create a new encrypted payload from a header and ciphertext.
    pub fn new(header: Header, ciphertext: Vec<u8>) -> (r: Cipher)
        ensures
            r.header_spec() == header,
            r.ciphertext_spec() == ciphertext@,
    {
        Cipher { header, ciphertext }
    }

    /// Recompute the tag and compare it with the stored one. Fails closed:
    /// any failure of the MAC primitive counts as not authentic.
    pub fn is_hmac_valid(&self, key: &[u8]) -> (r: bool)
        ensures
            r == self.is_authentic_spec(key@),
    {
        match hmac(self.header.iv(), self.ciphertext.as_slice(), key, self.header.key()) {
            Ok(tag) => bytes_eq(tag.as_slice(), self.header.hmac()),
            Err(_) => false,
        }
    }

    /// Decrypt the ciphertext in place and strip its padding, consuming
    /// the envelope. The stored tag plays no part here; callers that need
    /// authentication check it first.
    pub fn decrypt(self, key: &[u8]) -> (r: Result<Vec<u8>, Error>)
        requires
            key@.len() == 32,
            self.wf(),
        ensures
            r matches Ok(p) ==> aes256_cbc_decrypt(
                key@,
                self.header_spec().iv_spec(),
                self.ciphertext_spec(),
            ) == Some(p@),
            r matches Err(e) ==> e == Error::InvalidPadding && aes256_cbc_decrypt(
                key@,
                self.header_spec().iv_spec(),
                self.ciphertext_spec(),
            ) is None,
    {
        let Cipher { header, ciphertext } = self;
        match aes256_cbc_decrypt_padded(key, header.iv(), ciphertext) {
            Some(plaintext) => Ok(plaintext),
            None => Err(Error::InvalidPadding),
        }
    }

    /// Split a byte buffer into header and ciphertext. A buffer under 64
    /// bytes fails, naming the header field that was cut short.
    pub fn parse(bytes: &[u8]) -> (r: Result<Cipher, Error>)
        ensures
            bytes@.len() >= 64 ==> (r matches Ok(c) && parses_to(bytes@, c) && c.bytes_spec()
                == bytes@),
            bytes@.len() < 64 ==> (r matches Err(e) && e == truncation_error(bytes@.len() as int)),
    {
        let header = match Header::parse(bytes) {
            Ok(h) => h,
            Err(e) => {
                return Err(e);
            },
        };
        let ciphertext = slice_to_vec(slice_subrange(bytes, 64, bytes.len()));
        let cipher = Cipher { header, ciphertext };
        proof {
            assert(cipher.bytes_spec() =~= bytes@);
        }
        Ok(cipher)
    }

    /// Decode a hex string and parse the envelope from the decoded bytes.
    pub fn from_hex(hex: &str) -> (r: Result<Cipher, Error>)
        ensures
            hex_decode_spec(hex@) is None ==> (r matches Err(e) && e == Error::MalformedHex),
            hex_decode_spec(hex@) matches Some(b) ==> if b.len() >= 64 {
                r matches Ok(c) && parses_to(b, c)
            } else {
                r matches Err(e) && e == truncation_error(b.len() as int)
            },
    {
        let bytes = match hex_decode(hex) {
            Some(b) => b,
            None => {
                return Err(Error::MalformedHex);
            },
        };
        Cipher::parse(bytes.as_slice())
    }

    /// The serialized bytes: header then ciphertext.
    pub fn to_bytes(&self) -> (r: Vec<u8>)
        ensures
            r@ == self.bytes_spec(),
    {
        let mut r = self.header.to_bytes();
        let mut ciphertext = slice_to_vec(self.ciphertext.as_slice());
        r.append(&mut ciphertext);
        r
    }

    /// The lowercase hex text of the serialized envelope.
    pub fn to_hex(&self) -> (r: String)
        ensures
            r@ == hex_chars_lower(self.bytes_spec()),
    {
        let bytes = self.to_bytes();
        hex_encode(bytes.as_slice())
    }

    /// The uppercase hex text of the serialized envelope.
    pub fn to_hex_upper(&self) -> (r: String)
        ensures
            r@ == hex_chars_upper(self.bytes_spec()),
    {
        let bytes = self.to_bytes();
        hex_encode_upper(bytes.as_slice())
    }
}

} // verus!
