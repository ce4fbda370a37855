use vstd::prelude::*;

verus! {

/// The lowercase hex digit for a nibble, as an ASCII byte.
pub open spec fn hex_digit_lower(n: u8) -> u8 {
    if n < 10 {
        (48 + n) as u8
    } else {
        (87 + n) as u8
    }
}

/// The lowercase hex encoding of a byte string, as ASCII bytes: two digits
/// per byte, high nibble first.
pub open spec fn hex_bytes_lower(b: Seq<u8>) -> Seq<u8> {
    Seq::new(
        2 * b.len(),
        |i: int| if i % 2 == 0 {
            hex_digit_lower(b[i / 2] / 16)
        } else {
            hex_digit_lower(b[i / 2] % 16)
        },
    )
}

/// The lowercase hex digit for a nibble, as a character.
pub open spec fn hex_char_lower(n: u8) -> char {
    hex_digit_lower(n) as char
}

/// The uppercase hex digit for a nibble, as a character.
pub open spec fn hex_char_upper(n: u8) -> char {
    if n < 10 {
        ((48 + n) as u8) as char
    } else {
        ((55 + n) as u8) as char
    }
}

/// The lowercase hex encoding of a byte string, as characters.
pub open spec fn hex_chars_lower(b: Seq<u8>) -> Seq<char> {
    Seq::new(
        2 * b.len(),
        |i: int| if i % 2 == 0 {
            hex_char_lower(b[i / 2] / 16)
        } else {
            hex_char_lower(b[i / 2] % 16)
        },
    )
}

/// The uppercase hex encoding of a byte string, as characters.
pub open spec fn hex_chars_upper(b: Seq<u8>) -> Seq<char> {
    Seq::new(
        2 * b.len(),
        |i: int| if i % 2 == 0 {
            hex_char_upper(b[i / 2] / 16)
        } else {
            hex_char_upper(b[i / 2] % 16)
        },
    )
}

/// Whether a character is a hex digit, upper- or lowercase.
pub open spec fn is_hex_char(c: char) -> bool {
    let v = c as u32;
    (48 <= v && v <= 57) || (97 <= v && v <= 102) || (65 <= v && v <= 70)
}

/// The value of a hex digit character; meaningful only when `is_hex_char`
/// holds.
pub open spec fn hex_char_value(c: char) -> u8 {
    let v = c as u32;
    if 48 <= v && v <= 57 {
        (v - 48) as u8
    } else if 97 <= v && v <= 102 {
        (v - 87) as u8
    } else {
        (v - 55) as u8
    }
}

/// Whether a character string is well-formed hex: even length, every
/// character a digit of either case.
pub open spec fn is_hex_string(s: Seq<char>) -> bool {
    s.len() % 2 == 0 && (forall|i: int| 0 <= i < s.len() ==> is_hex_char(#[trigger] s[i]))
}

/// The bytes a hex character string decodes to, or `None` when it is not
/// well-formed hex. Decoding accepts both cases.
pub open spec fn hex_decode_spec(s: Seq<char>) -> Option<Seq<u8>> {
    if is_hex_string(s) {
        Some(
            Seq::new(
                s.len() / 2,
                |i: int| (16 * hex_char_value(s[2 * i]) + hex_char_value(s[2 * i + 1])) as u8,
            ),
        )
    } else {
        None
    }
}

/// The lowercase hex encoding of `bytes` as ASCII bytes, two digits per
/// byte. This is the encoding the MAC input is built from.
pub fn hex_lower_bytes(bytes: &[u8]) -> (r: Vec<u8>)
    ensures
        r@ == hex_bytes_lower(bytes@),
{
    let mut r: Vec<u8> = Vec::new();
    let mut i: usize = 0;
    while i < bytes.len()
        invariant
            i <= bytes@.len(),
            r@ == hex_bytes_lower(bytes@.subrange(0, i as int)),
        decreases bytes@.len() - i,
    {
        let b = bytes[i];
        let hi = b / 16;
        let lo = b % 16;
        r.push(if hi < 10 { 48 + hi } else { 87 + hi });
        r.push(if lo < 10 { 48 + lo } else { 87 + lo });
        i = i + 1;
        proof {
            assert(r@ =~= hex_bytes_lower(bytes@.subrange(0, i as int)));
        }
    }
    proof {
        assert(bytes@.subrange(0, bytes@.len() as int) =~= bytes@);
    }
    r
}

/// Decoding inverts lowercase encoding: the hex characters of any byte
/// string decode back to exactly those bytes.
pub proof fn lemma_hex_decode_lower(b: Seq<u8>)
    ensures
        hex_decode_spec(hex_chars_lower(b)) == Some(b),
{
    let s = hex_chars_lower(b);
    assert forall|i: int| 0 <= i < s.len() implies is_hex_char(#[trigger] s[i]) by {
        let n = if i % 2 == 0 {
            b[i / 2] / 16
        } else {
            b[i / 2] % 16
        };
        assert(n < 16);
    }
    let d = hex_decode_spec(s).unwrap();
    assert forall|i: int| 0 <= i < d.len() implies d[i] == b[i] by {
        assert(s[2 * i] == hex_char_lower(b[i] / 16));
        assert(s[2 * i + 1] == hex_char_lower(b[i] % 16));
    }
    assert(d =~= b);
}

/// Decoding inverts uppercase encoding as well.
pub proof fn lemma_hex_decode_upper(b: Seq<u8>)
    ensures
        hex_decode_spec(hex_chars_upper(b)) == Some(b),
{
    let s = hex_chars_upper(b);
    assert forall|i: int| 0 <= i < s.len() implies is_hex_char(#[trigger] s[i]) by {
        let n = if i % 2 == 0 {
            b[i / 2] / 16
        } else {
            b[i / 2] % 16
        };
        assert(n < 16);
    }
    let d = hex_decode_spec(s).unwrap();
    assert forall|i: int| 0 <= i < d.len() implies d[i] == b[i] by {
        assert(s[2 * i] == hex_char_upper(b[i] / 16));
        assert(s[2 * i + 1] == hex_char_upper(b[i] % 16));
    }
    assert(d =~= b);
}

/// Whether two characters are equal up to ASCII letter case.
pub open spec fn same_letter(a: char, b: char) -> bool {
    a == b || (65 <= a as u32 <= 90 && b as u32 == a as u32 + 32) || (65 <= b as u32 <= 90
        && a as u32 == b as u32 + 32)
}

/// Whether two character strings are equal up to ASCII letter case.
pub open spec fn case_equivalent(s1: Seq<char>, s2: Seq<char>) -> bool {
    s1.len() == s2.len() && (forall|i: int|
        0 <= i < s1.len() ==> same_letter(#[trigger] s1[i], #[trigger] s2[i]))
}

/// Hex decoding does not care about letter case: two inputs equal up to
/// case decode to the same outcome, valid or not.
pub proof fn lemma_hex_decode_case_insensitive(s1: Seq<char>, s2: Seq<char>)
    requires
        case_equivalent(s1, s2),
    ensures
        hex_decode_spec(s1) == hex_decode_spec(s2),
{
    assert forall|i: int| 0 <= i < s1.len() implies is_hex_char(#[trigger] s1[i]) == is_hex_char(
        #[trigger] s2[i],
    ) && (is_hex_char(s1[i]) ==> hex_char_value(s1[i]) == hex_char_value(s2[i])) by {
        assert(same_letter(s1[i], s2[i]));
    }
    assert(is_hex_string(s1) <==> is_hex_string(s2)) by {
        if forall|i: int| 0 <= i < s1.len() ==> is_hex_char(#[trigger] s1[i]) {
            assert forall|i: int| 0 <= i < s2.len() implies is_hex_char(#[trigger] s2[i]) by {
                assert(is_hex_char(s1[i]));
            }
        }
        if forall|i: int| 0 <= i < s2.len() ==> is_hex_char(#[trigger] s2[i]) {
            assert forall|i: int| 0 <= i < s1.len() implies is_hex_char(#[trigger] s1[i]) by {
                assert(is_hex_char(s2[i]));
            }
        }
    }
    if is_hex_string(s1) {
        let d1 = hex_decode_spec(s1).unwrap();
        let d2 = hex_decode_spec(s2).unwrap();
        assert forall|i: int| 0 <= i < d1.len() implies d1[i] == d2[i] by {
            assert(is_hex_char(s1[2 * i]) && is_hex_char(s1[2 * i + 1]));
        }
        assert(d1 =~= d2);
    }
}

/// Relies on `hex::encode`: two lowercase digits per byte, high nibble
/// first, in input order.
#[verifier::external_body]
pub fn hex_encode(bytes: &[u8]) -> (r: String)
    ensures
        r@ == hex_chars_lower(bytes@),
{
    hex::encode(bytes)
}

/// Relies on `hex::encode_upper`: as `hex::encode`, with uppercase digits.
#[verifier::external_body]
pub fn hex_encode_upper(bytes: &[u8]) -> (r: String)
    ensures
        r@ == hex_chars_upper(bytes@),
{
    hex::encode_upper(bytes)
}

/// Relies on `hex::decode`: succeeds exactly on even-length strings of hex
/// digits of either case, and pairs digits into bytes, high nibble first.
#[verifier::external_body]
pub fn hex_decode(s: &str) -> (r: Option<Vec<u8>>)
    ensures
        match r {
            Some(b) => hex_decode_spec(s@) == Some(b@),
            None => hex_decode_spec(s@) is None,
        },
{
    hex::decode(s).ok()
}

} // verus!
