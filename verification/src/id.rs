//! Session ids and their text form.
use base64::engine::general_purpose::URL_SAFE_NO_PAD;
use base64::Engine;
use vstd::bytes::{
    lemma_auto_spec_u128_to_from_le_bytes, spec_u128_from_le_bytes, spec_u128_to_le_bytes,
    u128_from_le_bytes, u128_to_le_bytes,
};
use vstd::prelude::*;

verus! {

/// ID type for sessions.
///
/// Wraps a 128-bit integer, that is 16 bytes.
#[derive(Copy, Clone, Debug, PartialEq, Eq, Hash, Structural)]
pub struct Id(pub i128);

/// The error returned when a text is not the text form of an [`Id`].
#[derive(Debug)]
pub enum IdParseError {
    /// The text is not URL-safe base64 without padding, or decodes to more than 16 bytes.
    Decode(base64::DecodeSliceError),
    /// The text decodes to this many bytes, which is not 16.
    InvalidLength(usize),
}

/// `base64::DecodeSliceError`, the error of a base64 decoding into a buffer.
#[verifier::external_type_specification]
#[verifier::external_body]
pub struct ExDecodeSliceError(base64::DecodeSliceError);

/// The two's-complement bits of `v`, read as an unsigned number.
pub open spec fn unsigned_bits(v: i128) -> u128 {
    if v < 0 {
        (v + 0x1_0000_0000_0000_0000_0000_0000_0000_0000) as u128
    } else {
        v as u128
    }
}

/// The signed number whose two's-complement bits are `u`.
pub open spec fn signed_bits(u: u128) -> i128 {
    if u >= 0x8000_0000_0000_0000_0000_0000_0000_0000 {
        (u - 0x1_0000_0000_0000_0000_0000_0000_0000_0000) as i128
    } else {
        u as i128
    }
}

/// The 16 bytes of an id, little-endian.
pub open spec fn id_bytes(id: Id) -> Seq<u8> {
    spec_u128_to_le_bytes(unsigned_bits(id.0))
}

/// The id whose little-endian bytes are `bytes`.
pub open spec fn id_from_bytes(bytes: Seq<u8>) -> Id {
    Id(signed_bits(spec_u128_from_le_bytes(bytes)))
}

/// The symbol of a 6-bit value in the URL-safe base64 alphabet
/// `A`-`Z`, `a`-`z`, `0`-`9`, `-`, `_`.
pub open spec fn url_safe_symbol(v: int) -> char {
    if v < 26 {
        (65 + v) as char
    } else if v < 52 {
        (97 + v - 26) as char
    } else if v < 62 {
        (48 + v - 52) as char
    } else if v == 62 {
        '-'
    } else {
        '_'
    }
}

/// Whether `c` is a symbol of the URL-safe base64 alphabet.
pub open spec fn is_url_safe_symbol(c: char) -> bool {
    ||| 48 <= c as u32 <= 57
    ||| 65 <= c as u32 <= 90
    ||| 97 <= c as u32 <= 122
    ||| c == '-'
    ||| c == '_'
}

/// URL-safe base64 without padding (RFC 4648, section 5): every 3 bytes become 4 symbols of
/// 6 bits each; 2 final bytes become 3 symbols and 1 final byte 2, the unused low bits zero.
pub open spec fn base64_url_encoding(bytes: Seq<u8>) -> Seq<char>
    decreases bytes.len(),
{
    if bytes.len() == 0 {
        Seq::empty()
    } else if bytes.len() == 1 {
        let b0 = bytes[0] as int;
        seq![url_safe_symbol(b0 / 4), url_safe_symbol((b0 % 4) * 16)]
    } else if bytes.len() == 2 {
        let b0 = bytes[0] as int;
        let b1 = bytes[1] as int;
        seq![
            url_safe_symbol(b0 / 4),
            url_safe_symbol((b0 % 4) * 16 + b1 / 16),
            url_safe_symbol((b1 % 16) * 4),
        ]
    } else {
        let b0 = bytes[0] as int;
        let b1 = bytes[1] as int;
        let b2 = bytes[2] as int;
        seq![
            url_safe_symbol(b0 / 4),
            url_safe_symbol((b0 % 4) * 16 + b1 / 16),
            url_safe_symbol((b1 % 16) * 4 + b2 / 64),
            url_safe_symbol(b2 % 64),
        ] + base64_url_encoding(bytes.subrange(3, bytes.len() as int))
    }
}

/// What decoding `text` into a 16-byte buffer gives: the bytes whose encoding `text` is, if
/// there are at most 16 of them.
pub open spec fn url_safe_no_pad_decoding_into16(text: Seq<char>) -> Option<Seq<u8>> {
    if exists|bytes: Seq<u8>| bytes.len() <= 16 && #[trigger] base64_url_encoding(bytes) == text {
        Some(choose|bytes: Seq<u8>| bytes.len() <= 16 && #[trigger] base64_url_encoding(bytes) == text)
    } else {
        None
    }
}

/// Distinct 6-bit values have distinct symbols.
pub proof fn lemma_url_safe_symbol_injective(v: int, w: int)
    requires
        0 <= v < 64,
        0 <= w < 64,
        url_safe_symbol(v) == url_safe_symbol(w),
    ensures
        v == w,
{
}

/// Every symbol of an encoding is in the URL-safe alphabet.
pub proof fn lemma_encoding_symbols(bytes: Seq<u8>)
    ensures
        forall|i: int| 0 <= i < base64_url_encoding(bytes).len() ==> is_url_safe_symbol(
            #[trigger] base64_url_encoding(bytes)[i],
        ),
    decreases bytes.len(),
{
    if bytes.len() >= 3 {
        lemma_encoding_symbols(bytes.subrange(3, bytes.len() as int));
        let head = base64_url_encoding(bytes).subrange(0, 4);
        let rest = base64_url_encoding(bytes.subrange(3, bytes.len() as int));
        assert forall|i: int| 0 <= i < base64_url_encoding(bytes).len() implies is_url_safe_symbol(
            #[trigger] base64_url_encoding(bytes)[i],
        ) by {
            if i >= 4 {
                assert(base64_url_encoding(bytes)[i] == rest[i - 4]);
            }
        }
    }
}

/// The length of an encoding: 4 symbols for every 3 bytes, and 2 or 3 for a final 1 or 2.
pub proof fn lemma_encoding_len(bytes: Seq<u8>)
    ensures
        base64_url_encoding(bytes).len() == 4 * (bytes.len() / 3) + if bytes.len() % 3 == 0 {
            0
        } else {
            bytes.len() % 3 + 1
        },
    decreases bytes.len(),
{
    if bytes.len() >= 3 {
        lemma_encoding_len(bytes.subrange(3, bytes.len() as int));
    }
}

/// The leading symbols of an encoding, read off its first bytes.
proof fn lemma_encoding_head(bytes: Seq<u8>)
    requires
        bytes.len() >= 1,
    ensures
        base64_url_encoding(bytes)[0] == url_safe_symbol(bytes[0] as int / 4),
        bytes.len() == 1 ==> base64_url_encoding(bytes)[1] == url_safe_symbol(
            (bytes[0] as int % 4) * 16,
        ),
        bytes.len() >= 2 ==> base64_url_encoding(bytes)[1] == url_safe_symbol(
            (bytes[0] as int % 4) * 16 + bytes[1] as int / 16,
        ),
        bytes.len() == 2 ==> base64_url_encoding(bytes)[2] == url_safe_symbol(
            (bytes[1] as int % 16) * 4,
        ),
        bytes.len() >= 3 ==> base64_url_encoding(bytes)[2] == url_safe_symbol(
            (bytes[1] as int % 16) * 4 + bytes[2] as int / 64,
        ),
        bytes.len() >= 3 ==> base64_url_encoding(bytes)[3] == url_safe_symbol(bytes[2] as int % 64),
        bytes.len() >= 3 ==> base64_url_encoding(bytes.subrange(3, bytes.len() as int))
            =~= base64_url_encoding(bytes).subrange(4, base64_url_encoding(bytes).len() as int),
{
}

/// A number written as a high and a low digit in base `base` has one such writing.
proof fn lemma_digits(hi1: int, lo1: int, hi2: int, lo2: int, base: int)
    by (nonlinear_arith)
    requires
        0 <= lo1 < base,
        0 <= lo2 < base,
        hi1 * base + lo1 == hi2 * base + lo2,
    ensures
        hi1 == hi2,
        lo1 == lo2,
{
}

/// Distinct byte sequences have distinct encodings.
pub proof fn lemma_encoding_injective(a: Seq<u8>, b: Seq<u8>)
    requires
        base64_url_encoding(a) == base64_url_encoding(b),
    ensures
        a == b,
    decreases a.len(),
{
    lemma_encoding_len(a);
    lemma_encoding_len(b);
    let ea = base64_url_encoding(a);
    let eb = base64_url_encoding(b);
    assert(a.len() == b.len());
    if a.len() > 0 {
        lemma_encoding_head(a);
        lemma_encoding_head(b);
    }
    if a.len() == 0 {
        assert(a =~= b);
    } else {
        let a0 = a[0] as int;
        let b0 = b[0] as int;
        assert(ea[0] == eb[0]);
        lemma_url_safe_symbol_injective(a0 / 4, b0 / 4);
        if a.len() == 1 {
            assert(ea[1] == eb[1]);
            lemma_url_safe_symbol_injective((a0 % 4) * 16, (b0 % 4) * 16);
            assert(a =~= b);
        } else {
            let a1 = a[1] as int;
            let b1 = b[1] as int;
            assert(ea[1] == eb[1]);
            lemma_url_safe_symbol_injective((a0 % 4) * 16 + a1 / 16, (b0 % 4) * 16 + b1 / 16);
            assert(ea[2] == eb[2]);
            if a.len() == 2 {
                lemma_url_safe_symbol_injective((a1 % 16) * 4, (b1 % 16) * 4);
                lemma_digits(a0 % 4, a1 / 16, b0 % 4, b1 / 16, 16);
                assert(a0 == b0 && a1 == b1);
                assert(a =~= b);
            } else {
                let a2 = a[2] as int;
                let b2 = b[2] as int;
                lemma_url_safe_symbol_injective((a1 % 16) * 4 + a2 / 64, (b1 % 16) * 4 + b2 / 64);
                assert(ea[3] == eb[3]);
                lemma_url_safe_symbol_injective(a2 % 64, b2 % 64);
                let ra = a.subrange(3, a.len() as int);
                let rb = b.subrange(3, b.len() as int);
                lemma_encoding_injective(ra, rb);
                lemma_digits(a0 % 4, a1 / 16, b0 % 4, b1 / 16, 16);
                lemma_digits(a1 % 16, a2 / 64, b1 % 16, b2 / 64, 4);
                assert(a0 == b0 && a1 == b1 && a2 == b2);
                assert forall|i: int| 3 <= i < a.len() implies a[i] == b[i] by {
                    assert(a[i] == ra[i - 3] && b[i] == rb[i - 3]);
                }
                assert(a =~= b);
            }
        }
    }
}

/// Decoding an encoding of at most 16 bytes gives the bytes back.
pub proof fn lemma_decoding_of_encoding(bytes: Seq<u8>)
    requires
        bytes.len() <= 16,
    ensures
        url_safe_no_pad_decoding_into16(base64_url_encoding(bytes)) == Some(bytes),
{
    let text = base64_url_encoding(bytes);
    assert(exists|b: Seq<u8>| b.len() <= 16 && #[trigger] base64_url_encoding(b) == text);
    let chosen = choose|b: Seq<u8>| b.len() <= 16 && #[trigger] base64_url_encoding(b) == text;
    lemma_encoding_injective(chosen, bytes);
}

/// The text form of an id: its little-endian bytes in URL-safe base64 without padding.
pub open spec fn id_text(id: Id) -> Seq<char> {
    base64_url_encoding(id_bytes(id))
}

/// What parsing `text` as an id gives: `None` where it is refused.
pub open spec fn id_of_text(text: Seq<char>) -> Option<Id> {
    match url_safe_no_pad_decoding_into16(text) {
        Some(bytes) => if bytes.len() == 16 {
            Some(id_from_bytes(bytes))
        } else {
            None
        },
        None => None,
    }
}

/// Encodes `bytes` with `base64::engine::general_purpose::URL_SAFE_NO_PAD` (`Engine::encode`).
///
/// Trusted: the text is the URL-safe base64 encoding of the bytes, without padding.
#[verifier::external_body]
fn encode_url_safe_no_pad(bytes: &[u8]) -> (text: String)
    ensures
        text@ == base64_url_encoding(bytes@),
{
    URL_SAFE_NO_PAD.encode(bytes)
}

/// Decodes `text` with `base64::engine::general_purpose::URL_SAFE_NO_PAD` into a 16-byte
/// buffer (`Engine::decode_slice`), and hands back the bytes written.
///
/// Trusted: the decoding succeeds exactly when the text is the URL-safe base64 encoding,
/// without padding, of at most 16 bytes, and then gives those bytes. (The engine refuses
/// padding, symbols outside the alphabet, a final symbol with unused bits set, and output
/// that does not fit the buffer.)
#[verifier::external_body]
fn decode_url_safe_no_pad_into16(text: &str) -> (result: Result<Vec<u8>, base64::DecodeSliceError>)
    ensures
        match result {
            Ok(bytes) => url_safe_no_pad_decoding_into16(text@) == Some(bytes@),
            Err(_) => url_safe_no_pad_decoding_into16(text@) is None,
        },
{
    let mut buffer = [0u8; 16];
    match URL_SAFE_NO_PAD.decode_slice(text.as_bytes(), &mut buffer) {
        Ok(written) => Ok(buffer[..written].to_vec()),
        Err(error) => Err(error),
    }
}

fn to_unsigned_bits(v: i128) -> (u: u128)
    ensures
        u == unsigned_bits(v),
{
    if v < 0 {
        ((v + i128::MAX + 1) as u128) + 0x8000_0000_0000_0000_0000_0000_0000_0000
    } else {
        v as u128
    }
}

fn to_signed_bits(u: u128) -> (v: i128)
    ensures
        v == signed_bits(u),
{
    if u >= 0x8000_0000_0000_0000_0000_0000_0000_0000 {
        ((u - 0x8000_0000_0000_0000_0000_0000_0000_0000) as i128) - i128::MAX - 1
    } else {
        u as i128
    }
}

/// Reading the bits of a number as unsigned and back gives the number.
pub proof fn lemma_signed_unsigned_bits(v: i128)
    ensures
        signed_bits(unsigned_bits(v)) == v,
{
}

/// The bytes of an id give the id back.
pub proof fn lemma_id_bytes_roundtrip(id: Id)
    ensures
        id_bytes(id).len() == 16,
        id_from_bytes(id_bytes(id)) == id,
{
    lemma_auto_spec_u128_to_from_le_bytes();
    lemma_signed_unsigned_bits(id.0);
    let u = unsigned_bits(id.0);
    assert(spec_u128_to_le_bytes(u).len() == 16);
}

/// A random `i128`, drawn with `rand::random` from the thread-local generator.
///
/// Trusted: nothing is stated of the value.
#[verifier::external_body]
pub(crate) fn random_i128() -> i128 {
    rand::random::<i128>()
}

impl Id {
    /// An id drawn from the default random source of the `rand` crate (`rand::rngs::ThreadRng`).
    pub fn random() -> Id {
        Id(random_i128())
    }

    /// The text form of the id: 22 characters of URL-safe base64.
    pub fn to_string(&self) -> (text: String)
        ensures
            text@ == id_text(*self),
            text@.len() == 22,
    {
        proof {
            lemma_auto_spec_u128_to_from_le_bytes();
            lemma_id_bytes_roundtrip(*self);
            lemma_encoding_len(id_bytes(*self));
        }
        let bytes = u128_to_le_bytes(to_unsigned_bits(self.0));
        encode_url_safe_no_pad(bytes.as_slice())
    }

    /// Parses the text form of an id.
    ///
    /// Errors if the text is not URL-safe base64 without padding, or does not decode to
    /// exactly 16 bytes.
    pub fn from_str(text: &str) -> (result: Result<Id, IdParseError>)
        ensures
            match url_safe_no_pad_decoding_into16(text@) {
                Some(bytes) => if bytes.len() == 16 {
                    result == Ok::<Id, IdParseError>(id_from_bytes(bytes))
                } else {
                    result == Err::<Id, IdParseError>(IdParseError::InvalidLength(bytes.len() as usize))
                },
                None => result matches Err(IdParseError::Decode(_)),
            },
            result is Ok <==> id_of_text(text@) is Some,
            result matches Ok(id) ==> id_of_text(text@) == Some(id),
            // The text form of an id parses back to the id.
            forall|id: Id| #[trigger] id_text(id) == text@ ==> result == Ok::<Id, IdParseError>(id),
    {
        let decoded = decode_url_safe_no_pad_into16(text);
        proof {
            assert forall|id: Id| #[trigger] id_text(id) == text@ implies decoded is Ok
                && decoded->Ok_0@ == id_bytes(id) && id_bytes(id).len() == 16 && id_from_bytes(decoded->Ok_0@) == id by {
                lemma_id_bytes_roundtrip(id);
                lemma_decoding_of_encoding(id_bytes(id));
            }
        }
        match decoded {
            Err(error) => {
                assert(forall|id: Id| #[trigger] id_text(id) != text@);
                Err(IdParseError::Decode(error))
            },
            Ok(bytes) => {
                if bytes.len() != 16 {
                    assert(forall|id: Id| #[trigger] id_text(id) != text@);
                    Err(IdParseError::InvalidLength(bytes.len()))
                } else {
                    let u = u128_from_le_bytes(bytes.as_slice());
                    Ok(Id(to_signed_bits(u)))
                }
            },
        }
    }
}

impl core::str::FromStr for Id {
    type Err = IdParseError;

    /// Parses the text form of an id, as [`Id::from_str`] does.
    fn from_str(text: &str) -> (result: Result<Id, IdParseError>)
        ensures
            match url_safe_no_pad_decoding_into16(text@) {
                Some(bytes) => if bytes.len() == 16 {
                    result == Ok::<Id, IdParseError>(id_from_bytes(bytes))
                } else {
                    result == Err::<Id, IdParseError>(IdParseError::InvalidLength(bytes.len() as usize))
                },
                None => result matches Err(IdParseError::Decode(_)),
            },
    {
        Id::from_str(text)
    }
}

} // verus!
