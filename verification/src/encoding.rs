//! The encoding engine: the bidirectional mapping between raw key bytes and
//! the three on-disk encodings (upper-case Hex text, canonical BCS binary,
//! standard Base64 text). Encoding is pure; the actual file reads and writes
//! live in the unverified shell.

use vstd::pervasive::unreached;
use vstd::prelude::*;
use vstd::string::StringExecFns;

use crate::errors::Error;

verus! {

/// Number of raw bytes of every key this library handles, private or public.
pub const KEY_LENGTH: usize = 32;

/// Selects the on-disk encoding, applied uniformly to both the private and
/// the public key of a pair.
#[derive(Clone, Copy, Debug, PartialEq, Eq, Structural)]
pub enum EncodingType {
    Hex,
    BCS,
    Base64,
}

// ---------------------------------------------------------------------------
// ASCII whitespace trimming (applied to the textual encodings before decode)
// ---------------------------------------------------------------------------

/// The ASCII whitespace bytes stripped from both ends of textual input.
pub open spec fn is_ascii_ws(b: u8) -> bool {
    b == 9 || b == 10 || b == 11 || b == 12 || b == 13 || b == 32
}

/// `s` without its leading ASCII whitespace.
pub open spec fn trim_front(s: Seq<u8>) -> Seq<u8>
    decreases s.len(),
{
    if s.len() > 0 && is_ascii_ws(s[0]) {
        trim_front(s.drop_first())
    } else {
        s
    }
}

/// `s` without its trailing ASCII whitespace.
pub open spec fn trim_back(s: Seq<u8>) -> Seq<u8>
    decreases s.len(),
{
    if s.len() > 0 && is_ascii_ws(s[s.len() - 1]) {
        trim_back(s.drop_last())
    } else {
        s
    }
}

/// `s` without leading and trailing ASCII whitespace.
pub open spec fn trimmed(s: Seq<u8>) -> Seq<u8> {
    trim_back(trim_front(s))
}

/// A sequence without any whitespace byte is already trimmed.
pub proof fn lemma_trimmed_no_ws(s: Seq<u8>)
    requires
        forall|i: int| 0 <= i < s.len() ==> !is_ascii_ws(#[trigger] s[i]),
    ensures
        trimmed(s) == s,
{
    assert(trim_front(s) == s);
    assert(trim_back(s) == s);
}

fn is_ws_byte(b: u8) -> (r: bool)
    ensures
        r == is_ascii_ws(b),
{
    b == 9 || b == 10 || b == 11 || b == 12 || b == 13 || b == 32
}

/// Strips leading and trailing ASCII whitespace from `data`.
pub fn trim_bytes(data: &Vec<u8>) -> (r: Vec<u8>)
    ensures
        r@ == trimmed(data@),
{
    let len = data.len();
    proof {
        assert(data@.skip(0) =~= data@);
    }
    let mut start: usize = 0;
    while start < len && is_ws_byte(data[start])
        invariant
            len == data@.len(),
            start <= len,
            trim_front(data@) == trim_front(data@.skip(start as int)),
        decreases len - start,
    {
        proof {
            assert(data@.skip(start as int)[0] == data@[start as int]);
            assert(data@.skip(start as int).drop_first() =~= data@.skip(start as int + 1));
        }
        start = start + 1;
    }
    proof {
        if start < len {
            assert(data@.skip(start as int)[0] == data@[start as int]);
        }
        assert(trim_front(data@.skip(start as int)) == data@.skip(start as int));
        assert(data@.subrange(start as int, len as int) =~= data@.skip(start as int));
    }
    let mut end: usize = len;
    while end > start && is_ws_byte(data[end - 1])
        invariant
            len == data@.len(),
            start <= end <= len,
            trim_front(data@) == data@.skip(start as int),
            trim_back(data@.skip(start as int)) == trim_back(
                data@.subrange(start as int, end as int),
            ),
        decreases end,
    {
        proof {
            let sub = data@.subrange(start as int, end as int);
            assert(sub[sub.len() - 1] == data@[end - 1]);
            assert(sub.drop_last() =~= data@.subrange(start as int, end as int - 1));
        }
        end = end - 1;
    }
    proof {
        let sub = data@.subrange(start as int, end as int);
        if end > start {
            assert(sub[sub.len() - 1] == data@[end - 1]);
        }
        assert(trim_back(sub) == sub);
        assert(trimmed(data@) == data@.subrange(start as int, end as int));
    }
    let mut r: Vec<u8> = Vec::new();
    let mut i: usize = start;
    while i < end
        invariant
            start <= i <= end <= len,
            len == data@.len(),
            r@ == data@.subrange(start as int, i as int),
        decreases end - i,
    {
        r.push(data[i]);
        proof {
            assert(r@ =~= data@.subrange(start as int, i as int + 1));
        }
        i = i + 1;
    }
    r
}

// ---------------------------------------------------------------------------
// Hex
// ---------------------------------------------------------------------------

/// ASCII digits `0`-`9`, `A`-`F` and `a`-`f`.
pub open spec fn is_hex_digit(b: u8) -> bool {
    (48 <= b && b <= 57) || (65 <= b && b <= 70) || (97 <= b && b <= 102)
}

/// Numeric value of a hex digit (either case).
pub open spec fn hex_digit_value(b: u8) -> u8 {
    if 48 <= b && b <= 57 {
        (b - 48) as u8
    } else if 65 <= b && b <= 70 {
        (b - 55) as u8
    } else {
        (b - 87) as u8
    }
}

/// Upper-case hex digit of a value below 16.
pub open spec fn hex_digit_upper(v: u8) -> u8 {
    if v < 10 {
        (48 + v) as u8
    } else {
        (55 + v) as u8
    }
}

/// Upper-case hex text of `s`: two digits per byte, high nibble first.
pub open spec fn hex_upper_of(s: Seq<u8>) -> Seq<u8> {
    Seq::new(
        2 * s.len(),
        |i: int|
            if i % 2 == 0 {
                hex_digit_upper((s[i / 2] / 16) as u8)
            } else {
                hex_digit_upper((s[i / 2] % 16) as u8)
            },
    )
}

/// Input accepted by the hex decoder: even length, hex digits only.
pub open spec fn is_valid_hex(s: Seq<u8>) -> bool {
    s.len() % 2 == 0 && forall|i: int| 0 <= i < s.len() ==> is_hex_digit(#[trigger] s[i])
}

/// Bytes decoded from valid hex text: one byte per digit pair.
pub open spec fn hex_decoded(s: Seq<u8>) -> Seq<u8> {
    Seq::new(
        s.len() / 2,
        |i: int| (hex_digit_value(s[2 * i]) * 16 + hex_digit_value(s[2 * i + 1])) as u8,
    )
}

/// Upper-case hex text is valid hex, holds no whitespace, and decodes back
/// to the bytes it encodes.
pub proof fn lemma_hex_round_trip(key: Seq<u8>)
    ensures
        hex_upper_of(key).len() == 2 * key.len(),
        is_valid_hex(hex_upper_of(key)),
        forall|i: int|
            0 <= i < hex_upper_of(key).len() ==> !is_ascii_ws(#[trigger] hex_upper_of(key)[i]),
        hex_decoded(hex_upper_of(key)) == key,
{
    let h = hex_upper_of(key);
    assert forall|i: int| 0 <= i < h.len() implies is_hex_digit(#[trigger] h[i]) && !is_ascii_ws(
        h[i],
    ) by {
        let b = key[i / 2];
        assert(b / 16 < 16 && b % 16 < 16);
    }
    assert forall|i: int| 0 <= i < hex_decoded(h).len() implies hex_decoded(h)[i] == key[i] by {
        let b = key[i];
        assert(h[2 * i] == hex_digit_upper((b / 16) as u8));
        assert(h[2 * i + 1] == hex_digit_upper((b % 16) as u8));
        assert(hex_digit_value(hex_digit_upper((b / 16) as u8)) == b / 16);
        assert(hex_digit_value(hex_digit_upper((b % 16) as u8)) == b % 16);
        assert((b / 16) * 16 + b % 16 == b) by {
            vstd::arithmetic::div_mod::lemma_fundamental_div_mod(b as int, 16);
        }
    }
    assert(hex_decoded(h) =~= key);
}

/// Relies on `hex::encode_upper`: every input byte becomes two upper-case
/// hexadecimal digits, high nibble first.
#[verifier::external_body]
fn hex_encode_upper(data: &Vec<u8>) -> (r: Vec<u8>)
    ensures
        r@ == hex_upper_of(data@),
{
    hex::encode_upper(data.as_slice()).into_bytes()
}

/// Relies on `hex::decode`: it succeeds exactly on even-length input made of
/// hexadecimal digits of either case, and then returns one byte per digit
/// pair, high nibble first.
#[verifier::external_body]
fn hex_decode(data: &Vec<u8>) -> (r: Option<Vec<u8>>)
    ensures
        r is Some <==> is_valid_hex(data@),
        r is Some ==> r->0@ == hex_decoded(data@),
{
    hex::decode(data.as_slice()).ok()
}

// ---------------------------------------------------------------------------
// Base64
// ---------------------------------------------------------------------------

/// The Base64 text that the standard alphabet with `=` padding assigns to a
/// byte sequence. The exact mapping is left to the outside encoder; the
/// trusted declarations below state the facts this library relies on.
pub uninterp spec fn base64_of(s: Seq<u8>) -> Seq<u8>;

/// The result of the outside Base64 decoder on a byte sequence: the decoded
/// bytes, or nothing when the input is rejected.
pub uninterp spec fn base64_decoded_of(s: Seq<u8>) -> Option<Seq<u8>>;

/// Bytes of the standard Base64 alphabet, plus the `=` padding byte.
pub open spec fn is_base64_byte(b: u8) -> bool {
    (65 <= b && b <= 90) || (97 <= b && b <= 122) || (48 <= b && b <= 57) || b == 43 || b == 47
        || b == 61
}

/// Relies on `base64::encode` (standard alphabet, `=` padding): the output is
/// a pure function of the input bytes, four alphabet characters for every
/// three input bytes rounded up, and the matching decoder inverts it.
#[verifier::external_body]
fn base64_encode(data: &Vec<u8>) -> (r: Vec<u8>)
    ensures
        r@ == base64_of(data@),
        r@.len() == 4 * ((data@.len() + 2) / 3),
        forall|i: int| 0 <= i < r@.len() ==> is_base64_byte(#[trigger] r@[i]),
        base64_decoded_of(r@) == Some(data@),
{
    base64::encode(data.as_slice()).into_bytes()
}

/// Relies on `base64::decode` (standard alphabet): whether it succeeds and
/// what it returns depend on the input bytes alone; a successful decode of n
/// input characters, of which at most two may be `=` padding, yields between
/// (3n - 8) / 4 and 3n / 4 bytes.
#[verifier::external_body]
fn base64_decode(data: &Vec<u8>) -> (r: Option<Vec<u8>>)
    ensures
        r is Some <==> base64_decoded_of(data@) is Some,
        r is Some ==> r->0@ == base64_decoded_of(data@)->0,
        r is Some ==> 4 * r->0@.len() <= 3 * data@.len() && 3 * data@.len() <= 4 * r->0@.len()
            + 8,
{
    base64::decode(data.as_slice()).ok()
}

// ---------------------------------------------------------------------------
// The engine
// ---------------------------------------------------------------------------

/// What `encode_key` produces for each encoding: Hex is upper-case hex text,
/// BCS is the canonical binary form of a byte sequence (its single-byte
/// ULEB128 length followed by the bytes), Base64 is standard Base64 text.
pub open spec fn spec_encode_key(encoding: EncodingType, key: Seq<u8>) -> Seq<u8> {
    match encoding {
        EncodingType::Hex => hex_upper_of(key),
        EncodingType::BCS => seq![key.len() as u8] + key,
        EncodingType::Base64 => base64_of(key),
    }
}

/// What decoding yields for each encoding, after trimming ASCII whitespace
/// from the textual encodings: the raw key bytes when the input is well
/// formed and of the expected key length, nothing otherwise.
pub open spec fn spec_decode_key(encoding: EncodingType, data: Seq<u8>) -> Option<Seq<u8>> {
    match encoding {
        EncodingType::Hex => {
            let t = trimmed(data);
            if is_valid_hex(t) && t.len() == 2 * KEY_LENGTH {
                Some(hex_decoded(t))
            } else {
                None
            }
        },
        EncodingType::BCS => {
            if data.len() == KEY_LENGTH + 1 && data[0] == KEY_LENGTH as u8 {
                Some(data.skip(1))
            } else {
                None
            }
        },
        EncodingType::Base64 => {
            match base64_decoded_of(trimmed(data)) {
                Some(b) => if b.len() == KEY_LENGTH {
                    Some(b)
                } else {
                    None
                },
                None => None,
            }
        },
    }
}

/// Encodes 32 bytes of key material in the requested encoding. The last
/// clause is the round-trip guarantee: whatever `encode_key` writes, the
/// decoder of the same encoding maps back to the original bytes.
#[allow(unused_variables)]
pub fn encode_key(encoding: EncodingType, key: &Vec<u8>, key_name: &str) -> (r: Result<
    Vec<u8>,
    Error,
>)
    requires
        key@.len() == KEY_LENGTH,
    ensures
        r is Ok,
        r->Ok_0@ == spec_encode_key(encoding, key@),
        spec_decode_key(encoding, r->Ok_0@) == Some(key@),
        encoding is Hex || encoding is Base64 ==> trimmed(r->Ok_0@) == r->Ok_0@,
        encoding is Base64 ==> r->Ok_0@.len() == 4 * ((key@.len() + 2) / 3),
{
    match encoding {
        EncodingType::Hex => {
            let enc = hex_encode_upper(key);
            proof {
                lemma_hex_round_trip(key@);
                lemma_trimmed_no_ws(enc@);
            }
            Ok(enc)
        },
        EncodingType::BCS => {
            let enc = bcs_encode_bytes(key);
            proof {
                assert(enc@.skip(1) =~= key@);
            }
            Ok(enc)
        },
        EncodingType::Base64 => {
            let enc = base64_encode(key);
            proof {
                lemma_trimmed_no_ws(enc@);
            }
            Ok(enc)
        },
    }
}

/// Relies on `bcs::to_bytes` on a byte vector: BCS writes the ULEB128 length
/// (a single byte, for lengths below 128) followed by the raw bytes, and
/// cannot fail on such an input.
#[verifier::external_body]
fn bcs_encode_bytes(data: &Vec<u8>) -> (r: Vec<u8>)
    requires
        data@.len() < 128,
    ensures
        r@ == seq![data@.len() as u8] + data@,
{
    bcs::to_bytes(data).unwrap()
}

/// Relies on `bcs::from_bytes` for a byte vector: when the first input byte
/// is below 128 it is the complete ULEB128 length, decoding succeeds exactly
/// when that many bytes (and no more) follow, and returns them; empty input
/// is rejected.
#[verifier::external_body]
fn bcs_decode_bytes(data: &Vec<u8>) -> (r: Option<Vec<u8>>)
    ensures
        data@.len() >= 1 && data@[0] < 128 ==> ((r is Some <==> data@.len() == 1 + data@[0]) && (
        r is Some ==> r->0@ == data@.skip(1))),
        data@.len() == 0 ==> r is None,
{
    bcs::from_bytes::<Vec<u8>>(data.as_slice()).ok()
}

/// Decodes one key's worth of bytes from its on-disk representation.
///
/// Succeeds exactly when the (trimmed, for the textual encodings) input is a
/// well-formed encoding of 32 bytes. Malformed Hex or Base64, or a decoded
/// length other than the key length, is a `Parse` error; malformed BCS is a
/// `Serialization` error. A successful Base64 decode also pins the trimmed
/// input length to the one Base64 gives 32 bytes, which is what rejects text
/// produced by the other encodings.
pub fn decode_key(encoding: EncodingType, data: &Vec<u8>) -> (r: Result<Vec<u8>, Error>)
    ensures
        r is Ok <==> spec_decode_key(encoding, data@) is Some,
        r is Ok ==> r->Ok_0@ == spec_decode_key(encoding, data@)->0,
        r is Ok ==> r->Ok_0@.len() == KEY_LENGTH,
        r is Err ==> match encoding {
            EncodingType::Hex => r->Err_0 is Parse,
            EncodingType::BCS => r->Err_0 is Serialization,
            EncodingType::Base64 => r->Err_0 is Parse,
        },
        encoding is Base64 && r is Ok ==> 43 <= trimmed(data@).len() <= 45,
        encoding is Hex && r is Ok ==> trimmed(data@).len() == 2 * KEY_LENGTH,
{
    match encoding {
        EncodingType::Hex => {
            let t = trim_bytes(data);
            match hex_decode(&t) {
                Some(b) => {
                    if b.len() == KEY_LENGTH {
                        Ok(b)
                    } else {
                        Err(
                            Error::Parse(
                                String::from_str("Key"),
                                String::from_str("hex text does not hold one key"),
                            ),
                        )
                    }
                },
                None => Err(
                    Error::Parse(String::from_str("Key"), String::from_str("invalid hex text")),
                ),
            }
        },
        EncodingType::BCS => {
            if data.len() == KEY_LENGTH + 1 && data[0] == KEY_LENGTH as u8 {
                match bcs_decode_bytes(data) {
                    Some(b) => Ok(b),
                    None => unreached(),
                }
            } else {
                Err(
                    Error::Serialization(
                        String::from_str("Key"),
                        String::from_str("invalid BCS bytes"),
                    ),
                )
            }
        },
        EncodingType::Base64 => {
            let t = trim_bytes(data);
            match base64_decode(&t) {
                Some(b) => {
                    if b.len() == KEY_LENGTH {
                        Ok(b)
                    } else {
                        Err(
                            Error::Parse(
                                String::from_str("Key"),
                                String::from_str("Base64 text does not hold one key"),
                            ),
                        )
                    }
                },
                None => Err(
                    Error::Parse(String::from_str("Key"), String::from_str("invalid Base64 text")),
                ),
            }
        },
    }
}

} // verus!
