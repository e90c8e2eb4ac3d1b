//! The library-wide guarantees, each stated once and checked by the
//! verifier: the encode/decode round trip for every encoding, the
//! determinism of the X25519-from-Ed25519 conversion, and the mutual
//! rejection of the textual encodings' outputs by each other's decoders.

use vstd::prelude::*;
use vstd::pervasive::unreached;

use crate::encoding::decode_key;
use crate::encoding::encode_key;
use crate::encoding::spec_decode_key;
use crate::encoding::spec_encode_key;
use crate::encoding::EncodingType;
use crate::errors::Error;
use crate::keys::x25519_secret_of_ed25519;
use crate::keys::PrivateKey;

verus! {

/// Round trip: for every encoding and any key material, decoding what
/// `encode_key` produced restores the key bytes exactly. The body is the
/// two calls; the contract, which the verifier checks against their
/// contracts alone, is the law.
pub fn encode_decode_round_trip(encoding: EncodingType, key: &PrivateKey) -> (r: Result<
    Vec<u8>,
    Error,
>)
    ensures
        r is Ok,
        r->Ok_0@ == key@,
{
    let bytes = key.to_bytes();
    let encoded = match encode_key(encoding, &bytes, "Key") {
        Ok(v) => v,
        Err(e) => return Err(e),
    };
    decode_key(encoding, &encoded)
}

/// Spec-level round trip for the two encodings whose mapping is written out
/// in full: what `spec_encode_key` gives for Hex or BCS, `spec_decode_key`
/// maps back to the key bytes.
pub proof fn lemma_spec_round_trip(encoding: EncodingType, key: Seq<u8>)
    requires
        key.len() == crate::encoding::KEY_LENGTH,
        encoding is Hex || encoding is BCS,
    ensures
        spec_decode_key(encoding, spec_encode_key(encoding, key)) == Some(key),
{
    match encoding {
        EncodingType::Hex => {
            crate::encoding::lemma_hex_round_trip(key);
            crate::encoding::lemma_trimmed_no_ws(spec_encode_key(encoding, key));
        },
        EncodingType::BCS => {
            assert(spec_encode_key(encoding, key).skip(1) =~= key);
        },
        EncodingType::Base64 => {},
    }
}

/// The X25519-from-Ed25519 conversion is deterministic: converting the same
/// 32-byte Ed25519 seed twice yields byte-identical X25519 private keys.
pub fn x25519_conversion_deterministic(seed: &Vec<u8>) -> (r: (PrivateKey, PrivateKey))
    requires
        seed@.len() == crate::encoding::KEY_LENGTH,
    ensures
        r.0@ == r.1@,
        r.0@ == x25519_secret_of_ed25519(seed@),
{
    let first = match PrivateKey::from_ed25519_private_bytes(seed) {
        Ok(k) => k,
        Err(_) => unreached(),
    };
    let second = match PrivateKey::from_ed25519_private_bytes(seed) {
        Ok(k) => k,
        Err(_) => unreached(),
    };
    (first, second)
}

/// Format rejection, one direction: the Hex encoding of a key is never
/// accepted by the Base64 key decoder, because the 64 characters of hex
/// text can only Base64-decode to more bytes than one key holds.
pub fn hex_output_rejected_by_base64(key: &PrivateKey) -> (r: Result<Vec<u8>, Error>)
    ensures
        r is Err,
        r->Err_0 is Parse,
{
    let bytes = key.to_bytes();
    let encoded = match encode_key(EncodingType::Hex, &bytes, "Key") {
        Ok(v) => v,
        Err(e) => return Err(e),
    };
    proof {
        crate::encoding::lemma_hex_round_trip(bytes@);
        crate::encoding::lemma_trimmed_no_ws(encoded@);
    }
    decode_key(EncodingType::Base64, &encoded)
}

/// Format rejection, the other direction: the Base64 encoding of a key is
/// never accepted by the Hex key decoder, because its 44 characters are not
/// the 64 a hex-encoded key has.
pub fn base64_output_rejected_by_hex(key: &PrivateKey) -> (r: Result<Vec<u8>, Error>)
    ensures
        r is Err,
        r->Err_0 is Parse,
{
    let bytes = key.to_bytes();
    let encoded = match encode_key(EncodingType::Base64, &bytes, "Key") {
        Ok(v) => v,
        Err(e) => return Err(e),
    };
    decode_key(EncodingType::Hex, &encoded)
}

} // verus!
