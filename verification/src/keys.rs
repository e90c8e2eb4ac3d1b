//! Key material and its cryptographic collaborators: generation of a fresh
//! Ed25519 seed from the system CSPRNG, the deterministic Ed25519-to-X25519
//! private-key conversion, and public-key derivation. The elliptic-curve
//! arithmetic itself is supplied by outside libraries behind trusted
//! declarations; this module keeps the raw bytes and the rules around them.

use vstd::prelude::*;
use vstd::string::StringExecFns;

use crate::encoding::decode_key;
use crate::encoding::spec_decode_key;
use crate::encoding::EncodingType;
use crate::encoding::KEY_LENGTH;
use crate::errors::Error;

verus! {

/// Which cryptographic key family to produce. X25519 keys are never drawn
/// independently: they are always derived from an ephemeral Ed25519 seed.
#[derive(Clone, Copy, Debug, PartialEq, Eq, Structural)]
pub enum KeyType {
    Ed25519,
    X25519,
}

/// The public key bytes that Ed25519 derives from 32 private-key bytes.
/// Deterministic in the private key alone; the mapping itself is left to the
/// outside library.
pub uninterp spec fn ed25519_public_key_of(private_key: Seq<u8>) -> Seq<u8>;

/// The public key bytes that X25519 derives from 32 private-key bytes.
/// Deterministic in the private key alone.
pub uninterp spec fn x25519_public_key_of(private_key: Seq<u8>) -> Seq<u8>;

/// The X25519 private-key bytes derived from an Ed25519 seed (the first half
/// of the seed's SHA-512 expansion). Deterministic in the seed alone.
pub uninterp spec fn x25519_secret_of_ed25519(seed: Seq<u8>) -> Seq<u8>;

/// The public key bytes belonging to a private key of the given family.
pub open spec fn spec_public_key_of(key_type: KeyType, private_key: Seq<u8>) -> Seq<u8> {
    match key_type {
        KeyType::Ed25519 => ed25519_public_key_of(private_key),
        KeyType::X25519 => x25519_public_key_of(private_key),
    }
}

/// Relies on `rand::random`: a fresh array filled from the thread-local
/// CSPRNG. Nothing can be promised of the drawn bytes but their count.
#[verifier::external_body]
pub(crate) fn random_seed_bytes() -> (r: Vec<u8>)
    ensures
        r@.len() == KEY_LENGTH,
{
    rand::random::<[u8; 32]>().to_vec()
}

/// Relies on `ed25519_dalek::SigningKey`: `from_bytes` accepts any 32 bytes,
/// and `verifying_key` derives the 32-byte public key, a pure function of
/// the private bytes.
#[verifier::external_body]
fn ed25519_derive_public(private_key: &Vec<u8>) -> (r: Vec<u8>)
    requires
        private_key@.len() == KEY_LENGTH,
    ensures
        r@ == ed25519_public_key_of(private_key@),
        r@.len() == KEY_LENGTH,
{
    let mut bytes = [0u8; 32];
    bytes.copy_from_slice(private_key.as_slice());
    ed25519_dalek::SigningKey::from_bytes(&bytes).verifying_key().to_bytes().to_vec()
}

/// Relies on `x25519_dalek::PublicKey::from(&StaticSecret)`: the 32-byte
/// X25519 public key, a pure function of the private bytes.
#[verifier::external_body]
fn x25519_derive_public(private_key: &Vec<u8>) -> (r: Vec<u8>)
    requires
        private_key@.len() == KEY_LENGTH,
    ensures
        r@ == x25519_public_key_of(private_key@),
        r@.len() == KEY_LENGTH,
{
    let mut bytes = [0u8; 32];
    bytes.copy_from_slice(private_key.as_slice());
    let secret = x25519_dalek::StaticSecret::from(bytes);
    x25519_dalek::PublicKey::from(&secret).to_bytes().to_vec()
}

/// Relies on `ed25519_dalek::SigningKey::to_scalar_bytes`: the first 32
/// bytes of the seed's SHA-512 expansion, the standard Ed25519-to-X25519
/// private-key conversion, a pure function of the seed.
#[verifier::external_body]
fn ed25519_to_x25519_secret(seed: &Vec<u8>) -> (r: Vec<u8>)
    requires
        seed@.len() == KEY_LENGTH,
    ensures
        r@ == x25519_secret_of_ed25519(seed@),
        r@.len() == KEY_LENGTH,
{
    let mut bytes = [0u8; 32];
    bytes.copy_from_slice(seed.as_slice());
    ed25519_dalek::SigningKey::from_bytes(&bytes).to_scalar_bytes().to_vec()
}

/// A private key: 32 opaque bytes and the family they belong to. Immutable
/// once constructed.
#[derive(Debug, PartialEq, Eq)]
pub struct PrivateKey {
    key_type: KeyType,
    bytes: Vec<u8>,
}

/// A public key: 32 opaque bytes and the family they belong to.
#[derive(Debug, PartialEq, Eq)]
pub struct PublicKey {
    key_type: KeyType,
    bytes: Vec<u8>,
}

impl View for PrivateKey {
    type V = Seq<u8>;

    closed spec fn view(&self) -> Seq<u8> {
        self.bytes@
    }
}

impl View for PublicKey {
    type V = Seq<u8>;

    closed spec fn view(&self) -> Seq<u8> {
        self.bytes@
    }
}

impl PrivateKey {
    pub closed spec fn spec_key_type(&self) -> KeyType {
        self.key_type
    }

    /// Every private key holds exactly 32 bytes.
    #[verifier::type_invariant]
    pub closed spec fn wf(&self) -> bool {
        self.bytes@.len() == KEY_LENGTH
    }

    /// Wraps 32 bytes as an Ed25519 private key; rejects any other length.
    pub fn ed25519(bytes: Vec<u8>) -> (r: Result<PrivateKey, Error>)
        ensures
            r is Ok <==> bytes@.len() == KEY_LENGTH,
            r is Ok ==> r->Ok_0@ == bytes@ && r->Ok_0.spec_key_type() == KeyType::Ed25519,
            r is Err ==> r->Err_0 is Unexpected,
    {
        if bytes.len() == KEY_LENGTH {
            Ok(PrivateKey { key_type: KeyType::Ed25519, bytes })
        } else {
            Err(Error::Unexpected(String::from_str("wrong Ed25519 private key length")))
        }
    }

    /// Wraps 32 bytes as an X25519 private key; rejects any other length.
    pub fn x25519(bytes: Vec<u8>) -> (r: Result<PrivateKey, Error>)
        ensures
            r is Ok <==> bytes@.len() == KEY_LENGTH,
            r is Ok ==> r->Ok_0@ == bytes@ && r->Ok_0.spec_key_type() == KeyType::X25519,
            r is Err ==> r->Err_0 is Unexpected,
    {
        if bytes.len() == KEY_LENGTH {
            Ok(PrivateKey { key_type: KeyType::X25519, bytes })
        } else {
            Err(Error::Unexpected(String::from_str("wrong X25519 private key length")))
        }
    }

    /// The defined X25519-from-Ed25519 conversion: succeeds exactly on a
    /// 32-byte seed, and its output depends on the seed bytes alone.
    pub fn from_ed25519_private_bytes(seed: &Vec<u8>) -> (r: Result<PrivateKey, Error>)
        ensures
            r is Ok <==> seed@.len() == KEY_LENGTH,
            r is Ok ==> r->Ok_0@ == x25519_secret_of_ed25519(seed@) && r->Ok_0.spec_key_type()
                == KeyType::X25519,
            r is Err ==> r->Err_0 is Unexpected,
    {
        if seed.len() == KEY_LENGTH {
            let bytes = ed25519_to_x25519_secret(seed);
            Ok(PrivateKey { key_type: KeyType::X25519, bytes })
        } else {
            Err(Error::Unexpected(String::from_str("invalid Ed25519 seed length")))
        }
    }

    /// Draws a fresh Ed25519 private key from the system CSPRNG.
    pub fn generate_ed25519_key() -> (r: PrivateKey)
        ensures
            r.spec_key_type() == KeyType::Ed25519,
    {
        let bytes = random_seed_bytes();
        PrivateKey { key_type: KeyType::Ed25519, bytes }
    }

    pub fn key_type(&self) -> (r: KeyType)
        ensures
            r == self.spec_key_type(),
    {
        self.key_type
    }

    /// The raw 32 key bytes.
    pub fn to_bytes(&self) -> (r: Vec<u8>)
        ensures
            r@ == self@,
            r@.len() == KEY_LENGTH,
    {
        proof {
            use_type_invariant(self);
        }
        self.bytes.clone()
    }

    /// Derives the public counterpart of this private key.
    pub fn public_key(&self) -> (r: PublicKey)
        ensures
            r.spec_key_type() == self.spec_key_type(),
            r@ == spec_public_key_of(self.spec_key_type(), self@),
    {
        proof {
            use_type_invariant(self);
        }
        let bytes = match self.key_type {
            KeyType::Ed25519 => ed25519_derive_public(&self.bytes),
            KeyType::X25519 => x25519_derive_public(&self.bytes),
        };
        PublicKey { key_type: self.key_type, bytes }
    }
}

impl PublicKey {
    pub closed spec fn spec_key_type(&self) -> KeyType {
        self.key_type
    }

    /// Every public key holds exactly 32 bytes.
    #[verifier::type_invariant]
    pub closed spec fn wf(&self) -> bool {
        self.bytes@.len() == KEY_LENGTH
    }

    /// Wraps 32 bytes as a public key of the given family; rejects any other
    /// length.
    pub fn new(key_type: KeyType, bytes: Vec<u8>) -> (r: Result<PublicKey, Error>)
        ensures
            r is Ok <==> bytes@.len() == KEY_LENGTH,
            r is Ok ==> r->Ok_0@ == bytes@ && r->Ok_0.spec_key_type() == key_type,
            r is Err ==> r->Err_0 is Unexpected,
    {
        if bytes.len() == KEY_LENGTH {
            Ok(PublicKey { key_type, bytes })
        } else {
            Err(Error::Unexpected(String::from_str("wrong public key length")))
        }
    }

    pub fn key_type(&self) -> (r: KeyType)
        ensures
            r == self.spec_key_type(),
    {
        self.key_type
    }

    /// The raw 32 key bytes.
    pub fn to_bytes(&self) -> (r: Vec<u8>)
        ensures
            r@ == self@,
            r@.len() == KEY_LENGTH,
    {
        proof {
            use_type_invariant(self);
        }
        self.bytes.clone()
    }
}

/// Decodes a private key of the given family from its on-disk bytes; the
/// actual file read happens in the unverified shell. Succeeds exactly when
/// the bytes are a well-formed encoding of one key.
pub fn load_key(key_type: KeyType, encoding: EncodingType, data: &Vec<u8>) -> (r: Result<
    PrivateKey,
    Error,
>)
    ensures
        r is Ok <==> spec_decode_key(encoding, data@) is Some,
        r is Ok ==> r->Ok_0@ == spec_decode_key(encoding, data@)->0 && r->Ok_0.spec_key_type()
            == key_type,
        r is Err ==> match encoding {
            EncodingType::Hex => r->Err_0 is Parse,
            EncodingType::BCS => r->Err_0 is Serialization,
            EncodingType::Base64 => r->Err_0 is Parse,
        },
{
    let bytes = match decode_key(encoding, data) {
        Ok(b) => b,
        Err(e) => return Err(e),
    };
    match key_type {
        KeyType::Ed25519 => PrivateKey::ed25519(bytes),
        KeyType::X25519 => PrivateKey::x25519(bytes),
    }
}

/// Decodes a public key of the given family from its on-disk bytes.
pub fn load_public_key(key_type: KeyType, encoding: EncodingType, data: &Vec<u8>) -> (r: Result<
    PublicKey,
    Error,
>)
    ensures
        r is Ok <==> spec_decode_key(encoding, data@) is Some,
        r is Ok ==> r->Ok_0@ == spec_decode_key(encoding, data@)->0 && r->Ok_0.spec_key_type()
            == key_type,
        r is Err ==> match encoding {
            EncodingType::Hex => r->Err_0 is Parse,
            EncodingType::BCS => r->Err_0 is Serialization,
            EncodingType::Base64 => r->Err_0 is Parse,
        },
{
    let bytes = match decode_key(encoding, data) {
        Ok(b) => b,
        Err(e) => return Err(e),
    };
    PublicKey::new(key_type, bytes)
}

} // verus!
