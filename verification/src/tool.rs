//! The tool's orchestration: option structs mirroring the command line, the
//! persistence planner, and the linear generation pipeline (guard both
//! target paths, draw a seed, derive the requested key family, plan the two
//! file writes). The unverified shell gathers the existence and confirmation
//! facts, runs the planner, and performs the writes it describes.

use vstd::prelude::*;
use vstd::string::StringExecFns;

use crate::encoding::encode_key;
use crate::encoding::spec_decode_key;
use crate::encoding::spec_encode_key;
use crate::encoding::EncodingType;
use crate::encoding::KEY_LENGTH;
use crate::errors::Error;
use crate::guard::check_if_file_exists;
use crate::guard::overwrite_allowed;
use crate::keys::random_seed_bytes;
use crate::keys::spec_public_key_of;
use crate::keys::x25519_secret_of_ed25519;
use crate::keys::KeyType;
use crate::keys::PrivateKey;
use crate::keys::PublicKey;

verus! {

/// Selects the on-disk encoding of both files of the pair.
#[derive(Clone, Copy, Debug, PartialEq, Eq, Structural)]
pub struct EncodingOptions {
    pub encoding: EncodingType,
}

/// Carries the forced-yes flag that bypasses the interactive overwrite
/// prompt.
#[derive(Clone, Copy, Debug, PartialEq, Eq, Structural)]
pub struct PromptOptions {
    pub assume_yes: bool,
}

/// Where and how a generated key pair is persisted: the private key goes to
/// `key_file`, the public key to the same path with `.pub` appended.
#[derive(Debug)]
pub struct SaveKey {
    pub key_file: String,
    pub encoding_options: EncodingOptions,
    pub prompt_options: PromptOptions,
}

/// The two file writes that persist a key pair, fully computed: the two
/// co-named target paths and the encoded bytes each receives. The unverified
/// shell performs the writes; `key_name` labels any I/O error it reports.
#[derive(Debug)]
pub struct SavePlan {
    pub private_key_path: String,
    pub public_key_path: String,
    pub private_key_content: Vec<u8>,
    pub public_key_content: Vec<u8>,
    pub key_name: String,
}

/// The private-key bytes that a generation request of the given family makes
/// from a fresh Ed25519 seed: the seed itself, or its X25519 conversion.
pub open spec fn spec_private_key_bytes(key_type: KeyType, seed: Seq<u8>) -> Seq<u8> {
    match key_type {
        KeyType::Ed25519 => seed,
        KeyType::X25519 => x25519_secret_of_ed25519(seed),
    }
}

impl SaveKey {
    /// Both overwrite guards pass: the one for the private-key file and the
    /// one for the public-key file.
    pub open spec fn guards_pass(
        &self,
        private_exists: bool,
        public_exists: bool,
        private_confirmed: bool,
        public_confirmed: bool,
    ) -> bool {
        overwrite_allowed(private_exists, self.prompt_options.assume_yes, private_confirmed)
            && overwrite_allowed(public_exists, self.prompt_options.assume_yes, public_confirmed)
    }

    /// The plan persists exactly the given key pair under this request: the
    /// paths are the request's two co-named targets, each content is the
    /// requested encoding of its key, and decoding either content with the
    /// same encoding restores the key it persists.
    pub open spec fn spec_plan_matches(
        &self,
        key_type: KeyType,
        key: Seq<u8>,
        key_name: Seq<char>,
        plan: SavePlan,
    ) -> bool {
        &&& plan.private_key_path@ == self.key_file@
        &&& plan.public_key_path@ == self.key_file@ + ".pub"@
        &&& plan.private_key_content@ == spec_encode_key(self.encoding_options.encoding, key)
        &&& plan.public_key_content@ == spec_encode_key(
            self.encoding_options.encoding,
            spec_public_key_of(key_type, key),
        )
        &&& spec_decode_key(self.encoding_options.encoding, plan.private_key_content@) == Some(key)
        &&& spec_decode_key(self.encoding_options.encoding, plan.public_key_content@) == Some(
            spec_public_key_of(key_type, key),
        )
        &&& plan.key_name@ == key_name
    }

    /// The public-key file name: the private-key path with `.pub` appended.
    pub fn public_key_file(&self) -> (r: Result<String, Error>)
        ensures
            r is Ok,
            r->Ok_0@ == self.key_file@ + ".pub"@,
    {
        Ok(self.key_file.clone().concat(".pub"))
    }

    /// Checks both target paths before anything is generated or written, so
    /// that a decline can never leave a partially written pair. Succeeds
    /// exactly when both overwrite guards pass; a decline is `Aborted`.
    pub fn check_key_file(
        &self,
        private_exists: bool,
        public_exists: bool,
        private_confirmed: bool,
        public_confirmed: bool,
    ) -> (r: Result<(), Error>)
        ensures
            r is Ok <==> self.guards_pass(
                private_exists,
                public_exists,
                private_confirmed,
                public_confirmed,
            ),
            r is Err ==> r->Err_0 is Aborted,
    {
        match check_if_file_exists(
            private_exists,
            self.prompt_options.assume_yes,
            private_confirmed,
        ) {
            Ok(()) => check_if_file_exists(
                public_exists,
                self.prompt_options.assume_yes,
                public_confirmed,
            ),
            Err(e) => Err(e),
        }
    }

    /// Plans the persistence of a key pair: derives the public key, encodes
    /// both keys independently with the same encoding, and pairs each with
    /// its target path. Never fails; the actual writes, and any I/O error,
    /// belong to the unverified shell.
    pub fn save_key(&self, key: &PrivateKey, key_name: &str) -> (r: Result<SavePlan, Error>)
        ensures
            r is Ok,
            self.spec_plan_matches(key.spec_key_type(), key@, key_name@, r->Ok_0),
    {
        let public_key = key.public_key();
        let private_bytes = key.to_bytes();
        let encoded_private_key = match encode_key(
            self.encoding_options.encoding,
            &private_bytes,
            key_name,
        ) {
            Ok(v) => v,
            Err(e) => return Err(e),
        };
        let public_bytes = public_key.to_bytes();
        let encoded_public_key = match encode_key(
            self.encoding_options.encoding,
            &public_bytes,
            key_name,
        ) {
            Ok(v) => v,
            Err(e) => return Err(e),
        };
        let public_key_path = match self.public_key_file() {
            Ok(p) => p,
            Err(e) => return Err(e),
        };
        Ok(
            SavePlan {
                private_key_path: self.key_file.clone(),
                public_key_path,
                private_key_content: encoded_private_key,
                public_key_content: encoded_public_key,
                key_name: String::from_str(key_name),
            },
        )
    }
}

/// A request to generate a key pair of one family and persist it.
#[derive(Debug)]
pub struct GenerateKey {
    pub key_type: KeyType,
    pub save_params: SaveKey,
}

impl GenerateKey {
    /// The type-specific label put on the plan for error reporting.
    pub open spec fn spec_label(&self) -> Seq<char> {
        match self.key_type {
            KeyType::Ed25519 => "ed25519"@,
            KeyType::X25519 => "x25519"@,
        }
    }

    /// The plan persists the key pair this request derives from `seed`.
    pub open spec fn spec_plan_for_seed(&self, seed: Seq<u8>, plan: SavePlan) -> bool {
        &&& seed.len() == KEY_LENGTH
        &&& self.save_params.spec_plan_matches(
            self.key_type,
            spec_private_key_bytes(self.key_type, seed),
            self.spec_label(),
            plan,
        )
    }

    /// The generation pipeline on a given Ed25519 seed: guard both target
    /// paths (failing fast to `Aborted` on a decline, before anything else
    /// happens), derive the requested key family from the seed, and plan the
    /// two writes. Succeeds exactly when both guards pass.
    pub fn execute_with_seed(
        &self,
        seed: Vec<u8>,
        private_exists: bool,
        public_exists: bool,
        private_confirmed: bool,
        public_confirmed: bool,
    ) -> (r: Result<SavePlan, Error>)
        requires
            seed@.len() == KEY_LENGTH,
        ensures
            r is Ok <==> self.save_params.guards_pass(
                private_exists,
                public_exists,
                private_confirmed,
                public_confirmed,
            ),
            r is Err ==> r->Err_0 is Aborted,
            r is Ok ==> self.spec_plan_for_seed(seed@, r->Ok_0),
    {
        match self.save_params.check_key_file(
            private_exists,
            public_exists,
            private_confirmed,
            public_confirmed,
        ) {
            Ok(()) => {},
            Err(e) => return Err(e),
        }
        let ed25519_key = match PrivateKey::ed25519(seed) {
            Ok(k) => k,
            Err(e) => return Err(e),
        };
        match self.key_type {
            KeyType::X25519 => {
                let seed_bytes = ed25519_key.to_bytes();
                let private_key = match PrivateKey::from_ed25519_private_bytes(&seed_bytes) {
                    Ok(k) => k,
                    Err(e) => return Err(e),
                };
                self.save_params.save_key(&private_key, "x25519")
            },
            KeyType::Ed25519 => self.save_params.save_key(&ed25519_key, "ed25519"),
        }
    }

    /// The whole generation pipeline: a fresh Ed25519 seed is drawn from the
    /// system CSPRNG after both overwrite guards pass, and the plan persists
    /// the key pair derived from some such 32-byte seed.
    pub fn execute(
        &self,
        private_exists: bool,
        public_exists: bool,
        private_confirmed: bool,
        public_confirmed: bool,
    ) -> (r: Result<SavePlan, Error>)
        ensures
            r is Ok <==> self.save_params.guards_pass(
                private_exists,
                public_exists,
                private_confirmed,
                public_confirmed,
            ),
            r is Err ==> r->Err_0 is Aborted,
            r is Ok ==> exists|seed: Seq<u8>| self.spec_plan_for_seed(seed, r->Ok_0),
    {
        match self.save_params.check_key_file(
            private_exists,
            public_exists,
            private_confirmed,
            public_confirmed,
        ) {
            Ok(()) => {},
            Err(e) => return Err(e),
        }
        let seed = random_seed_bytes();
        let ghost seed_view = seed@;
        let r = self.execute_with_seed(
            seed,
            private_exists,
            public_exists,
            private_confirmed,
            public_confirmed,
        );
        proof {
            if r is Ok {
                assert(self.spec_plan_for_seed(seed_view, r->Ok_0));
            }
        }
        r
    }

    /// Typed generation of an X25519 key pair: plans a forced generation to
    /// `key_file` and returns the pair read back from the planned contents.
    pub fn generate_x25519(encoding_type: EncodingType, key_file: &str) -> (r: Result<
        (PrivateKey, PublicKey),
        Error,
    >)
        ensures
            r is Ok,
            r->Ok_0.0.spec_key_type() == KeyType::X25519,
            r->Ok_0.1.spec_key_type() == KeyType::X25519,
            r->Ok_0.1@ == spec_public_key_of(KeyType::X25519, r->Ok_0.0@),
    {
        let command = GenerateKey {
            key_type: KeyType::X25519,
            save_params: SaveKey {
                key_file: String::from_str(key_file),
                encoding_options: EncodingOptions { encoding: encoding_type },
                prompt_options: PromptOptions { assume_yes: true },
            },
        };
        let plan = match command.execute(false, false, false, false) {
            Ok(p) => p,
            Err(e) => return Err(e),
        };
        proof {
            let seed = choose|s: Seq<u8>| command.spec_plan_for_seed(s, plan);
            assert(command.spec_plan_for_seed(seed, plan));
            assert(spec_decode_key(encoding_type, plan.private_key_content@) is Some);
            assert(spec_decode_key(encoding_type, plan.public_key_content@)
                == Some(
                spec_public_key_of(
                    KeyType::X25519,
                    spec_decode_key(encoding_type, plan.private_key_content@)->0,
                ),
            ));
        }
        let private_key = match crate::keys::load_key(
            KeyType::X25519,
            encoding_type,
            &plan.private_key_content,
        ) {
            Ok(k) => k,
            Err(e) => return Err(e),
        };
        let public_key = match crate::keys::load_public_key(
            KeyType::X25519,
            encoding_type,
            &plan.public_key_content,
        ) {
            Ok(k) => k,
            Err(e) => return Err(e),
        };
        Ok((private_key, public_key))
    }

    /// Typed generation of an Ed25519 key pair: plans a forced generation to
    /// `key_file` and returns the pair read back from the planned contents.
    pub fn generate_ed25519(encoding_type: EncodingType, key_file: &str) -> (r: Result<
        (PrivateKey, PublicKey),
        Error,
    >)
        ensures
            r is Ok,
            r->Ok_0.0.spec_key_type() == KeyType::Ed25519,
            r->Ok_0.1.spec_key_type() == KeyType::Ed25519,
            r->Ok_0.1@ == spec_public_key_of(KeyType::Ed25519, r->Ok_0.0@),
    {
        let command = GenerateKey {
            key_type: KeyType::Ed25519,
            save_params: SaveKey {
                key_file: String::from_str(key_file),
                encoding_options: EncodingOptions { encoding: encoding_type },
                prompt_options: PromptOptions { assume_yes: true },
            },
        };
        let plan = match command.execute(false, false, false, false) {
            Ok(p) => p,
            Err(e) => return Err(e),
        };
        proof {
            let seed = choose|s: Seq<u8>| command.spec_plan_for_seed(s, plan);
            assert(command.spec_plan_for_seed(seed, plan));
            assert(spec_decode_key(encoding_type, plan.private_key_content@) is Some);
            assert(spec_decode_key(encoding_type, plan.public_key_content@)
                == Some(
                spec_public_key_of(
                    KeyType::Ed25519,
                    spec_decode_key(encoding_type, plan.private_key_content@)->0,
                ),
            ));
        }
        let private_key = match crate::keys::load_key(
            KeyType::Ed25519,
            encoding_type,
            &plan.private_key_content,
        ) {
            Ok(k) => k,
            Err(e) => return Err(e),
        };
        let public_key = match crate::keys::load_public_key(
            KeyType::Ed25519,
            encoding_type,
            &plan.public_key_content,
        ) {
            Ok(k) => k,
            Err(e) => return Err(e),
        };
        Ok((private_key, public_key))
    }
}

/// The tool's command surface: its one command generates a key pair.
#[derive(Debug)]
pub enum KeyTool {
    Generate(GenerateKey),
}

impl KeyTool {
    /// The generation request this command carries.
    pub open spec fn spec_generate(&self) -> GenerateKey {
        match *self {
            KeyTool::Generate(g) => g,
        }
    }

    /// Dispatches the command to the generation pipeline. The formatting of
    /// the outcome for the terminal belongs to the unverified shell.
    pub fn execute(
        &self,
        private_exists: bool,
        public_exists: bool,
        private_confirmed: bool,
        public_confirmed: bool,
    ) -> (r: Result<SavePlan, Error>)
        ensures
            r is Ok <==> self.spec_generate().save_params.guards_pass(
                private_exists,
                public_exists,
                private_confirmed,
                public_confirmed,
            ),
            r is Err ==> r->Err_0 is Aborted,
            r is Ok ==> exists|seed: Seq<u8>|
                self.spec_generate().spec_plan_for_seed(seed, r->Ok_0),
    {
        match self {
            KeyTool::Generate(generate) => generate.execute(
                private_exists,
                public_exists,
                private_confirmed,
                public_confirmed,
            ),
        }
    }
}

} // verus!
