use key_tool::encoding::decode_key;
use key_tool::encoding::encode_key;
use key_tool::encoding::EncodingType;
use key_tool::errors::Error;
use key_tool::guard::check_if_file_exists;
use key_tool::keys::load_key;
use key_tool::keys::load_public_key;
use key_tool::keys::KeyType;
use key_tool::keys::PrivateKey;
use key_tool::laws::x25519_conversion_deterministic;
use key_tool::tool::EncodingOptions;
use key_tool::tool::GenerateKey;
use key_tool::tool::KeyTool;
use key_tool::tool::PromptOptions;
use key_tool::tool::SaveKey;

fn save_params(key_file: &str, encoding: EncodingType, assume_yes: bool) -> SaveKey {
    SaveKey {
        key_file: key_file.to_string(),
        encoding_options: EncodingOptions { encoding },
        prompt_options: PromptOptions { assume_yes },
    }
}

#[test]
fn generated_ed25519_key_has_type_and_length() {
    let key = PrivateKey::generate_ed25519_key();
    assert_eq!(key.key_type(), KeyType::Ed25519);
    assert_eq!(key.to_bytes().len(), 32);
    assert_eq!(key.public_key().to_bytes().len(), 32);
}

#[test]
fn ed25519_public_key_matches_outside_library() {
    let seed = [7u8; 32];
    let key = PrivateKey::ed25519(seed.to_vec()).unwrap();
    let expected = ed25519_dalek::SigningKey::from_bytes(&seed)
        .verifying_key()
        .to_bytes()
        .to_vec();
    assert_eq!(key.public_key().to_bytes(), expected);
}

#[test]
fn x25519_conversion_matches_outside_library() {
    let seed = [9u8; 32];
    let converted = PrivateKey::from_ed25519_private_bytes(&seed.to_vec()).unwrap();
    let expected = ed25519_dalek::SigningKey::from_bytes(&seed)
        .to_scalar_bytes()
        .to_vec();
    assert_eq!(converted.to_bytes(), expected);
    assert_eq!(converted.key_type(), KeyType::X25519);
}

#[test]
fn x25519_conversion_is_deterministic() {
    let seed = PrivateKey::generate_ed25519_key().to_bytes();
    let (first, second) = x25519_conversion_deterministic(&seed);
    assert_eq!(first.to_bytes(), second.to_bytes());
    let third = PrivateKey::from_ed25519_private_bytes(&seed).unwrap();
    assert_eq!(first.to_bytes(), third.to_bytes());
}

#[test]
fn x25519_public_key_matches_outside_library() {
    let bytes = [13u8; 32];
    let key = PrivateKey::x25519(bytes.to_vec()).unwrap();
    let secret = x25519_dalek::StaticSecret::from(bytes);
    let expected = x25519_dalek::PublicKey::from(&secret).to_bytes().to_vec();
    assert_eq!(key.public_key().to_bytes(), expected);
}

#[test]
fn wrong_length_key_material_is_rejected() {
    assert!(matches!(
        PrivateKey::ed25519(vec![0u8; 31]),
        Err(Error::Unexpected(_))
    ));
    assert!(matches!(
        PrivateKey::from_ed25519_private_bytes(&vec![0u8; 5]),
        Err(Error::Unexpected(_))
    ));
}

#[test]
fn guard_decision_table() {
    assert!(check_if_file_exists(false, false, false).is_ok());
    assert!(check_if_file_exists(true, true, false).is_ok());
    assert!(check_if_file_exists(true, false, true).is_ok());
    assert!(matches!(
        check_if_file_exists(true, false, false),
        Err(Error::Aborted)
    ));
}

#[test]
fn declined_overwrite_aborts_before_any_write() {
    let command = GenerateKey {
        key_type: KeyType::Ed25519,
        save_params: save_params("/tmp/k", EncodingType::Hex, false),
    };
    // The private-key file exists and the simulated confirmation says no:
    // no plan comes back, so nothing can be written.
    assert!(matches!(
        command.execute(true, false, false, false),
        Err(Error::Aborted)
    ));
    // The public-key file alone existing aborts just the same.
    assert!(matches!(
        command.execute(false, true, false, false),
        Err(Error::Aborted)
    ));
}

#[test]
fn forced_overwrite_succeeds_with_fresh_content() {
    let command = GenerateKey {
        key_type: KeyType::Ed25519,
        save_params: save_params("/tmp/k", EncodingType::Hex, true),
    };
    // Both files exist; the forced-yes flag bypasses the prompt.
    let first = command.execute(true, true, false, false).unwrap();
    let second = command.execute(true, true, false, false).unwrap();
    assert_eq!(first.private_key_path, "/tmp/k");
    assert_eq!(second.private_key_path, "/tmp/k");
    // Each run draws fresh randomness, so the planned contents differ.
    assert_ne!(first.private_key_content, second.private_key_content);
}

#[test]
fn ed25519_hex_end_to_end() {
    let command = GenerateKey {
        key_type: KeyType::Ed25519,
        save_params: save_params("/tmp/k", EncodingType::Hex, true),
    };
    let plan = command.execute(false, false, false, false).unwrap();
    assert_eq!(plan.private_key_path, "/tmp/k");
    assert_eq!(plan.public_key_path, "/tmp/k.pub");
    assert_eq!(plan.key_name, "ed25519");
    for content in [&plan.private_key_content, &plan.public_key_content] {
        assert_eq!(content.len() % 2, 0);
        assert!(content
            .iter()
            .all(|b| b.is_ascii_digit() || (b'A'..=b'F').contains(b)));
    }
    let private_key = load_key(KeyType::Ed25519, EncodingType::Hex, &plan.private_key_content)
        .unwrap();
    let derived_public = private_key.public_key();
    let encoded_public =
        encode_key(EncodingType::Hex, &derived_public.to_bytes(), "ed25519").unwrap();
    assert_eq!(encoded_public, plan.public_key_content);
}

#[test]
fn x25519_base64_key_exchange_round_trip() {
    let command = GenerateKey {
        key_type: KeyType::X25519,
        save_params: save_params("/tmp/kx", EncodingType::Base64, true),
    };
    let plan = command.execute(false, false, false, false).unwrap();
    assert_eq!(plan.key_name, "x25519");
    let private_key =
        load_key(KeyType::X25519, EncodingType::Base64, &plan.private_key_content).unwrap();
    let public_key =
        load_public_key(KeyType::X25519, EncodingType::Base64, &plan.public_key_content).unwrap();
    assert_eq!(private_key.public_key().to_bytes(), public_key.to_bytes());

    // The loaded private key must be a working X25519 scalar: a key
    // exchange against a fresh peer agrees from both sides.
    let mut loaded_secret_bytes = [0u8; 32];
    loaded_secret_bytes.copy_from_slice(&private_key.to_bytes());
    let loaded_secret = x25519_dalek::StaticSecret::from(loaded_secret_bytes);
    let mut loaded_public_bytes = [0u8; 32];
    loaded_public_bytes.copy_from_slice(&public_key.to_bytes());
    let loaded_public = x25519_dalek::PublicKey::from(loaded_public_bytes);

    let peer_secret = x25519_dalek::StaticSecret::from([42u8; 32]);
    let peer_public = x25519_dalek::PublicKey::from(&peer_secret);

    let ours = loaded_secret.diffie_hellman(&peer_public);
    let theirs = peer_secret.diffie_hellman(&loaded_public);
    assert_eq!(ours.as_bytes(), theirs.as_bytes());
}

#[test]
fn typed_generation_helpers_return_matching_pairs() {
    let (private_key, public_key) =
        GenerateKey::generate_ed25519(EncodingType::Hex, "/tmp/kg").unwrap();
    assert_eq!(private_key.key_type(), KeyType::Ed25519);
    assert_eq!(public_key.key_type(), KeyType::Ed25519);
    assert_eq!(private_key.public_key().to_bytes(), public_key.to_bytes());

    let (private_key, public_key) =
        GenerateKey::generate_x25519(EncodingType::BCS, "/tmp/kg").unwrap();
    assert_eq!(private_key.key_type(), KeyType::X25519);
    assert_eq!(public_key.key_type(), KeyType::X25519);
    assert_eq!(private_key.public_key().to_bytes(), public_key.to_bytes());
}

#[test]
fn save_key_plans_both_co_named_files() {
    let params = save_params("keys/alpha", EncodingType::BCS, true);
    assert_eq!(params.public_key_file().unwrap(), "keys/alpha.pub");
    let key = PrivateKey::ed25519((100u8..132u8).collect()).unwrap();
    let plan = params.save_key(&key, "ed25519").unwrap();
    assert_eq!(plan.private_key_path, "keys/alpha");
    assert_eq!(plan.public_key_path, "keys/alpha.pub");
    let mut expected = vec![32u8];
    expected.extend((100u8..132u8).collect::<Vec<u8>>());
    assert_eq!(plan.private_key_content, expected);
    let expected_public =
        encode_key(EncodingType::BCS, &key.public_key().to_bytes(), "ed25519").unwrap();
    assert_eq!(plan.public_key_content, expected_public);
}

#[test]
fn key_tool_dispatches_generate() {
    let tool = KeyTool::Generate(GenerateKey {
        key_type: KeyType::Ed25519,
        save_params: save_params("/tmp/kt", EncodingType::Base64, true),
    });
    let plan = tool.execute(false, false, false, false).unwrap();
    assert_eq!(plan.private_key_path, "/tmp/kt");
    assert_eq!(plan.public_key_path, "/tmp/kt.pub");
    let decoded = decode_key(EncodingType::Base64, &plan.private_key_content).unwrap();
    assert_eq!(decoded.len(), 32);
}
