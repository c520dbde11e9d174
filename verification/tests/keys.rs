use pump_trader::keys::{
    load_keypair_from_base58, load_keypair_from_string, read_keystore_content, KeyLoadError,
    KeystoreError, KeystoreKey,
};
use solana_sdk::signature::Keypair;
use solana_sdk::signer::Signer;

fn sample() -> Keypair {
    Keypair::new_from_array([7u8; 32])
}

fn json_of(bytes: &[u8]) -> String {
    format!("[{}]", bytes.iter().map(|b| b.to_string()).collect::<Vec<_>>().join(","))
}

#[test]
fn private_key_from_json_array() {
    let k = sample();
    let text = format!("  {}\n", json_of(&k.to_bytes()));
    let loaded = load_keypair_from_string(&text).unwrap();
    assert_eq!(loaded.keypair().pubkey(), k.pubkey());
    assert_eq!(loaded.bytes().as_slice(), &k.to_bytes()[..]);
    assert_eq!(loaded.into_keypair().to_bytes(), k.to_bytes());
}

#[test]
fn private_key_from_base58() {
    let k = sample();
    let loaded = load_keypair_from_string(&format!(" {} ", k.to_base58_string())).unwrap();
    assert_eq!(loaded.keypair().pubkey(), k.pubkey());
    assert_eq!(loaded.bytes().as_slice(), &k.to_bytes()[..]);
    let direct = load_keypair_from_base58(&k.to_base58_string()).unwrap();
    assert_eq!(direct.keypair().pubkey(), k.pubkey());
    assert_eq!(direct.bytes().as_slice(), &k.to_bytes()[..]);
    // a different key gives different bytes
    let other = Keypair::new_from_array([8u8; 32]);
    assert_ne!(load_keypair_from_base58(&other.to_base58_string()).unwrap().bytes().as_slice(), &k.to_bytes()[..]);
}

#[test]
fn private_key_errors() {
    assert_eq!(load_keypair_from_string("   ").err().unwrap(), KeyLoadError::Empty);
    // 64 bytes whose public half does not match the secret half.
    let mut bad = sample().to_bytes();
    bad[63] ^= 1;
    assert_eq!(load_keypair_from_string(&json_of(&bad)).err().unwrap(), KeyLoadError::InvalidKeyBytes);
    assert_eq!(
        load_keypair_from_string(&"1".repeat(60)).err().unwrap(),
        KeyLoadError::InvalidBase58
    );
    assert_eq!(load_keypair_from_string("[1,2,3]").err().unwrap(), KeyLoadError::Unrecognized);
    assert_eq!(load_keypair_from_string("short").err().unwrap(), KeyLoadError::Unrecognized);
    assert_eq!(
        load_keypair_from_string(&format!("{{{}", "a".repeat(60))).err().unwrap(),
        KeyLoadError::Unrecognized
    );
    assert_eq!(load_keypair_from_base58("0OIl").err().unwrap(), KeyLoadError::InvalidBase58);
}

#[test]
fn keystore_contents() {
    let encrypted = r#"{"encrypted_private_key":"abc","public_key":"x"}"#;
    match read_keystore_content(encrypted, Some("  secret-pass \n")).unwrap() {
        KeystoreKey::Encrypted { password } => assert_eq!(password.as_deref(), Some("secret-pass")),
        KeystoreKey::Loaded(_) => panic!("expected an encrypted keystore"),
    }
    match read_keystore_content(encrypted, Some("   ")).unwrap() {
        KeystoreKey::Encrypted { password } => assert!(password.is_none()),
        KeystoreKey::Loaded(_) => panic!("expected an encrypted keystore"),
    }
    let k = sample();
    match read_keystore_content(&json_of(&k.to_bytes()), None).unwrap() {
        KeystoreKey::Loaded(l) => {
            assert_eq!(l.keypair().pubkey(), k.pubkey());
            assert_eq!(l.bytes().as_slice(), &k.to_bytes()[..]);
        }
        KeystoreKey::Encrypted { .. } => panic!("expected a plain keypair"),
    }
    let with_lines = format!("  {}  \r\nsecond line\n", k.to_base58_string());
    match read_keystore_content(&with_lines, None).unwrap() {
        KeystoreKey::Loaded(l) => {
            assert_eq!(l.keypair().pubkey(), k.pubkey());
            assert_eq!(l.bytes().as_slice(), &k.to_bytes()[..]);
        }
        KeystoreKey::Encrypted { .. } => panic!("expected a plain keypair"),
    }
    assert_eq!(
        read_keystore_content(&format!("{}\n", "1".repeat(60)), None).err(),
        Some(KeystoreError::InvalidBase58)
    );
    assert_eq!(read_keystore_content("", None).err(), Some(KeystoreError::Unrecognized));
    assert_eq!(read_keystore_content("[1,2]\n", None).err(), Some(KeystoreError::Unrecognized));
}

#[test]
fn serialized_key_loads_back_to_its_bytes() {
    let k = sample();
    let json = serde_json::to_string(&k.to_bytes().to_vec()).unwrap();
    for text in [json.clone(), format!(" \t{}\n ", json), k.to_base58_string(), format!("\n{}  ", k.to_base58_string())] {
        let loaded = load_keypair_from_string(&text).unwrap();
        assert_eq!(loaded.bytes().as_slice(), &k.to_bytes()[..]);
    }
}
