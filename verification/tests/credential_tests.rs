use keyscan::key::{Error, KeySource, KeyType, PubKey};

/// Standard base64 with padding, used to build test inputs.
fn b64encode(data: &[u8]) -> String {
    const ALPHABET: &[u8] = b"ABCDEFGHIJKLMNOPQRSTUVWXYZabcdefghijklmnopqrstuvwxyz0123456789+/";
    let mut out = String::new();
    for chunk in data.chunks(3) {
        let b0 = chunk[0] as u32;
        let b1 = if chunk.len() > 1 { chunk[1] as u32 } else { 0 };
        let b2 = if chunk.len() > 2 { chunk[2] as u32 } else { 0 };
        let n = (b0 << 16) | (b1 << 8) | b2;
        out.push(ALPHABET[(n >> 18) as usize & 63] as char);
        out.push(ALPHABET[(n >> 12) as usize & 63] as char);
        if chunk.len() > 1 {
            out.push(ALPHABET[(n >> 6) as usize & 63] as char);
        } else {
            out.push('=');
        }
        if chunk.len() > 2 {
            out.push(ALPHABET[n as usize & 63] as char);
        } else {
            out.push('=');
        }
    }
    out
}

/// A structurally valid key blob: big-endian name length, the algorithm
/// name, then some key data.
fn key_blob(name: &str, data: &[u8]) -> Vec<u8> {
    let mut blob = Vec::new();
    blob.extend_from_slice(&(name.len() as u32).to_be_bytes());
    blob.extend_from_slice(name.as_bytes());
    blob.extend_from_slice(data);
    blob
}

#[test]
fn construct_valid_ed25519_inline() {
    let material = b64encode(&key_blob("ssh-ed25519", &[7u8; 32]));
    let key = PubKey::from_base64(&material, KeyType::Ed25519).unwrap();
    assert_eq!(key.key_type(), KeyType::Ed25519);
}

#[test]
fn construct_valid_rsa_inline() {
    let material = b64encode(&key_blob("ssh-rsa", &[1, 0, 1, 9, 9, 9]));
    let key = PubKey::from_base64(&material, KeyType::Rsa).unwrap();
    assert_eq!(key.key_type(), KeyType::Rsa);
}

#[test]
fn construct_is_repeatable() {
    let material = b64encode(&key_blob("ssh-ed25519", &[7u8; 32]));
    let k1 = PubKey::from_base64(&material, KeyType::Ed25519).unwrap();
    let k2 = PubKey::from_base64(&material, KeyType::Ed25519).unwrap();
    assert_eq!(k1.key_type(), k2.key_type());
}

#[test]
fn malformed_base64_fails_parse() {
    assert_eq!(
        PubKey::from_base64("this is not base64!!", KeyType::Rsa).unwrap_err(),
        Error::Parse
    );
}

#[test]
fn base64_with_bad_length_fails_parse() {
    assert_eq!(PubKey::from_base64("abc", KeyType::Rsa).unwrap_err(), Error::Parse);
}

#[test]
fn empty_material_fails_parse() {
    assert_eq!(PubKey::from_base64("", KeyType::Rsa).unwrap_err(), Error::Parse);
}

#[test]
fn nul_in_material_fails_utf8() {
    assert_eq!(PubKey::from_base64("AA\0AA", KeyType::Rsa).unwrap_err(), Error::UTF8);
}

#[test]
fn declared_type_must_match_blob() {
    let material = b64encode(&key_blob("ssh-ed25519", &[7u8; 32]));
    assert_eq!(PubKey::from_base64(&material, KeyType::Rsa).unwrap_err(), Error::Parse);
}

#[test]
fn blob_without_key_data_fails_parse() {
    let material = b64encode(&key_blob("ssh-ed25519", &[]));
    assert_eq!(PubKey::from_base64(&material, KeyType::Ed25519).unwrap_err(), Error::Parse);
}

#[test]
fn file_text_detects_type() {
    let material = b64encode(&key_blob("ecdsa-sha2-nistp256", &[4u8; 65]));
    let text = format!("ecdsa-sha2-nistp256 {} operator@example", material);
    let key = PubKey::from_file_text(&text).unwrap();
    assert_eq!(key.key_type(), KeyType::EcdsaP256);
}

#[test]
fn file_text_with_leading_whitespace() {
    let material = b64encode(&key_blob("ssh-rsa", &[1, 0, 1, 9, 9]));
    let text = format!("  \t ssh-rsa {}", material);
    let key = PubKey::from_file_text(&text).unwrap();
    assert_eq!(key.key_type(), KeyType::Rsa);
}

#[test]
fn file_text_unknown_algorithm_fails_parse() {
    assert_eq!(PubKey::from_file_text("ssh-mystery AAAA").unwrap_err(), Error::Parse);
}

#[test]
fn file_text_without_material_fails_parse() {
    assert_eq!(PubKey::from_file_text("ssh-rsa").unwrap_err(), Error::Parse);
}

#[test]
fn file_text_name_must_match_blob() {
    let material = b64encode(&key_blob("ssh-ed25519", &[7u8; 32]));
    let text = format!("ssh-rsa {}", material);
    assert_eq!(PubKey::from_file_text(&text).unwrap_err(), Error::Parse);
}

#[test]
fn construct_dispatches_inline() {
    let material = b64encode(&key_blob("ssh-dss", &[3u8; 40]));
    let source = KeySource::InlineText(material, KeyType::Dss);
    let key = PubKey::construct(&source).unwrap();
    assert_eq!(key.key_type(), KeyType::Dss);
}

#[test]
fn construct_dispatches_file_text() {
    let material = b64encode(&key_blob("ecdsa-sha2-nistp521", &[4u8; 133]));
    let source = KeySource::FileText(format!("ecdsa-sha2-nistp521 {} c", material));
    let key = PubKey::construct(&source).unwrap();
    assert_eq!(key.key_type(), KeyType::EcdsaP521);
}
