use keyscan::handles::HandleTable;
use keyscan::key::{KeyType, PubKey};
use keyscan::session::{AuthResponse, SSHSession};

fn test_key() -> PubKey {
    // "ssh-ed25519" preceded by its big-endian length, then 32 data bytes.
    let mut blob = vec![0u8, 0, 0, 11];
    blob.extend_from_slice(b"ssh-ed25519");
    blob.extend_from_slice(&[9u8; 32]);
    const ALPHABET: &[u8] = b"ABCDEFGHIJKLMNOPQRSTUVWXYZabcdefghijklmnopqrstuvwxyz0123456789+/";
    let mut text = String::new();
    for chunk in blob.chunks(3) {
        let b0 = chunk[0] as u32;
        let b1 = if chunk.len() > 1 { chunk[1] as u32 } else { 0 };
        let b2 = if chunk.len() > 2 { chunk[2] as u32 } else { 0 };
        let n = (b0 << 16) | (b1 << 8) | b2;
        text.push(ALPHABET[(n >> 18) as usize & 63] as char);
        text.push(ALPHABET[(n >> 12) as usize & 63] as char);
        text.push(if chunk.len() > 1 { ALPHABET[(n >> 6) as usize & 63] as char } else { '=' });
        text.push(if chunk.len() > 2 { ALPHABET[n as usize & 63] as char } else { '=' });
    }
    PubKey::from_base64(&text, KeyType::Ed25519).unwrap()
}

#[test]
fn full_path_releases_handle_once() {
    let mut handles = HandleTable::new();
    let mut session = SSHSession::new(&mut handles);
    assert_eq!(handles.slot_count(), 1);
    assert!(handles.slot_live(0));
    session.options_set_host("h.example").unwrap();
    session.options_set_user("root").unwrap();
    session.options_set_port_str("22").unwrap();
    let connected = session.connect(&mut handles, 0).unwrap();
    assert!(handles.slot_live(0));
    let done = connected.silent_disconnect();
    done.free(&mut handles);
    assert_eq!(handles.slot_count(), 1);
    assert!(!handles.slot_live(0));
}

#[test]
fn early_abandonment_releases_handle() {
    let mut handles = HandleTable::new();
    let session = SSHSession::new(&mut handles);
    session.free(&mut handles);
    assert!(!handles.slot_live(0));
}

#[test]
fn failed_connect_releases_handle() {
    let mut handles = HandleTable::new();
    let mut session = SSHSession::new(&mut handles);
    session.options_set_host("h.example").unwrap();
    let err = session.connect(&mut handles, -7).unwrap_err();
    assert_eq!(err, -7);
    assert!(!handles.slot_live(0));
}

#[test]
fn graceful_disconnect_keeps_handle_for_reuse() {
    let mut handles = HandleTable::new();
    let session = SSHSession::new(&mut handles);
    let connected = session.connect(&mut handles, 0).unwrap();
    let reusable = connected.disconnect();
    assert!(handles.slot_live(0));
    let connected_again = reusable.connect(&mut handles, 0).unwrap();
    connected_again.silent_disconnect().free(&mut handles);
    assert!(!handles.slot_live(0));
}

#[test]
fn nul_option_value_is_rejected() {
    let mut handles = HandleTable::new();
    let mut session = SSHSession::new(&mut handles);
    let err = session.options_set_host("h.exa\0mple").unwrap_err();
    assert_eq!(err.message, "option value contains an interior NUL byte");
    assert!(session.options_set_host("h.example").is_ok());
    session.free(&mut handles);
}

#[test]
fn banner_is_what_the_server_sent() {
    let mut handles = HandleTable::new();
    let session = SSHSession::new(&mut handles);
    let mut connected = session.connect(&mut handles, 0).unwrap();
    assert!(connected.get_server_banner().is_err());
    connected.record_server_banner(Some("SSH-2.0-OpenSSH_8.4p1".to_string()));
    assert_eq!(connected.get_server_banner().unwrap(), "SSH-2.0-OpenSSH_8.4p1");
    connected.free(&mut handles);
}

#[test]
fn auth_codes_classify_into_the_closed_set() {
    let mut handles = HandleTable::new();
    let key = test_key();
    let session = SSHSession::new(&mut handles);
    let connected = session.connect(&mut handles, 0).unwrap();
    assert_eq!(connected.userauth_try_publickey(&key, 0), Some(AuthResponse::Success));
    assert_eq!(connected.userauth_try_publickey(&key, 1), Some(AuthResponse::Denied));
    assert_eq!(connected.userauth_try_publickey(&key, 2), Some(AuthResponse::Partial));
    assert_eq!(connected.userauth_try_publickey(&key, 3), Some(AuthResponse::Info));
    assert_eq!(connected.userauth_try_publickey(&key, 4), Some(AuthResponse::Again));
    assert_eq!(connected.userauth_try_publickey(&key, -1), Some(AuthResponse::Error));
    assert_eq!(connected.userauth_try_publickey(&key, 7), None);
    assert_eq!(connected.userauth_try_publickey(&key, -2), None);
    connected.free(&mut handles);
}
