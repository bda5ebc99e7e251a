use ssh_client::banner::Banner;
use ssh_client::error::{HandshakeError, KexField, KexInitError, WireError};
use ssh_client::kex_init::KeyExchangeInit;
use ssh_client::packet::Packet;
use ssh_client::session::{HandshakeState, IoOutcome, Session};
use ssh_client::wire::write_u32_be;

const COOKIE: [u8; 16] = [1, 2, 3, 4, 5, 6, 7, 8, 9, 10, 11, 12, 13, 14, 15, 16];

fn kex_payload(lists: &[&[u8]; 10], first: u8, reserved: u32) -> Vec<u8> {
    let mut v = vec![20u8];
    v.extend_from_slice(&COOKIE);
    for l in lists.iter() {
        write_u32_be(&mut v, l.len() as u32);
        v.extend_from_slice(l);
    }
    v.push(first);
    write_u32_be(&mut v, reserved);
    v
}

fn sample_lists() -> [&'static [u8]; 10] {
    [
        b"curve25519-sha256,diffie-hellman-group14-sha1",
        b"ssh-ed25519,rsa-sha2-512",
        b"aes128-ctr",
        b"aes256-ctr,aes128-ctr",
        b"hmac-sha2-256",
        b"hmac-sha2-256,hmac-sha1",
        b"none",
        b"none,zlib",
        b"",
        b"en",
    ]
}

fn err(field: KexField, kind: WireError) -> Result<KeyExchangeInit, KexInitError> {
    Err(KexInitError { field, kind })
}

fn names(list: &ssh_client::name_list::NameList) -> Vec<&str> {
    list.names.iter().map(|s| s.as_str()).collect()
}

#[test]
fn kex_init_decodes_all_fields() {
    let payload = kex_payload(&sample_lists(), 0, 0);
    let k = KeyExchangeInit::decode(&payload).unwrap();
    assert_eq!(k.cookie, COOKIE.to_vec());
    assert_eq!(
        names(&k.kex_algorithms),
        vec!["curve25519-sha256", "diffie-hellman-group14-sha1"]
    );
    assert_eq!(names(&k.server_host_key_algorithms), vec!["ssh-ed25519", "rsa-sha2-512"]);
    assert_eq!(names(&k.encryption_algorithms_client_to_server), vec!["aes128-ctr"]);
    assert_eq!(
        names(&k.encryption_algorithms_server_to_client),
        vec!["aes256-ctr", "aes128-ctr"]
    );
    assert_eq!(names(&k.mac_algorithms_client_to_server), vec!["hmac-sha2-256"]);
    assert_eq!(
        names(&k.mac_algorithms_server_to_client),
        vec!["hmac-sha2-256", "hmac-sha1"]
    );
    assert_eq!(names(&k.compression_algorithms_client_to_server), vec!["none"]);
    assert_eq!(names(&k.compression_algorithms_server_to_client), vec!["none", "zlib"]);
    assert!(k.languages_client_to_server.is_empty());
    assert_eq!(names(&k.languages_server_to_client), vec!["en"]);
    assert!(!k.first_kex_packet_follows);
    assert_eq!(k.reserved, 0);
}

#[test]
fn kex_init_keeps_nonzero_reserved_and_flag() {
    let payload = kex_payload(&sample_lists(), 7, 0x0102_0304);
    let k = KeyExchangeInit::decode(&payload).unwrap();
    assert!(k.first_kex_packet_follows);
    assert_eq!(k.reserved, 0x0102_0304);
}

#[test]
fn kex_init_wrong_message_type() {
    let mut payload = kex_payload(&sample_lists(), 0, 0);
    payload[0] = 21;
    assert_eq!(
        KeyExchangeInit::decode(&payload),
        err(KexField::MessageType, WireError::UnexpectedMessageType)
    );
}

#[test]
fn kex_init_empty_payload_is_truncated() {
    assert_eq!(
        KeyExchangeInit::decode(&[]),
        err(KexField::MessageType, WireError::Truncated)
    );
}

#[test]
fn kex_init_short_cookie_is_truncated() {
    assert_eq!(
        KeyExchangeInit::decode(&[20, 1, 2, 3]),
        err(KexField::Cookie, WireError::Truncated)
    );
}

#[test]
fn kex_init_truncated_in_first_name_list() {
    let mut payload = vec![20u8];
    payload.extend_from_slice(&COOKIE);
    payload.extend_from_slice(&[0, 0, 0, 0x0a]);
    payload.extend_from_slice(b"diffie-h");
    assert_eq!(
        KeyExchangeInit::decode(&payload),
        err(KexField::KexAlgorithms, WireError::Truncated)
    );
}

#[test]
fn kex_init_declared_length_ten_with_eleven_bytes() {
    // the ten declared bytes are read; the eleventh is too short for the next length
    let mut payload = vec![20u8];
    payload.extend_from_slice(&COOKIE);
    payload.extend_from_slice(&[0, 0, 0, 0x0a]);
    payload.extend_from_slice(b"diffie-hell");
    assert_eq!(
        KeyExchangeInit::decode(&payload),
        err(KexField::ServerHostKeyAlgorithms, WireError::Truncated)
    );
}

#[test]
fn kex_init_trailing_byte() {
    let mut payload = kex_payload(&sample_lists(), 0, 0);
    payload.push(0);
    assert_eq!(
        KeyExchangeInit::decode(&payload),
        err(KexField::End, WireError::TrailingData)
    );
}

#[test]
fn kex_init_missing_bytes_at_end() {
    let payload = kex_payload(&sample_lists(), 0, 0);
    let n = payload.len();
    assert_eq!(
        KeyExchangeInit::decode(&payload[..n - 1]),
        err(KexField::Reserved, WireError::Truncated)
    );
    assert_eq!(
        KeyExchangeInit::decode(&payload[..n - 5]),
        err(KexField::FirstKexPacketFollows, WireError::Truncated)
    );
}

#[test]
fn kex_init_any_wrong_length_fails() {
    let payload = kex_payload(&sample_lists(), 1, 0);
    for cut in 0..payload.len() {
        let r = KeyExchangeInit::decode(&payload[..cut]);
        assert!(matches!(r, Err(KexInitError { kind: WireError::Truncated, .. })), "cut={}", cut);
    }
    for extra in 1..10 {
        let mut longer = payload.clone();
        longer.extend(std::iter::repeat(0u8).take(extra));
        assert_eq!(
            KeyExchangeInit::decode(&longer),
            err(KexField::End, WireError::TrailingData)
        );
    }
}

#[test]
fn kex_init_bad_utf8_names_field() {
    let mut lists = sample_lists();
    let bad: &[u8] = &[0xc3, 0x28];
    lists[4] = bad;
    let payload = kex_payload(&lists, 0, 0);
    assert_eq!(
        KeyExchangeInit::decode(&payload),
        err(KexField::MacAlgorithmsClientToServer, WireError::InvalidUtf8)
    );
}

#[test]
fn kex_init_overflowing_length_names_field() {
    let mut payload = vec![20u8];
    payload.extend_from_slice(&COOKIE);
    payload.extend_from_slice(&[0, 0, 0, 0]);
    payload.extend_from_slice(&[0x7f, 0xff, 0xff, 0xff, b'x']);
    assert_eq!(
        KeyExchangeInit::decode(&payload),
        err(KexField::ServerHostKeyAlgorithms, WireError::LengthOverflow)
    );
}

#[test]
fn kex_init_from_packet_with_empty_lists() {
    let empty: &[u8] = b"";
    let payload = kex_payload(&[empty; 10], 0x01, 0);
    assert_eq!(payload.len(), 62);
    let raw = Packet::encode(&payload);
    assert_eq!(&raw[..5], &[0, 0, 0, 72, 9]);
    let k = KeyExchangeInit::from_raw(&raw).unwrap();
    assert_eq!(k.cookie, COOKIE.to_vec());
    for l in [
        &k.kex_algorithms,
        &k.server_host_key_algorithms,
        &k.encryption_algorithms_client_to_server,
        &k.encryption_algorithms_server_to_client,
        &k.mac_algorithms_client_to_server,
        &k.mac_algorithms_server_to_client,
        &k.compression_algorithms_client_to_server,
        &k.compression_algorithms_server_to_client,
        &k.languages_client_to_server,
        &k.languages_server_to_client,
    ] {
        assert!(l.is_empty());
    }
    assert!(k.first_kex_packet_follows);
    assert_eq!(k.reserved, 0);
}

#[test]
fn kex_init_from_raw_framing_error() {
    assert_eq!(
        KeyExchangeInit::from_raw(&[0, 0, 0, 8, 2, 20, 0, 0, 0, 0, 0, 0]),
        err(KexField::Packet, WireError::InvalidPadding)
    );
}

#[test]
fn banner_openssh_parses() {
    let b = Banner::parse(b"SSH-2.0-OpenSSH_8.9\r\n").unwrap();
    assert_eq!(b.text, b"SSH-2.0-OpenSSH_8.9".to_vec());
    assert_eq!(b.version, b"2.0".to_vec());
    assert_eq!(b.implementation, b"OpenSSH_8.9".to_vec());
    assert!(b.comments.is_empty());
}

#[test]
fn banner_with_comments() {
    let b = Banner::parse(b"SSH-2.0-OpenSSH_8.9p1 Ubuntu-3ubuntu0.1\n").unwrap();
    assert_eq!(b.version, b"2.0".to_vec());
    assert_eq!(b.implementation, b"OpenSSH_8.9p1".to_vec());
    assert_eq!(b.comments, b"Ubuntu-3ubuntu0.1".to_vec());
}

#[test]
fn banner_old_version_is_unsupported() {
    assert_eq!(
        Banner::parse(b"SSH-1.5-foo\r\n"),
        Err(HandshakeError::UnsupportedVersion(b"SSH-1.5-foo".to_vec()))
    );
    assert_eq!(
        Banner::parse(b"SSH-2"),
        Err(HandshakeError::UnsupportedVersion(b"SSH-2".to_vec()))
    );
    assert_eq!(
        Banner::parse(b"HTTP/1.1 400\r\n"),
        Err(HandshakeError::UnsupportedVersion(b"HTTP/1.1 400".to_vec()))
    );
}

fn run_to_banner_exchanged() -> Session {
    let mut s = Session::new();
    assert_eq!(s.state(), HandshakeState::Idle);
    assert_eq!(s.connected(IoOutcome::Done), Ok(()));
    assert_eq!(s.state(), HandshakeState::Connected);
    let b = s.banner_received(IoOutcome::Done, b"SSH-2.0-OpenSSH_8.9\r\n").unwrap();
    assert_eq!(b.implementation, b"OpenSSH_8.9".to_vec());
    assert_eq!(s.state(), HandshakeState::Connected);
    assert_eq!(s.banner_sent(IoOutcome::Done), Ok(()));
    assert_eq!(s.state(), HandshakeState::BannerExchanged);
    s
}

#[test]
fn session_full_handshake() {
    let mut s = run_to_banner_exchanged();
    let payload = kex_payload(&sample_lists(), 0, 0);
    let k = s.packet_received(IoOutcome::Done, &Packet::encode(&payload)).unwrap();
    assert_eq!(names(&k.compression_algorithms_client_to_server), vec!["none"]);
    assert_eq!(s.state(), HandshakeState::KexInitReceived);
    assert_eq!(
        s.packet_received(IoOutcome::Done, &Packet::encode(&payload)),
        Err(HandshakeError::InvalidState)
    );
}

#[test]
fn session_decode_failure_fails_session() {
    let mut s = run_to_banner_exchanged();
    let mut payload = kex_payload(&sample_lists(), 0, 0);
    payload[0] = 21;
    assert_eq!(
        s.packet_received(IoOutcome::Done, &Packet::encode(&payload)),
        Err(HandshakeError::Decode(KexInitError {
            field: KexField::MessageType,
            kind: WireError::UnexpectedMessageType
        }))
    );
    assert_eq!(s.state(), HandshakeState::Failed);
    assert_eq!(
        s.packet_received(IoOutcome::Done, &Packet::encode(&payload)),
        Err(HandshakeError::InvalidState)
    );
}

#[test]
fn session_bad_banner_fails() {
    let mut s = Session::new();
    s.connected(IoOutcome::Done).unwrap();
    assert_eq!(
        s.banner_received(IoOutcome::Done, b"SSH-1.5-foo\r\n"),
        Err(HandshakeError::UnsupportedVersion(b"SSH-1.5-foo".to_vec()))
    );
    assert_eq!(s.state(), HandshakeState::Failed);
    assert_eq!(s.banner_sent(IoOutcome::Done), Err(HandshakeError::InvalidState));
    assert_eq!(s.connected(IoOutcome::Done), Err(HandshakeError::InvalidState));
}

#[test]
fn session_connect_failures() {
    let mut s = Session::new();
    assert_eq!(s.connected(IoOutcome::Failed), Err(HandshakeError::ConnectionError));
    assert_eq!(s.state(), HandshakeState::Failed);
    let mut t = Session::new();
    assert_eq!(t.connected(IoOutcome::TimedOut), Err(HandshakeError::Timeout));
    assert_eq!(t.state(), HandshakeState::Failed);
    assert_eq!(t.connected(IoOutcome::Done), Err(HandshakeError::InvalidState));
}

#[test]
fn session_steps_out_of_order() {
    let mut s = Session::new();
    assert_eq!(s.banner_sent(IoOutcome::Done), Err(HandshakeError::InvalidState));
    assert_eq!(s.state(), HandshakeState::Idle);
    s.connected(IoOutcome::Done).unwrap();
    assert_eq!(s.banner_sent(IoOutcome::Done), Err(HandshakeError::InvalidState));
    assert_eq!(s.packet_received(IoOutcome::Done, &[]), Err(HandshakeError::InvalidState));
    assert_eq!(s.state(), HandshakeState::Connected);
    s.banner_received(IoOutcome::Done, b"SSH-2.0-x\r\n").unwrap();
    assert_eq!(
        s.banner_received(IoOutcome::Done, b"SSH-2.0-x\r\n"),
        Err(HandshakeError::InvalidState)
    );
}

#[test]
fn session_timeout_reading_packet() {
    let mut s = run_to_banner_exchanged();
    assert_eq!(s.packet_received(IoOutcome::TimedOut, &[]), Err(HandshakeError::Timeout));
    assert_eq!(s.state(), HandshakeState::Failed);
}

#[test]
fn session_send_failure() {
    let mut s = Session::new();
    s.connected(IoOutcome::Done).unwrap();
    s.banner_received(IoOutcome::Done, b"SSH-2.0-x\r\n").unwrap();
    assert_eq!(s.banner_sent(IoOutcome::Failed), Err(HandshakeError::ConnectionError));
    assert_eq!(s.state(), HandshakeState::Failed);
}
