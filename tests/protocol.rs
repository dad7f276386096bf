use worker_discovery::{
    ack_payload, check_ack, discovery_endpoint, handshake_payload, parse_announcement, same_ip,
    Endpoint, HandshakeError, IpAddress, WorkerIdentity, DISCOVERY_GROUP_V4, DISCOVERY_PORT,
};

const SAMPLE_ID: u128 = 0x67e5_5044_10b1_426f_9247_bb68_0e5f_e0c8;

fn ip(a: u8, b: u8, c: u8, d: u8) -> IpAddress {
    IpAddress::V4(u32::from_be_bytes([a, b, c, d]))
}

#[test]
fn announcement_with_port_parses() {
    assert_eq!(parse_announcement(b"PyDistrib INIT 9000"), Some(9000));
}

#[test]
fn announcement_port_edges() {
    assert_eq!(parse_announcement(b"PyDistrib INIT 0"), Some(0));
    assert_eq!(parse_announcement(b"PyDistrib INIT 65535"), Some(65535));
    assert_eq!(parse_announcement(b"PyDistrib INIT 65536"), None);
    assert_eq!(parse_announcement(b"PyDistrib INIT 1000000"), None);
    assert_eq!(parse_announcement(b"PyDistrib INIT 09000"), Some(9000));
}

#[test]
fn announcement_white_space_around_port_is_ignored() {
    assert_eq!(parse_announcement(b"PyDistrib INIT   9000 \r\n"), Some(9000));
    assert_eq!(parse_announcement(b"PyDistrib INIT \t42\t"), Some(42));
}

#[test]
fn garbage_announcement_is_malformed() {
    assert_eq!(parse_announcement(b"GARBAGE"), None);
    assert_eq!(parse_announcement(b""), None);
}

#[test]
fn malformed_announcements_are_rejected() {
    assert_eq!(parse_announcement(b"PyDistrib INIT"), None);
    assert_eq!(parse_announcement(b"PyDistrib INIT "), None);
    assert_eq!(parse_announcement(b"PyDistrib INIT    "), None);
    assert_eq!(parse_announcement(b"PyDistrib INIT abc"), None);
    assert_eq!(parse_announcement(b"PyDistrib INIT 90a0"), None);
    assert_eq!(parse_announcement(b"PyDistrib INIT 90 00"), None);
    assert_eq!(parse_announcement(b"PyDistrib INIT -1"), None);
    assert_eq!(parse_announcement(b"PyDistrib INITx9000"), None);
    assert_eq!(parse_announcement(b"pydistrib init 9000"), None);
    assert_eq!(parse_announcement(b"PyDistrib HELLO 9000"), None);
    assert_eq!(parse_announcement(&[0xff; 19]), None);
}

#[test]
fn identity_text_is_canonical() {
    let id = WorkerIdentity::from_value(SAMPLE_ID);
    assert_eq!(id.text(), b"67e55044-10b1-426f-9247-bb680e5fe0c8".to_vec());
    assert_eq!(
        WorkerIdentity::from_value(0).text(),
        b"00000000-0000-0000-0000-000000000000".to_vec()
    );
}

#[test]
fn generated_identity_has_random_uuid_layout() {
    let id = WorkerIdentity::generate();
    assert_eq!((id.value >> 76) & 0xf, 4);
    assert_eq!((id.value >> 62) & 0x3, 2);
    let text = id.text();
    assert_eq!(text.len(), 36);
    assert_eq!(text[14], b'4');
}

#[test]
fn generated_identities_differ() {
    assert_ne!(WorkerIdentity::generate(), WorkerIdentity::generate());
}

#[test]
fn handshake_carries_identity() {
    let id = WorkerIdentity::from_value(SAMPLE_ID);
    assert_eq!(
        handshake_payload(&id),
        b"PyDistrib HANDSHAKE|67e55044-10b1-426f-9247-bb680e5fe0c8".to_vec()
    );
    assert_eq!(
        ack_payload(&id),
        b"PyDistrib HANDSHAKE ACK|67e55044-10b1-426f-9247-bb680e5fe0c8".to_vec()
    );
}

#[test]
fn ack_from_server_ip_is_accepted_from_any_port() {
    let id = WorkerIdentity::from_value(SAMPLE_ID);
    let target = Endpoint::new(ip(10, 0, 0, 5), 9000);
    let ack = b"PyDistrib HANDSHAKE ACK|67e55044-10b1-426f-9247-bb680e5fe0c8";
    assert_eq!(check_ack(ack, target, target, &id), Ok(()));
    assert_eq!(check_ack(ack, Endpoint::new(ip(10, 0, 0, 5), 40000), target, &id), Ok(()));
}

#[test]
fn ack_with_trailing_white_space_is_accepted() {
    let id = WorkerIdentity::from_value(SAMPLE_ID);
    let target = Endpoint::new(ip(10, 0, 0, 5), 9000);
    let ack = b"PyDistrib HANDSHAKE ACK|67e55044-10b1-426f-9247-bb680e5fe0c8 \n";
    assert_eq!(check_ack(ack, target, target, &id), Ok(()));
}

#[test]
fn ack_with_other_text_is_a_mismatch() {
    let id = WorkerIdentity::from_value(SAMPLE_ID);
    let target = Endpoint::new(ip(10, 0, 0, 5), 9000);
    let other = b"PyDistrib HANDSHAKE ACK|00000000-10b1-426f-9247-bb680e5fe0c8";
    assert_eq!(check_ack(other, target, target, &id), Err(HandshakeError::Mismatch));
    let leading = b" PyDistrib HANDSHAKE ACK|67e55044-10b1-426f-9247-bb680e5fe0c8";
    assert_eq!(check_ack(leading, target, target, &id), Err(HandshakeError::Mismatch));
    let own_handshake = b"PyDistrib HANDSHAKE|67e55044-10b1-426f-9247-bb680e5fe0c8";
    assert_eq!(check_ack(own_handshake, target, target, &id), Err(HandshakeError::Mismatch));
    assert_eq!(check_ack(b"", target, target, &id), Err(HandshakeError::Mismatch));
}

#[test]
fn ack_from_other_host_is_rejected() {
    let id = WorkerIdentity::from_value(SAMPLE_ID);
    let target = Endpoint::new(ip(10, 0, 0, 5), 9000);
    let ack = b"PyDistrib HANDSHAKE ACK|67e55044-10b1-426f-9247-bb680e5fe0c8";
    let stranger = Endpoint::new(ip(10, 0, 0, 6), 9000);
    assert_eq!(check_ack(ack, stranger, target, &id), Err(HandshakeError::WrongSource));
    let v6 = Endpoint::new(IpAddress::V6(1), 9000);
    assert_eq!(check_ack(ack, v6, target, &id), Err(HandshakeError::WrongSource));
}

#[test]
fn discovery_endpoint_is_fixed_group() {
    let e = discovery_endpoint();
    assert_eq!(e.ip, ip(224, 1, 1, 1));
    assert_eq!(e.ip, IpAddress::V4(DISCOVERY_GROUP_V4));
    assert_eq!(e.port, 5007);
    assert_eq!(DISCOVERY_PORT, 5007);
}

#[test]
fn ip_comparison() {
    assert!(same_ip(ip(1, 2, 3, 4), ip(1, 2, 3, 4)));
    assert!(!same_ip(ip(1, 2, 3, 4), ip(1, 2, 3, 5)));
    assert!(!same_ip(IpAddress::V4(7), IpAddress::V6(7)));
}

#[test]
fn ack_with_trailing_unicode_white_space_is_accepted() {
    let id = WorkerIdentity::from_value(SAMPLE_ID);
    let target = Endpoint::new(ip(10, 0, 0, 5), 9000);
    let ack = "PyDistrib HANDSHAKE ACK|67e55044-10b1-426f-9247-bb680e5fe0c8";
    for tail in ["\u{a0}", "\u{85}", "\u{1680}", "\u{2000}", "\u{200a}", "\u{2028}", "\u{2029}",
        "\u{202f}", "\u{205f}", "\u{3000}", " \u{a0}\t\u{3000}\n"]
    {
        let text = format!("{}{}", ack, tail);
        let from = Endpoint::new(ip(10, 0, 0, 5), 40001);
        assert_eq!(check_ack(text.as_bytes(), from, target, &id), Ok(()), "tail {:?}", tail);
    }
}

#[test]
fn ack_with_trailing_non_space_is_a_mismatch() {
    let id = WorkerIdentity::from_value(SAMPLE_ID);
    let target = Endpoint::new(ip(10, 0, 0, 5), 9000);
    let ack = "PyDistrib HANDSHAKE ACK|67e55044-10b1-426f-9247-bb680e5fe0c8";
    for tail in ["\u{200b}", "\u{2020}", "\u{fffd}", "\u{1c}"] {
        let text = format!("{}{}", ack, tail);
        assert_eq!(check_ack(text.as_bytes(), target, target, &id), Err(HandshakeError::Mismatch));
    }
    let mut lone = ack.as_bytes().to_vec();
    lone.push(0xa0);
    assert_eq!(check_ack(&lone, target, target, &id), Err(HandshakeError::Mismatch));
    let mut cut = ack.as_bytes().to_vec();
    cut.extend_from_slice(&[0xe2, 0x80]);
    assert_eq!(check_ack(&cut, target, target, &id), Err(HandshakeError::Mismatch));
}

#[test]
fn announcement_port_with_unicode_white_space() {
    assert_eq!(parse_announcement("PyDistrib INIT \u{a0}9000\u{3000}".as_bytes()), Some(9000));
    assert_eq!(parse_announcement("PyDistrib INIT 9000\u{2028}\n".as_bytes()), Some(9000));
    assert_eq!(parse_announcement("PyDistrib INIT 9000\u{200b}".as_bytes()), None);
}
