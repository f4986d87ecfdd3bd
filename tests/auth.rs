use baryonsweeper::auth::{go_packet, go_seed};
use baryonsweeper::tables::{lookup_key, lookup_secret1, lookup_secret2, GO_SECRET, REVISIONS};
use baryonsweeper::{
    build_packet, cmdauth1, cmdauth2, cmdauthgo, encrypt_bytes, matrix_swap, mix_challenge1,
    mix_challenge2, ErrorKind, RESPONSE_ACK,
};

#[test]
fn test_challenge_response_cmdauth1() {
    let challenge: [u8; 13] = [0x5A, 0x0B, 0x80, 0xD9, 0x8E, 0x35, 0xF3, 0x8F, 0x2B, 0x8C, 0x6D, 0x8F, 0x49];
    let expected_response: [u8; 20] = [
        0xA5, 0x12, 0x06, 0x83, 0x32, 0x32, 0xDE, 0xF3, 0x25, 0xA2,
        0x7C, 0x1A, 0xC9, 0x21, 0x7A, 0xE9, 0x8F, 0xBE, 0x22, 0x71,
    ];
    let code: u8 = RESPONSE_ACK;
    let challenge_version = challenge[3];
    let ch = &challenge[4..];
    if let Ok((packet, _ch1b)) = cmdauth1(challenge_version, ch) {
        let send = build_packet(code, &packet);
        assert_eq!(send.0[19], expected_response[19]);
        assert_eq!(expected_response, send.0[..send.1]);
    } else {
        let packet = [0xff; 8];
        let send = build_packet(code, &packet);
        assert_eq!(expected_response, send.0[..send.1]);
    }
}

#[test]
fn test_challenge_response_cmdauth2() {
    let challenge = [0x5A, 0x0A, 0x81, 0x13, 0xF1, 0x06, 0x0B, 0x97, 0x9E, 0x9F, 0xF9, 0x38];
    let expected_response = [
        0xA5, 0x12, 0x06, 0xBA, 0x54, 0x76, 0x57, 0x8E, 0xAF, 0x4E,
        0x8F, 0xAD, 0xF2, 0xA3, 0x55, 0xDA, 0x10, 0xC2, 0x1D, 0xED,
    ];
    let code: u8 = RESPONSE_ACK;
    let challenge_version = 0xD9;
    let challenge1b = [0x1A, 0xC9, 0x21, 0x7A, 0xE9, 0x8F, 0xBE, 0x22, 0x54, 0x0a, 0x8c, 0xbb, 0xc1, 0xac, 0xf7, 0xfa];
    if let Ok(packet) = cmdauth2(challenge_version, &challenge, &challenge1b) {
        let send = build_packet(code, &packet);
        assert_eq!(send.0[19], expected_response[19]);
        assert_eq!(expected_response, send.0[..send.1]);
    } else {
        assert!(false, "cmdauth2 returned err");
    }
}

#[test]
fn test_challenge_response_cmdauth2_go_b3() {
    let challenge = [0x5A, 0x0A, 0x81, 0xF0, 0x78, 0xB3, 0x21, 0xBD, 0x0A, 0x24, 0x16, 0xDD];
    let expected_response = [
        0xA5, 0x12, 0x06, 0x8C, 0x39, 0xD6, 0x17, 0xD3, 0xD4, 0xF8,
        0x95, 0xB8, 0x88, 0x8A, 0x13, 0xD2, 0x7E, 0x73, 0xB1, 0x0B,
    ];
    let code: u8 = RESPONSE_ACK;
    let challenge_version = 0xB3;
    let challenge1b = [0x0d, 0xf8, 0xf8, 0x84, 0x95, 0x45, 0x84, 0x3a,
                       0x4d, 0x84, 0x7f, 0x54, 0x7a, 0xd6, 0x2d, 0x77];
    if let Ok(packet) = cmdauth2(challenge_version, &challenge, &challenge1b) {
        let send = build_packet(code, &packet);
        assert_eq!(send.0[19], expected_response[19]);
        assert_eq!(expected_response, send.0[..send.1]);
    } else {
        assert!(false, "cmdauth2 returned err");
    }
}

#[test]
fn test_challenge_response_cmdauth1_go_eb() {
    let challenge = [0x5A, 0x0B, 0x80, 0xEB, 0xDE, 0x26, 0xFF, 0x72, 0x99, 0xF6, 0x64, 0xFF, 0xC8];
    let expected_response = [0xA5, 0x12, 0x06, 0xD6, 0x20, 0x94, 0xBC, 0xE1, 0x73, 0x17, 0xBD, 0x8B, 0x4B, 0xF6, 0x8E, 0xD4, 0xC0, 0x02, 0x03, 0xE1];
    let code = RESPONSE_ACK;
    let challenge_version = challenge[3];
    let ch = &challenge[4..];
    if let Ok((packet, _ch1b)) = cmdauth1(challenge_version, ch) {
        let send = build_packet(code, &packet);
        assert_eq!(send.0[19], expected_response[19]);
        assert_eq!(expected_response, send.0[..send.1]);
    } else {
        let packet = [0xffu8; 8];
        let send = build_packet(code, &packet);
        assert_eq!(expected_response, send.0[..send.1]);
    }
}

#[test]
fn test_challenge_response_cmdauth2_go_eb() {
    let challenge = [0x5A, 0x0A, 0x81, 0xE8, 0x60, 0xBF, 0xB1, 0x5F, 0x86, 0x8F, 0x77, 0x77];
    let expected_response = [0xA5, 0x12, 0x06, 0x62, 0x38, 0x37, 0x5D, 0x4D, 0x5E, 0xC0,
        0xEA, 0xCD, 0x3A, 0x74, 0xD4, 0xD9, 0xA0, 0x69, 0x98, 0xF6];
    let ch1b = [0x8b, 0x4b, 0xf6, 0x8e, 0xd4, 0xc0, 0x02, 0x03, 0xe5, 0x60, 0xe7, 0x4a, 0x0d, 0x13, 0x5c, 0xf2];
    let code: u8 = RESPONSE_ACK;
    let challenge_version = 0xEB;
    if let Ok(packet) = cmdauth2(challenge_version, &challenge, &ch1b) {
        let send = build_packet(code, &packet);
        assert_eq!(send.0[19], expected_response[19]);
        assert_eq!(expected_response, send.0[..send.1]);
    } else {
        assert!(false, "cmdauth2 returned err");
    }
}

#[test]
fn test_challenge_response_cmdauthgo() {
    let challenge = [0x5A, 0x2A, 0x90, 0x20, 0x10, 0x00, 0x06, 0x82, 0x82, 0x82, 0x82, 0xCB, 0xA3, 0xDB, 0xAC, 0x00, 0xDF, 0x26, 0xF8, 0xDD, 0x5B, 0x0D, 0xAC, 0x91, 0x9A, 0xCF, 0x0B, 0x63, 0x26, 0x06, 0x18, 0xE6, 0x30, 0x4F, 0xDF, 0xE1, 0x6C, 0xEE, 0xA5, 0x16, 0x4E, 0x94, 0x15, 0xED];
    let expected_response = [0xA5, 0x2A, 0x06, 0x20, 0x01, 0x00, 0x00, 0x82, 0x82, 0x82, 0x82, 0x82, 0x62, 0xDA, 0xD6, 0x79, 0x3C, 0x82, 0x92, 0x50, 0xEB, 0xC8, 0x86, 0x37, 0x23, 0x49, 0x49, 0xF5, 0xE6, 0x97, 0xC2, 0xF0, 0x76, 0x05, 0x73, 0xD7, 0x59, 0x2D, 0xC6, 0xE5, 0x27, 0x5F, 0x6D, 0x22];
    let code = RESPONSE_ACK;
    let screq = &challenge[3..];
    if let Ok(packet) = cmdauthgo(screq) {
        let send = build_packet(code, &packet);
        assert_eq!(expected_response, send.0[..send.1]);
    } else {
        assert!(false, "cmdauthgo returned err");
    }
}

#[test]
fn test_cmdauth1_invalid_version() {
    assert!(cmdauth1(0x55, &[0x00; 1]).is_err());
}

#[test]
fn unknown_revision_is_reported_by_both_phases() {
    assert_eq!(cmdauth1(0x07, &[0u8; 8]), Err(ErrorKind::UnknownRevision));
    assert_eq!(cmdauth1(0xFF, &[0u8; 8]), Err(ErrorKind::UnknownRevision));
    assert_eq!(cmdauth2(0x55, &[], &[0u8; 16]), Err(ErrorKind::UnknownRevision));
    assert_eq!(mix_challenge1(0x09, &[0u8; 8]), Err(ErrorKind::UnknownRevision));
    assert_eq!(mix_challenge2(0x09, &[0u8; 8]), Err(ErrorKind::UnknownRevision));
    assert_eq!(encrypt_bytes(&[0u8; 16], 0x09), Err(ErrorKind::UnknownRevision));
}

#[test]
fn every_revision_has_exactly_one_row_in_each_table() {
    let known = [0x00u8, 0x01, 0x02, 0x03, 0x04, 0x05, 0x06, 0x08, 0x0A, 0x0D, 0x2F, 0x97, 0xB3, 0xD9, 0xEB];
    for v in 0..=255u8 {
        let is_known = known.contains(&v);
        assert_eq!(REVISIONS.iter().filter(|r| **r == v).count(), if is_known { 1 } else { 0 });
        assert_eq!(lookup_secret1(v).is_some(), is_known);
        assert_eq!(lookup_secret2(v).is_some(), is_known);
        assert_eq!(lookup_key(v).is_some(), is_known);
    }
    let s = lookup_secret1(0xD9).unwrap();
    assert_eq!(s.version, 0xD9);
    assert_eq!(s.secret, [0x90, 0xE1, 0xF0, 0xC0, 0x01, 0x78, 0xE3, 0xFF]);
    let s2 = lookup_secret2(0xEB).unwrap();
    assert_eq!(s2.secret, [0xF7, 0x91, 0xED, 0x0B, 0x3F, 0x49, 0xA4, 0x48]);
    let k = lookup_key(0x00).unwrap();
    assert_eq!(k.version, 0x00);
    assert_eq!(k.key[0], 0x5C);
    assert_eq!(k.key[15], 0x7B);
}

#[test]
fn auth1_is_deterministic() {
    let ch = [0x8E, 0x35, 0xF3, 0x8F, 0x2B, 0x8C, 0x6D, 0x8F, 0x49];
    let a = cmdauth1(0xD9, &ch).unwrap();
    let b = cmdauth1(0xD9, &ch).unwrap();
    assert_eq!(a, b);
    let c = cmdauth1(0xD9, &ch[..8]).unwrap();
    assert_eq!(a, c);
}

#[test]
fn auth1_retains_value_that_auth2_consumes() {
    let ch = [0x8E, 0x35, 0xF3, 0x8F, 0x2B, 0x8C, 0x6D, 0x8F, 0x49];
    let (_, ch1b) = cmdauth1(0xD9, &ch).unwrap();
    assert_eq!(ch1b, [0x1A, 0xC9, 0x21, 0x7A, 0xE9, 0x8F, 0xBE, 0x22, 0x54, 0x0a, 0x8c, 0xbb, 0xc1, 0xac, 0xf7, 0xfa]);
}

#[test]
fn encrypt_bytes_is_not_the_identity() {
    let plain = [0u8; 16];
    let c = encrypt_bytes(&plain, 0xD9).unwrap();
    assert_ne!(c, plain);
    assert_eq!(encrypt_bytes(&plain, 0xD9).unwrap(), c);
    assert_ne!(encrypt_bytes(&plain, 0xEB).unwrap(), c);
}

#[test]
fn matrix_swap_interleaves_nibble_positions() {
    let block: [u8; 16] = [0, 1, 2, 3, 4, 5, 6, 7, 8, 9, 10, 11, 12, 13, 14, 15];
    assert_eq!(matrix_swap(&block), [0, 4, 8, 12, 1, 5, 9, 13, 2, 6, 10, 14, 3, 7, 11, 15]);
    assert_eq!(matrix_swap(&matrix_swap(&block)), block);
}

#[test]
fn mix_challenge1_puts_secret_then_challenge() {
    let ch = [1u8, 2, 3, 4, 5, 6, 7, 8, 9];
    let d = mix_challenge1(0xD9, &ch).unwrap();
    assert_eq!(d, [0x90, 0xE1, 0xF0, 0xC0, 0x01, 0x78, 0xE3, 0xFF, 1, 2, 3, 4, 5, 6, 7, 8]);
}

#[test]
fn mix_challenge2_uses_literal_positions() {
    let ch = [0x10u8, 0x11, 0x12, 0x13, 0x14, 0x15, 0x16, 0x17, 0xAA];
    let d = mix_challenge2(0xD9, &ch).unwrap();
    let s = [0xC3u8, 0x4A, 0x6A, 0x7B, 0x20, 0x5F, 0xE8, 0xF9];
    assert_eq!(d, [
        0x10, 0x14, s[0], s[4], 0x11, 0x15, s[1], s[5],
        0x12, 0x16, s[2], s[6], 0x13, 0x17, s[3], s[7],
    ]);
}

#[test]
fn go_request_with_wrong_secret_is_rejected() {
    let mut screq = [0u8; 41];
    screq[8] = 1;
    assert_eq!(cmdauthgo(&screq), Err(ErrorKind::HandshakeRejected));
}

#[test]
fn go_seed_swaps_halves_only_for_the_secret() {
    let first: [u8; 16] = [0, 1, 2, 3, 4, 5, 6, 7, 8, 9, 10, 11, 12, 13, 14, 15];
    assert_eq!(go_seed(&first, &GO_SECRET), Ok([8, 9, 10, 11, 12, 13, 14, 15, 0, 1, 2, 3, 4, 5, 6, 7]));
    let mut other = GO_SECRET;
    other[15] ^= 1;
    assert_eq!(go_seed(&first, &other), Err(ErrorKind::HandshakeRejected));
}

#[test]
fn go_packet_has_fixed_header() {
    let p = go_packet(&[0xAA; 16], &[0xBB; 16]);
    assert_eq!(p[..8], [0x20, 0x01, 0x00, 0x00, 0x82, 0x82, 0x82, 0x82]);
    assert_eq!(p[8..24], [0xAA; 16]);
    assert_eq!(p[24..40], [0xBB; 16]);
}
