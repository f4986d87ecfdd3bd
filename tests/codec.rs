use baryonsweeper::{build_packet, checksum, RESPONSE_ACK, RESPONSE_NAK};

#[test]
fn checksum_is_ones_complement_of_byte_sum() {
    assert_eq!(checksum(&[]), 0xFF);
    assert_eq!(checksum(&[0x5A, 0x02, 0x01]), 0xA2);
    assert_eq!(checksum(&[0xFF, 0xFF]), 0x01);
    assert_eq!(checksum(&[0x80; 4]), 0xFF);
}

#[test]
fn built_frames_end_in_their_checksum() {
    let payloads: [&[u8]; 4] = [&[], &[0x10, 0xC3, 0x06], &[0xFF; 40], &[0xAB; 60]];
    for p in payloads {
        let (buf, n) = build_packet(RESPONSE_ACK, p);
        assert_eq!(n, p.len() + 4);
        assert_eq!(buf[0], 0xA5);
        assert_eq!(buf[1] as usize, p.len() + 2);
        assert_eq!(buf[2], RESPONSE_ACK);
        assert_eq!(&buf[3..n - 1], p);
        let sum: u32 = buf[..n - 1].iter().map(|b| *b as u32).sum();
        assert_eq!(buf[n - 1] as u32, 0xFF - (sum % 256));
        assert!(buf[n..].iter().all(|b| *b == 0));
    }
}

#[test]
fn empty_nak_frame() {
    let (buf, n) = build_packet(RESPONSE_NAK, &[]);
    assert_eq!(buf[..n], [0xA5, 0x02, 0x05, 0x53]);
}

#[test]
fn status_frame_bytes() {
    let (buf, n) = build_packet(RESPONSE_ACK, &[0x10, 0xC3, 0x06]);
    assert_eq!(buf[..n], [0xA5, 0x05, 0x06, 0x10, 0xC3, 0x06, 0x76]);
}
