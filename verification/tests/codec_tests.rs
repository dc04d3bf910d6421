use riden_flash::codec::{
    bytes_eq, check_crc16_trailer, check_info_response, check_legacy_response, crc16,
    decode_info_identity, decode_legacy_identity, make_boot_token, make_info_command,
    make_ok_token, make_query_command, make_read_registers_frame, make_ready_token,
    make_reboot_frame, make_start_command,
};

#[test]
fn crc16_of_read_registers_payload() {
    // The read-4-holding-registers request: payload 01 03 00 00 00 04,
    // checksum 44 09 appended little-endian.
    let c = crc16(&[0x01, 0x03, 0x00, 0x00, 0x00, 0x04]);
    assert_eq!(c & 0xFF, 0x44);
    assert_eq!(c >> 8, 0x09);
}

#[test]
fn crc16_of_write_register_payload() {
    // The write-single-register request: payload 01 06 01 00 16 01,
    // checksum 47 96 appended little-endian.
    let c = crc16(&[0x01, 0x06, 0x01, 0x00, 0x16, 0x01]);
    assert_eq!(c & 0xFF, 0x47);
    assert_eq!(c >> 8, 0x96);
}

#[test]
fn crc16_of_empty_input_is_initial_value() {
    assert_eq!(crc16(&[]), 0xFFFF);
}

#[test]
fn fixed_frames_embed_their_checksums() {
    // The two fixed request frames carry, as their trailing two bytes, the
    // CRC-16 of everything before them.
    assert!(check_crc16_trailer(&make_read_registers_frame()));
    assert!(check_crc16_trailer(&make_reboot_frame()));
}

#[test]
fn crc16_trailer_rejects_corruption() {
    let mut frame = make_read_registers_frame();
    assert!(check_crc16_trailer(&frame));
    frame[2] ^= 0x01;
    assert!(!check_crc16_trailer(&frame));
}

#[test]
fn command_and_token_bytes() {
    assert_eq!(make_query_command(), b"queryd\r\n".to_vec());
    assert_eq!(make_info_command(), b"getinf\r\n".to_vec());
    assert_eq!(make_start_command(), b"upfirm\r\n".to_vec());
    assert_eq!(make_boot_token(), b"boot".to_vec());
    assert_eq!(make_ready_token(), b"upredy".to_vec());
    assert_eq!(make_ok_token(), b"OK".to_vec());
    assert_eq!(
        make_read_registers_frame(),
        vec![0x01, 0x03, 0x00, 0x00, 0x00, 0x04, 0x44, 0x09]
    );
    assert_eq!(
        make_reboot_frame(),
        vec![0x01, 0x06, 0x01, 0x00, 0x16, 0x01, 0x47, 0x96]
    );
}

#[test]
fn legacy_identity_decodes_model_and_version() {
    // Offsets 3-4 hold EB 15 (model 60181, big-endian) and offset 10 holds
    // 0x14 (version 0.20 as hundredths).
    let resp = [
        0x01, 0x03, 0x08, 0xEB, 0x15, 0x00, 0x07, 0x00, 0x00, 0x00, 0x14, 0x2B, 0x22,
    ];
    let (model, version) = decode_legacy_identity(&resp);
    assert_eq!(model, 60181);
    assert_eq!(version, 20);
}

#[test]
fn legacy_response_validation() {
    let good = [
        0x01, 0x03, 0x08, 0xEB, 0x15, 0x00, 0x07, 0x00, 0x00, 0x00, 0x14, 0x2B, 0x22,
    ];
    assert!(check_legacy_response(&good));

    // Wrong header byte.
    let mut bad_header = good;
    bad_header[2] = 0x07;
    assert!(!check_legacy_response(&bad_header));

    // Corrupted checksum trailer.
    let mut bad_crc = good;
    bad_crc[11] ^= 0xFF;
    assert!(!check_legacy_response(&bad_crc));

    // Wrong length.
    assert!(!check_legacy_response(&good[..12]));
}

#[test]
fn info_identity_decodes_serial_model_version() {
    // 13-byte info reply: offsets {6,5,4,3} = 00 00 00 07 (serial 7, offset 6
    // most significant), offsets {8,7} = EB 15 (model 60181, offset 8 most
    // significant), offset 11 holds the version hundredths.
    let resp = [
        b'i', b'n', b'f', 0x07, 0x00, 0x00, 0x00, 0x15, 0xEB, 0x00, 0x00, 0x14, 0x00,
    ];
    let (model, version, serial) = decode_info_identity(&resp);
    assert_eq!(serial, 7);
    assert_eq!(model, 60181);
    assert_eq!(version, 20);
}

#[test]
fn info_response_validation() {
    let good = [
        b'i', b'n', b'f', 0x07, 0x00, 0x00, 0x00, 0x15, 0xEB, 0x00, 0x00, 0x14, 0x00,
    ];
    assert!(check_info_response(&good));
    let mut bad_prefix = good;
    bad_prefix[0] = b'x';
    assert!(!check_info_response(&bad_prefix));
    assert!(!check_info_response(&good[..12]));
    assert!(!check_info_response(&[]));
}

#[test]
fn bytes_eq_compares_exactly() {
    assert!(bytes_eq(b"OK", b"OK"));
    assert!(!bytes_eq(b"OK", b"ok"));
    assert!(!bytes_eq(b"OK", b"OKX"));
    assert!(bytes_eq(b"", b""));
}
