use adb_usb_core::commands::{MessageCommand, COMMAND_CNXN};
use adb_usb_core::errors::AdbError;
use adb_usb_core::message::{compute_checksum, Message, MessageHeader};

#[test]
fn header_round_trip() {
    let payload = b"device::emulator\0".to_vec();
    let msg = Message::new(MessageCommand::Cnxn, 0x0100_0000, 0x40000, payload.clone());
    let bytes = msg.header.encode();
    assert_eq!(bytes.len(), 24);
    let decoded = MessageHeader::decode(&bytes).unwrap();
    assert_eq!(decoded, msg.header);
    assert_eq!(decoded.command, COMMAND_CNXN);
    assert_eq!(decoded.arg0, 0x0100_0000);
    assert_eq!(decoded.arg1, 0x40000);
    assert_eq!(decoded.data_length as usize, payload.len());
}

#[test]
fn message_round_trip_with_payload() {
    let payload = vec![0u8, 1, 2, 3, 254, 255];
    let msg = Message::new(MessageCommand::Wrte, 7, 9, payload.clone());
    let mut wire = msg.header.encode();
    wire.extend_from_slice(&msg.payload);
    let header = MessageHeader::decode(&wire).unwrap();
    let body = wire[24..24 + header.data_length as usize].to_vec();
    let rebuilt = Message::from_wire(header, body).unwrap();
    assert_eq!(rebuilt.header, msg.header);
    assert_eq!(rebuilt.payload, payload);
}

#[test]
fn checksum_matches_byte_sum() {
    let payload: Vec<u8> = vec![1, 2, 3, 250, 255, 0, 42];
    let expected: u32 = payload.iter().map(|b| u32::from(*b)).sum::<u32>();
    assert_eq!(compute_checksum(&payload), expected);
    assert_eq!(compute_checksum(&[]), 0);
    let ones = vec![0xffu8; 1000];
    assert_eq!(compute_checksum(&ones), 255 * 1000);
}

#[test]
fn magic_is_not_of_command() {
    for command in [
        MessageCommand::Cnxn,
        MessageCommand::Auth,
        MessageCommand::Open,
        MessageCommand::Okay,
        MessageCommand::Clse,
        MessageCommand::Wrte,
        MessageCommand::Sync,
    ] {
        let msg = Message::new(command, 1, 2, vec![5, 6]);
        assert_eq!(msg.header.magic, !msg.header.command);
    }
}

#[test]
fn zero_length_payload_has_zero_checksum() {
    let msg = Message::new(MessageCommand::Okay, 1, 2, Vec::new());
    assert_eq!(msg.header.data_length, 0);
    assert_eq!(msg.header.data_crc32, 0);
    let rebuilt = Message::from_wire(msg.header, Vec::new()).unwrap();
    assert!(rebuilt.check_integrity());
}

#[test]
fn zero_length_skips_integrity_check() {
    let mut header = Message::new(MessageCommand::Okay, 0, 0, Vec::new()).header;
    header.data_crc32 = 0xdead_beef;
    let rebuilt = Message::from_wire(header, Vec::new()).unwrap();
    assert_eq!(rebuilt.header.data_crc32, 0xdead_beef);
}

#[test]
fn wrong_magic_rejected() {
    let msg = Message::new(MessageCommand::Cnxn, 0, 0, vec![1]);
    let mut bytes = msg.header.encode();
    bytes[20] ^= 0x01;
    assert_eq!(MessageHeader::decode(&bytes), Err(AdbError::InvalidHeader));
}

#[test]
fn truncated_header_rejected() {
    let msg = Message::new(MessageCommand::Cnxn, 0, 0, Vec::new());
    let bytes = msg.header.encode();
    assert_eq!(MessageHeader::decode(&bytes[..23]), Err(AdbError::InvalidHeader));
    assert_eq!(MessageHeader::decode(&[]), Err(AdbError::InvalidHeader));
}

#[test]
fn integrity_mismatch_reported() {
    let msg = Message::new(MessageCommand::Wrte, 0, 0, vec![10, 20, 30]);
    let mut header = msg.header;
    header.data_crc32 = 61;
    let r = Message::from_wire(header, vec![10, 20, 30]);
    assert_eq!(r.unwrap_err(), AdbError::InvalidIntegrity { expected: 60, actual: 61 });
}

#[test]
fn corrupted_payload_fails_integrity() {
    let payload = b"device::test\0".to_vec();
    let msg = Message::new(MessageCommand::Cnxn, 0x0100_0000, 0x100000, payload);
    let mut wire = msg.header.encode();
    wire.extend_from_slice(&msg.payload);
    // Corrupt one payload byte.
    wire[30] = !wire[30];
    let header = MessageHeader::decode(&wire).unwrap();
    let body = wire[24..].to_vec();
    match Message::from_wire(header, body) {
        Err(AdbError::InvalidIntegrity { expected, actual }) => {
            assert_ne!(expected, actual);
        }
        other => panic!("expected an integrity failure, got {:?}", other),
    }
}

#[test]
fn unknown_command_decodes() {
    let header = MessageHeader {
        command: 0x1234_5678,
        arg0: 0,
        arg1: 0,
        data_length: 0,
        data_crc32: 0,
        magic: !0x1234_5678,
    };
    let bytes = header.encode();
    assert_eq!(MessageHeader::decode(&bytes).unwrap(), header);
    assert_eq!(MessageCommand::from_code(0x1234_5678), None);
    assert_eq!(MessageCommand::from_code(COMMAND_CNXN), Some(MessageCommand::Cnxn));
}
