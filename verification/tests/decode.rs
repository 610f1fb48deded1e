use gancube::event::{face_code_in_range, Command, DecodeError, GanCubeEvent, GanCubeMove, Move};

fn decode(bytes: Vec<u8>) -> Result<GanCubeEvent, DecodeError> {
    GanCubeEvent::from_bytes(&bytes)
}

#[test]
fn move_event_example() {
    // type=2, serial=5, face=U, not prime, elapsed=1500ms.
    let buf = vec![0x20, 0x50, 0x00, 0x00, 0x00, 0x00, 0x0B, 0xB8];
    let GanCubeEvent::Move(m) = decode(buf).unwrap();
    assert_eq!(m.serial, 5);
    assert_eq!(m.face, Move::U);
    assert!(!m.prime);
    assert_eq!(m.elapsed, 1500);
    assert_eq!(m.command(), Command(Move::U, 1));
}

#[test]
fn prime_move_has_negative_command() {
    // Same record, but bit 16 set: a reversed turn.
    let buf = vec![0x20, 0x50, 0x80, 0x00, 0x00, 0x00, 0x0B, 0xB8];
    let GanCubeEvent::Move(m) = decode(buf).unwrap();
    assert!(m.prime);
    assert_eq!(m.command(), Command(Move::U, -1));
}

#[test]
fn short_move_buffer_is_invalid_length() {
    // Discriminant 2, but only 3 bytes: fewer than the 63 bits a move needs.
    assert_eq!(decode(vec![0x25, 0x00, 0x00]), Err(DecodeError::InvalidLength));
}

#[test]
fn seven_byte_move_buffer_is_invalid_length() {
    assert_eq!(
        decode(vec![0x20, 0x50, 0x00, 0x00, 0x00, 0x00, 0x0B]),
        Err(DecodeError::InvalidLength)
    );
}

#[test]
fn empty_buffer_is_invalid_length() {
    // No byte can hold the discriminant, so no record is recognizable.
    assert_eq!(decode(vec![]), Err(DecodeError::InvalidLength));
}

#[test]
fn unknown_discriminant_on_long_buffer() {
    assert_eq!(
        decode(vec![0x35, 0x00, 0x00, 0x00, 0x00, 0x00, 0x00, 0x00]),
        Err(DecodeError::UnknownEventType)
    );
}

#[test]
fn unknown_discriminant_checked_before_length() {
    // One byte suffices for the discriminant; type wins over length.
    assert_eq!(decode(vec![0xF0]), Err(DecodeError::UnknownEventType));
}

#[test]
fn decode_reads_only_the_event_bit_ranges() {
    // Agrees with the example on bits [0,17) and [47,63); everything else,
    // including the trailing length, differs.
    let a = vec![0x20, 0x50, 0x00, 0x00, 0x00, 0x00, 0x0B, 0xB8];
    let b = vec![0x20, 0x50, 0x7F, 0xFF, 0xFF, 0xFE, 0x0B, 0xB9, 0xAA, 0xBB];
    assert_eq!(decode(a), decode(b));
}

#[test]
fn all_six_face_codes() {
    let faces = [Move::U, Move::R, Move::F, Move::D, Move::L, Move::B];
    for (code, face) in faces.iter().enumerate() {
        let buf = vec![0x20, code as u8, 0x00, 0x00, 0x00, 0x00, 0x00, 0x00];
        let GanCubeEvent::Move(m) = decode(buf).unwrap();
        assert_eq!(m.face, *face);
    }
}

#[test]
fn extreme_serial_and_elapsed() {
    // serial = 255, elapsed = 65535.
    let buf = vec![0x2F, 0xF0, 0x00, 0x00, 0x00, 0x01, 0xFF, 0xFE];
    let GanCubeEvent::Move(m) = decode(buf).unwrap();
    assert_eq!(m.serial, 255);
    assert_eq!(m.elapsed, 65535);
}

#[test]
fn face_code_gate_detects_protocol_breach() {
    // Face code 7 on a move record breaks the protocol guarantee.
    let bad = vec![0x20, 0x07, 0x00, 0x00, 0x00, 0x00, 0x00, 0x00];
    assert!(!face_code_in_range(&bad));
    // A non-move record makes no face promise at all.
    let other = vec![0x37, 0x07, 0x00, 0x00, 0x00, 0x00, 0x00, 0x00];
    assert!(face_code_in_range(&other));
    // The example record keeps it.
    let good = vec![0x20, 0x50, 0x00, 0x00, 0x00, 0x00, 0x0B, 0xB8];
    assert!(face_code_in_range(&good));
}
