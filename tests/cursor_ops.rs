use smparser::{cursor_align8, cursor_skip, Cursor, SMParserError};

#[test]
fn new_cursor_starts_at_zero() {
    let buf = vec![1u8, 2, 3];
    let c = Cursor::new(&buf);
    assert_eq!(c.position(), 0);
    assert_eq!(c.get_ref(), &buf);
}

#[test]
fn seek_within_and_past_end() {
    let buf = vec![0u8; 10];
    let mut c = Cursor::new(&buf);
    assert_eq!(c.seek_to(10), Ok(10));
    assert_eq!(c.position(), 10);
    assert_eq!(c.seek_to(11), Err(SMParserError::Seek));
    assert_eq!(c.position(), 10);
}

#[test]
fn skip_forward_and_back() {
    let buf = vec![0u8; 32];
    let mut c = Cursor::new(&buf);
    assert_eq!(cursor_skip(&mut c, 12), Ok(12));
    assert_eq!(cursor_skip(&mut c, -5), Ok(7));
    assert_eq!(c.position(), 7);
}

#[test]
fn skip_round_trip_restores_position() {
    let buf = vec![0u8; 64];
    let mut c = Cursor::new(&buf);
    c.seek_to(20).unwrap();
    assert_eq!(cursor_skip(&mut c, 30), Ok(50));
    assert_eq!(cursor_skip(&mut c, -30), Ok(20));
    assert_eq!(cursor_skip(&mut c, -20), Ok(0));
    assert_eq!(cursor_skip(&mut c, 20), Ok(20));
}

#[test]
fn skip_before_start_fails_and_keeps_position() {
    let buf = vec![0u8; 16];
    let mut c = Cursor::new(&buf);
    c.seek_to(3).unwrap();
    assert_eq!(cursor_skip(&mut c, -4), Err(SMParserError::Seek));
    assert_eq!(c.position(), 3);
    assert_eq!(cursor_skip(&mut c, i64::MIN), Err(SMParserError::Seek));
    assert_eq!(c.position(), 3);
}

#[test]
fn skip_past_end_fails_and_keeps_position() {
    let buf = vec![0u8; 16];
    let mut c = Cursor::new(&buf);
    c.seek_to(10).unwrap();
    assert_eq!(cursor_skip(&mut c, 7), Err(SMParserError::Seek));
    assert_eq!(c.position(), 10);
    assert_eq!(cursor_skip(&mut c, i64::MAX), Err(SMParserError::Seek));
    assert_eq!(cursor_skip(&mut c, 6), Ok(16));
}

#[test]
fn skip_zero_is_a_no_op() {
    let buf = vec![0u8; 4];
    let mut c = Cursor::new(&buf);
    c.seek_to(4).unwrap();
    assert_eq!(cursor_skip(&mut c, 0), Ok(4));
}

#[test]
fn align8_pads_to_next_multiple() {
    let buf = vec![0u8; 64];
    for p in 0u64..=56 {
        let mut c = Cursor::new(&buf);
        c.seek_to(p).unwrap();
        let expected = p + ((8 - p % 8) % 8);
        assert_eq!(cursor_align8(&mut c), Ok(expected));
        assert_eq!(expected % 8, 0);
        assert!(expected >= p);
        assert_eq!(c.position(), expected);
    }
}

#[test]
fn align8_exact_values() {
    let buf = vec![0u8; 32];
    let mut c = Cursor::new(&buf);
    c.seek_to(13).unwrap();
    assert_eq!(cursor_align8(&mut c), Ok(16));
    c.seek_to(16).unwrap();
    assert_eq!(cursor_align8(&mut c), Ok(16));
    c.seek_to(17).unwrap();
    assert_eq!(cursor_align8(&mut c), Ok(24));
}

#[test]
fn align8_is_idempotent() {
    let buf = vec![0u8; 40];
    let mut c = Cursor::new(&buf);
    c.seek_to(5).unwrap();
    let once = cursor_align8(&mut c).unwrap();
    let twice = cursor_align8(&mut c).unwrap();
    assert_eq!(once, 8);
    assert_eq!(once, twice);
}

#[test]
fn align8_past_end_fails_and_keeps_position() {
    let buf = vec![0u8; 5];
    let mut c = Cursor::new(&buf);
    c.seek_to(5).unwrap();
    assert_eq!(cursor_align8(&mut c), Err(SMParserError::Seek));
    assert_eq!(c.position(), 5);
}

#[test]
fn error_messages() {
    assert_eq!(
        SMParserError::SectionNotFound.message(),
        "Can't find stackmap section in binary"
    );
    assert_eq!(SMParserError::Seek.message(), "Position outside the section");
    assert_eq!(
        SMParserError::HeaderMismatch.message(),
        "Unsupported architecture or inconsistent header"
    );
    assert_eq!(SMParserError::Malformed.message(), "Can't parse the binary");
}
