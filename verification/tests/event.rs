use xbpf::event::{
    native_byte_order, parse_cstr, parse_level, read_u16, read_u32, ByteOrder, CallsiteKey,
    EVENT_BASE_SIZE, EVENT_WITH_FILE_SIZE,
};
use xbpf::{Event, EventDecodeError, FromRecord, Kind, Level};

fn record(len: usize, level: u8, kind: u8, cpu: u16, msg: &[u8]) -> Vec<u8> {
    let mut buf = vec![0u8; len];
    buf[0] = level;
    buf[1] = kind;
    buf[2..4].copy_from_slice(&cpu.to_ne_bytes());
    buf[4..4 + msg.len()].copy_from_slice(msg);
    buf
}

#[test]
fn decodes_record_with_source_location() {
    let mut buf = vec![0u8; 264];
    buf[0] = 3;
    buf[1] = 0;
    buf[2..4].copy_from_slice(&2u16.to_ne_bytes());
    buf[4..9].copy_from_slice(b"hello");
    buf[132..142].copy_from_slice(b"prog.bpf.c");
    buf[260..264].copy_from_slice(&42u32.to_ne_bytes());

    let event = Event::try_from(buf.as_slice()).unwrap();
    assert_eq!(event.kind, Kind::Message(Level::Info));
    assert_eq!(event.content, "hello");
    assert_eq!(event.cpu, 2);
    assert_eq!(event.file.as_deref(), Some("prog.bpf.c"));
    assert_eq!(event.line, Some(42));
}

#[test]
fn decodes_record_without_source_location() {
    let buf = record(132, 1, 1, 7, b"span");
    let event = Event::try_from(buf.as_slice()).unwrap();
    assert_eq!(event.kind, Kind::StartSpan(Level::Error));
    assert_eq!(event.content, "span");
    assert_eq!(event.cpu, 7);
    assert_eq!(event.file, None);
    assert_eq!(event.line, None);
}

#[test]
fn record_between_the_two_sizes_has_no_source_location() {
    let buf = record(200, 5, 0, 1, b"x");
    let event = Event::try_from(buf.as_slice()).unwrap();
    assert_eq!(event.kind, Kind::Message(Level::Trace));
    assert_eq!(event.file, None);
    assert_eq!(event.line, None);
}

#[test]
fn empty_file_name_reads_as_none() {
    let mut buf = record(264, 2, 0, 0, b"m");
    buf[260..264].copy_from_slice(&9u32.to_ne_bytes());
    let event = Event::try_from(buf.as_slice()).unwrap();
    assert_eq!(event.kind, Kind::Message(Level::Warn));
    assert_eq!(event.file, None);
    assert_eq!(event.line, Some(9));
}

#[test]
fn end_span_ignores_level_byte() {
    let buf = record(132, 0, 2, 3, b"sockops");
    let event = Event::try_from(buf.as_slice()).unwrap();
    assert_eq!(event.kind, Kind::EndSpan);
    assert_eq!(event.content, "sockops");
}

#[test]
fn message_filling_the_field_is_read_whole() {
    let msg = [b'a'; 128];
    let buf = record(132, 4, 0, 0, &msg);
    let event = Event::try_from(buf.as_slice()).unwrap();
    assert_eq!(event.kind, Kind::Message(Level::Debug));
    assert_eq!(event.content, "a".repeat(128));
}

#[test]
fn message_stops_at_first_nul() {
    let buf = record(132, 3, 0, 0, b"ab\0cd");
    let event = Event::try_from(buf.as_slice()).unwrap();
    assert_eq!(event.content, "ab");
}

#[test]
fn multibyte_utf8_message() {
    let buf = record(132, 3, 0, 0, "grüß".as_bytes());
    let event = Event::try_from(buf.as_slice()).unwrap();
    assert_eq!(event.content, "grüß");
}

#[test]
fn short_buffer_is_refused() {
    let buf = vec![0u8; 131];
    assert_eq!(
        Event::try_from(buf.as_slice()),
        Err(EventDecodeError::BufferTooShort { expected: 132, actual: 131 })
    );
    let empty: Vec<u8> = Vec::new();
    assert_eq!(
        Event::try_from(empty.as_slice()),
        Err(EventDecodeError::BufferTooShort { expected: 132, actual: 0 })
    );
}

#[test]
fn invalid_level_is_refused() {
    let buf = record(132, 6, 0, 0, b"m");
    assert_eq!(Event::try_from(buf.as_slice()), Err(EventDecodeError::InvalidLevel(6)));
    let buf = record(132, 0, 1, 0, b"m");
    assert_eq!(Event::try_from(buf.as_slice()), Err(EventDecodeError::InvalidLevel(0)));
}

#[test]
fn invalid_kind_is_refused() {
    let buf = record(132, 3, 3, 0, b"m");
    assert_eq!(Event::try_from(buf.as_slice()), Err(EventDecodeError::InvalidKind(3)));
    let buf = record(132, 9, 200, 0, b"m");
    assert_eq!(Event::try_from(buf.as_slice()), Err(EventDecodeError::InvalidKind(200)));
}

#[test]
fn invalid_utf8_message_is_refused() {
    let buf = record(132, 3, 0, 0, &[0xff, 0xfe]);
    assert_eq!(Event::try_from(buf.as_slice()), Err(EventDecodeError::InvalidUtf8("msg")));
}

#[test]
fn invalid_utf8_file_is_refused() {
    let mut buf = record(264, 3, 0, 0, b"m");
    buf[132] = 0xc3;
    buf[133] = 0x28;
    assert_eq!(Event::try_from(buf.as_slice()), Err(EventDecodeError::InvalidUtf8("file")));
}

#[test]
fn message_is_checked_before_kind() {
    let buf = record(132, 9, 9, 0, &[0x80]);
    assert_eq!(Event::try_from(buf.as_slice()), Err(EventDecodeError::InvalidUtf8("msg")));
}

#[test]
fn file_is_checked_before_kind() {
    let mut buf = record(264, 9, 9, 0, b"m");
    buf[132] = 0x80;
    assert_eq!(Event::try_from(buf.as_slice()), Err(EventDecodeError::InvalidUtf8("file")));
}

#[test]
fn requiring_source_location_refuses_short_record() {
    let buf = record(132, 3, 0, 0, b"m");
    let order = native_byte_order();
    assert_eq!(
        Event::decode(buf.as_slice(), order, true),
        Err(EventDecodeError::BufferTooShort { expected: 264, actual: 132 })
    );
    let long = record(264, 3, 0, 0, b"m");
    assert_eq!(
        Event::decode(long.as_slice(), order, true),
        Event::decode(long.as_slice(), order, false)
    );
}

#[test]
fn decode_in_explicit_byte_order() {
    let mut buf = vec![0u8; 264];
    buf[0] = 3;
    buf[2] = 0x01;
    buf[3] = 0x02;
    buf[4] = b'x';
    buf[132] = b'f';
    buf[260..264].copy_from_slice(&[0x01, 0x02, 0x03, 0x04]);
    let little = Event::decode(buf.as_slice(), ByteOrder::Little, false).unwrap();
    assert_eq!(little.cpu, 0x0201);
    assert_eq!(little.line, Some(0x0403_0201));
    let big = Event::decode(buf.as_slice(), ByteOrder::Big, false).unwrap();
    assert_eq!(big.cpu, 0x0102);
    assert_eq!(big.line, Some(0x0102_0304));
    assert_eq!(little.kind, big.kind);
    assert_eq!(little.content, big.content);
    assert_eq!(little.file, big.file);
}

#[test]
fn native_order_matches_the_machine() {
    let expected = if u16::from_ne_bytes([1, 0]) == 1 { ByteOrder::Little } else { ByteOrder::Big };
    assert_eq!(native_byte_order(), expected);
}

#[test]
fn trailing_bytes_are_not_read() {
    let buf = record(264, 3, 0, 5, b"m");
    let mut longer = buf.clone();
    longer.extend_from_slice(&[0xff; 16]);
    assert_eq!(Event::try_from(buf.as_slice()), Event::try_from(longer.as_slice()));
}

#[test]
fn from_record_agrees_with_try_from() {
    let buf = record(132, 3, 0, 1, b"r");
    assert_eq!(Event::from_record(buf.as_slice()), Event::try_from(buf.as_slice()));
    let short = vec![1u8; 10];
    assert_eq!(
        Event::from_record(short.as_slice()),
        Err(EventDecodeError::BufferTooShort { expected: EVENT_BASE_SIZE, actual: 10 })
    );
    assert_eq!(EVENT_WITH_FILE_SIZE, 264);
}

#[test]
fn level_bytes_map_in_order() {
    assert_eq!(parse_level(1), Ok(Level::Error));
    assert_eq!(parse_level(2), Ok(Level::Warn));
    assert_eq!(parse_level(3), Ok(Level::Info));
    assert_eq!(parse_level(4), Ok(Level::Debug));
    assert_eq!(parse_level(5), Ok(Level::Trace));
    assert_eq!(parse_level(0), Err(EventDecodeError::InvalidLevel(0)));
    assert_eq!(parse_level(6), Err(EventDecodeError::InvalidLevel(6)));
    for a in 1u8..=5 {
        for b in (a + 1)..=5 {
            assert!(parse_level(a).unwrap() < parse_level(b).unwrap());
        }
    }
}

#[test]
fn parse_cstr_reads_up_to_nul() {
    assert_eq!(parse_cstr(b"abc\0def", "f"), Ok("abc".to_string()));
    assert_eq!(parse_cstr(b"abc", "f"), Ok("abc".to_string()));
    assert_eq!(parse_cstr(b"\0abc", "f"), Ok(String::new()));
    assert_eq!(parse_cstr(b"", "f"), Ok(String::new()));
    assert_eq!(parse_cstr(&[0xff, 0], "name"), Err(EventDecodeError::InvalidUtf8("name")));
    assert_eq!(parse_cstr(&[b'a', 0, 0xff], "name"), Ok("a".to_string()));
}

#[test]
fn reads_numbers_in_both_orders() {
    assert_eq!(read_u16(ByteOrder::Little, 0x34, 0x12), 0x1234);
    assert_eq!(read_u16(ByteOrder::Big, 0x12, 0x34), 0x1234);
    assert_eq!(read_u16(ByteOrder::Little, 0xff, 0xff), u16::MAX);
    assert_eq!(read_u32(ByteOrder::Little, 0x78, 0x56, 0x34, 0x12), 0x1234_5678);
    assert_eq!(read_u32(ByteOrder::Big, 0x12, 0x34, 0x56, 0x78), 0x1234_5678);
    assert_eq!(read_u32(ByteOrder::Big, 0xff, 0xff, 0xff, 0xff), u32::MAX);
    assert_eq!(read_u16(ByteOrder::Little, 1, 2), u16::from_le_bytes([1, 2]));
    assert_eq!(read_u32(ByteOrder::Big, 1, 2, 3, 4), u32::from_be_bytes([1, 2, 3, 4]));
}

#[test]
fn error_messages() {
    assert_eq!(
        EventDecodeError::BufferTooShort { expected: 132, actual: 7 }.to_string(),
        "event buffer too short (expected at least 132 bytes, got 7)"
    );
    assert_eq!(
        EventDecodeError::BufferTooShort { expected: 264, actual: 0 }.to_string(),
        "event buffer too short (expected at least 264 bytes, got 0)"
    );
    assert_eq!(EventDecodeError::InvalidLevel(255).to_string(), "invalid log level: 255");
    assert_eq!(EventDecodeError::InvalidLevel(0).to_string(), "invalid log level: 0");
    assert_eq!(EventDecodeError::InvalidKind(10).to_string(), "invalid event kind: 10");
    assert_eq!(EventDecodeError::InvalidUtf8("msg").to_string(), "invalid UTF-8 in msg field");
    assert_eq!(
        EventDecodeError::BufferTooShort { expected: usize::MAX, actual: 1000 }.to_string(),
        format!("event buffer too short (expected at least {} bytes, got 1000)", usize::MAX)
    );
}

fn event(kind: Kind, file: Option<&str>, line: Option<u32>) -> Event {
    Event { kind, content: "c".to_string(), cpu: 0, file: file.map(|f| f.to_string()), line }
}

#[test]
fn callsite_keys() {
    let key = CallsiteKey::try_from(event(Kind::StartSpan(Level::Info), Some("a.c"), Some(3)));
    assert_eq!(key, Ok((Some("a.c".to_string()), Some(3), true, Level::Info)));
    let key = CallsiteKey::try_from(event(Kind::Message(Level::Warn), None, None));
    assert_eq!(key, Ok((None, None, false, Level::Warn)));
    let key = CallsiteKey::try_from(event(Kind::EndSpan, Some("a.c"), Some(3)));
    assert_eq!(key, Err(()));
}
