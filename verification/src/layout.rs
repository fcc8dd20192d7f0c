//! How the eBPF side lays an event out in a record, and what decoding such a
//! record gives back.
use vstd::prelude::*;
use vstd::utf8::*;
use crate::event::{
    BPF_TRACING_STR_LEN, EVENT_BASE_SIZE, EVENT_WITH_FILE_SIZE, ByteOrder, EventDecodeError, machine_order,
    EventModel, Kind, field_text, nul_position, spec_decode, spec_u16, spec_u32, spec_file,
    spec_parse_cstr, msg_field, file_field, spec_kind,
};

verus! {

broadcast use {encode_utf8_valid_utf8, encode_utf8_decode_utf8};

/// The level and kind bytes written for a kind. A span's end carries no
/// level; its level byte is written as 0.
pub open spec fn kind_bytes(kind: Kind) -> (u8, u8) {
    match kind {
        Kind::Message(l) => ((l.verbosity() + 1) as u8, 0),
        Kind::StartSpan(l) => ((l.verbosity() + 1) as u8, 1),
        Kind::EndSpan => (0, 2),
    }
}

/// The two bytes of a number in the given order.
pub open spec fn u16_bytes(order: ByteOrder, v: u16) -> Seq<u8> {
    match order {
        ByteOrder::Little => seq![(v % 256) as u8, (v / 256) as u8],
        ByteOrder::Big => seq![(v / 256) as u8, (v % 256) as u8],
    }
}

/// The four bytes of a number in the given order.
pub open spec fn u32_bytes(order: ByteOrder, v: u32) -> Seq<u8> {
    let b0 = (v % 256) as u8;
    let b1 = ((v / 256) % 256) as u8;
    let b2 = ((v / 65536) % 256) as u8;
    let b3 = (v / 16777216) as u8;
    match order {
        ByteOrder::Little => seq![b0, b1, b2, b3],
        ByteOrder::Big => seq![b3, b2, b1, b0],
    }
}

/// A string field as written: the UTF-8 bytes of the string, padded with NUL
/// bytes to the length of the field.
pub open spec fn encoded_field(chars: Seq<char>) -> Seq<u8> {
    encode_utf8(chars) + Seq::new(
        (BPF_TRACING_STR_LEN - encode_utf8(chars).len()) as nat,
        |i: int| 0u8,
    )
}

/// A string that a field can carry: it fits, and holds no NUL character,
/// which would end it early.
pub open spec fn fits_field(chars: Seq<char>) -> bool {
    &&& encode_utf8(chars).len() <= BPF_TRACING_STR_LEN
    &&& forall|i: int| 0 <= i < chars.len() ==> chars[i] != '\0'
}

/// The record the eBPF side writes for an event: with a source location when
/// the event carries a line, and without one otherwise.
pub open spec fn spec_encode(e: EventModel, order: ByteOrder) -> Seq<u8> {
    let base = seq![kind_bytes(e.kind).0, kind_bytes(e.kind).1] + u16_bytes(order, e.cpu as u16)
        + encoded_field(e.content);
    match e.line {
        None => base,
        Some(line) => base + encoded_field(
            match e.file {
                Some(f) => f,
                None => Seq::empty(),
            },
        ) + u32_bytes(order, line),
    }
}

/// An event that a record can carry: its strings fit their fields, its CPU
/// fits two bytes, and a file name comes with a line and is not empty (an
/// empty one reads back as no file).
pub open spec fn is_encodable(e: EventModel) -> bool {
    &&& fits_field(e.content)
    &&& e.cpu <= u16::MAX
    &&& e.file matches Some(f) ==> f.len() > 0 && fits_field(f) && e.line is Some
}

proof fn lemma_scalar_bytes_nonzero(v: u32)
    requires
        is_scalar(v),
        v != 0,
    ensures
        forall|i: int| 0 <= i < encode_scalar(v).len() ==> encode_scalar(v)[i] != 0,
{
    if has_width_1_encoding(v) {
        assert(leading_byte_width_1(v) != 0) by (bit_vector)
            requires
                0 < v <= 0x7F,
        ;
    } else {
        assert(leading_byte_width_2(v) != 0) by (bit_vector);
        assert(leading_byte_width_3(v) != 0) by (bit_vector);
        assert(leading_byte_width_4(v) != 0) by (bit_vector);
        assert(last_continuation_byte(v) != 0) by (bit_vector);
        assert(second_last_continuation_byte(v) != 0) by (bit_vector);
        assert(third_last_continuation_byte(v) != 0) by (bit_vector);
    }
}

proof fn lemma_encode_nonzero(chars: Seq<char>)
    requires
        forall|i: int| 0 <= i < chars.len() ==> chars[i] != '\0',
    ensures
        forall|i: int| 0 <= i < encode_utf8(chars).len() ==> encode_utf8(chars)[i] != 0,
    decreases chars.len(),
{
    if chars.len() > 0 {
        let c = chars[0];
        char_is_scalar(c);
        assert(c as u32 != 0) by {
            char_u32_cast(c, c as u32);
        }
        lemma_scalar_bytes_nonzero(c as u32);
        lemma_encode_nonzero(chars.drop_first());
        let head = encode_scalar(c as u32);
        let tail = encode_utf8(chars.drop_first());
        assert forall|i: int| 0 <= i < encode_utf8(chars).len() implies encode_utf8(chars)[i]
            != 0 by {
            if i >= head.len() {
                assert(encode_utf8(chars)[i] == tail[i - head.len()]);
            }
        }
    }
}

proof fn lemma_nul_position_of_padded(bytes: Seq<u8>, pad: Seq<u8>)
    requires
        forall|i: int| 0 <= i < bytes.len() ==> bytes[i] != 0,
        pad.len() == 0 || pad[0] == 0,
    ensures
        nul_position(bytes + pad) == bytes.len(),
    decreases bytes.len(),
{
    if bytes.len() > 0 {
        assert((bytes + pad).drop_first() =~= bytes.drop_first() + pad);
        lemma_nul_position_of_padded(bytes.drop_first(), pad);
    } else {
        assert(bytes + pad =~= pad);
    }
}

/// A field written from a string that fits reads back as that string.
pub proof fn lemma_field_roundtrip(chars: Seq<char>, name: &'static str)
    requires
        fits_field(chars),
    ensures
        encoded_field(chars).len() == BPF_TRACING_STR_LEN,
        spec_parse_cstr(encoded_field(chars), name) == Ok::<Seq<char>, EventDecodeError>(chars),
{
    let bytes = encode_utf8(chars);
    let pad = Seq::new((BPF_TRACING_STR_LEN - bytes.len()) as nat, |i: int| 0u8);
    lemma_encode_nonzero(chars);
    lemma_nul_position_of_padded(bytes, pad);
    assert(field_text(encoded_field(chars)) =~= bytes);
}

/// Two bytes written from a number read back as that number.
pub proof fn lemma_u16_roundtrip(order: ByteOrder, v: u16)
    ensures
        u16_bytes(order, v).len() == 2,
        spec_u16(order, u16_bytes(order, v)[0], u16_bytes(order, v)[1]) == v,
{
}

/// Four bytes written from a number read back as that number.
pub proof fn lemma_u32_roundtrip(order: ByteOrder, v: u32)
    ensures
        u32_bytes(order, v).len() == 4,
        spec_u32(
            order,
            u32_bytes(order, v)[0],
            u32_bytes(order, v)[1],
            u32_bytes(order, v)[2],
            u32_bytes(order, v)[3],
        ) == v,
{
}

/// A record laid out as the eBPF side writes it decodes to the event it was
/// written from, in the byte order it was written in, whether or not the
/// reader requires a source location that the record carries.
pub proof fn lemma_decode_encode(e: EventModel, order: ByteOrder)
    requires
        is_encodable(e),
    ensures
        spec_decode(spec_encode(e, order), order, false) == Ok::<EventModel, EventDecodeError>(e),
        e.line is Some ==> spec_decode(spec_encode(e, order), order, true) == Ok::<
            EventModel,
            EventDecodeError,
        >(e),
{
    let buf = spec_encode(e, order);
    let head = seq![kind_bytes(e.kind).0, kind_bytes(e.kind).1] + u16_bytes(order, e.cpu as u16);
    lemma_field_roundtrip(e.content, "msg");
    lemma_u16_roundtrip(order, e.cpu as u16);
    let base = head + encoded_field(e.content);
    assert(msg_field(buf) =~= encoded_field(e.content));
    assert(buf[0] == kind_bytes(e.kind).0 && buf[1] == kind_bytes(e.kind).1);
    assert(buf[2] == u16_bytes(order, e.cpu as u16)[0]);
    assert(buf[3] == u16_bytes(order, e.cpu as u16)[1]);
    assert(spec_kind(buf[1], buf[0]) == Ok::<Kind, EventDecodeError>(e.kind));
    match e.line {
        None => {
            assert(buf.len() == EVENT_BASE_SIZE);
        },
        Some(line) => {
            let f = match e.file {
                Some(f) => f,
                None => Seq::empty(),
            };
            assert(fits_field(f));
            lemma_field_roundtrip(f, "file");
            lemma_u32_roundtrip(order, line);
            let lb = u32_bytes(order, line);
            assert(file_field(buf) =~= encoded_field(f));
            assert(buf[260] == lb[0] && buf[261] == lb[1] && buf[262] == lb[2] && buf[263] == lb[3]);
            assert(spec_file(f) == e.file);
        },
    }
}

/// A reader that requires source locations and one that does not agree on
/// every record long enough to carry one. A shorter record whose message reads
/// is refused by the first and read without file and line by the second: a
/// program built with source locations can be read by a reader built without,
/// but not the other way around.
pub proof fn lemma_source_location_compat(buf: Seq<u8>, order: ByteOrder)
    ensures
        buf.len() >= EVENT_WITH_FILE_SIZE ==> spec_decode(buf, order, true) == spec_decode(
            buf,
            order,
            false,
        ),
        EVENT_BASE_SIZE <= buf.len() < EVENT_WITH_FILE_SIZE && spec_parse_cstr(msg_field(buf), "msg") is Ok
            ==> spec_decode(buf, order, true) == Err::<EventModel, EventDecodeError>(
            EventDecodeError::BufferTooShort {
                expected: EVENT_WITH_FILE_SIZE,
                actual: buf.len() as usize,
            },
        ),
        spec_decode(buf, order, false) matches Ok(e) ==> (e.line is Some <==> buf.len()
            >= EVENT_WITH_FILE_SIZE),
{
}

/// The bytes that follow a record long enough to carry a source location are
/// never read.
pub proof fn lemma_trailing_bytes_ignored(
    buf: Seq<u8>,
    extra: Seq<u8>,
    order: ByteOrder,
    require_file: bool,
)
    requires
        buf.len() >= EVENT_WITH_FILE_SIZE,
    ensures
        spec_decode(buf + extra, order, require_file) == spec_decode(buf, order, require_file),
{
    let long = buf + extra;
    assert(msg_field(long) =~= msg_field(buf));
    assert(file_field(long) =~= file_field(buf));
    assert(long[0] == buf[0] && long[1] == buf[1] && long[2] == buf[2] && long[3] == buf[3]);
    assert(long[260] == buf[260] && long[261] == buf[261] && long[262] == buf[262] && long[263]
        == buf[263]);
}


/// A record that this machine's eBPF side writes, in the machine's byte order,
/// decodes to the event it was written from, as `Event::try_from` and
/// `FromRecord::from_record` read it.
pub proof fn lemma_machine_record_roundtrip(e: EventModel)
    requires
        is_encodable(e),
    ensures
        spec_decode(spec_encode(e, machine_order()), machine_order(), false) == Ok::<
            EventModel,
            EventDecodeError,
        >(e),
{
    lemma_decode_encode(e, machine_order());
}

} // verus!
