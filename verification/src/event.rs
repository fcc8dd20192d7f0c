//! The events an eBPF program emits, and how they are decoded.
//!
//! The eBPF side writes one record per event into a ring buffer, laid out in
//! native endianness:
//!
//! | offset | size  | field                                      |
//! |--------|-------|--------------------------------------------|
//! | 0      | 1     | level, see [`Level`]                       |
//! | 1      | 1     | kind, see [`Kind`]                         |
//! | 2      | 2     | id of the CPU that emitted the event       |
//! | 4      | 128   | NUL-padded message                         |
//! | 132    | 128   | NUL-padded file name, source location only |
//! | 260    | 4     | line number, source location only          |
//!
//! The last two fields are present only if the eBPF program was compiled with
//! source locations. They are decoded whenever the record is long enough to
//! hold them.
use vstd::prelude::*;
use vstd::utf8::*;
use vstd::string::*;

verus! {

/// The verbosity of a message or span, from least to most verbose.
///
/// The variants are declared in that order, so the derived order agrees with
/// the one of `tracing`: a more verbose level is greater.
#[derive(Debug, Clone, Copy, PartialEq, Eq, Structural, PartialOrd, Ord, Hash)]
pub enum Level {
    Error,
    Warn,
    Info,
    Debug,
    Trace,
}

impl Level {
    /// The rank of the level in the order of verbosity, `Error` being 0.
    pub open spec fn verbosity(self) -> nat {
        match self {
            Level::Error => 0,
            Level::Warn => 1,
            Level::Info => 2,
            Level::Debug => 3,
            Level::Trace => 4,
        }
    }
}

/// The level that a level byte of a record stands for: the
/// `BPF_TRACING_LEVEL_*` constants number the levels from 1 (error) to 5
/// (trace).
pub open spec fn spec_level(raw: u8) -> Option<Level> {
    match raw {
        1 => Some(Level::Error),
        2 => Some(Level::Warn),
        3 => Some(Level::Info),
        4 => Some(Level::Debug),
        5 => Some(Level::Trace),
        _ => None,
    }
}

/// Converts the level byte of a record into a [`Level`].
pub fn parse_level(level: u8) -> (r: Result<Level, EventDecodeError>)
    ensures
        r matches Ok(l) ==> spec_level(level) == Some(l),
        r matches Err(e) ==> spec_level(level) is None && e == EventDecodeError::InvalidLevel(level),
        r is Ok <==> spec_level(level) is Some,
{
    match level {
        1 => Ok(Level::Error),
        2 => Ok(Level::Warn),
        3 => Ok(Level::Info),
        4 => Ok(Level::Debug),
        5 => Ok(Level::Trace),
        other => Err(EventDecodeError::InvalidLevel(other)),
    }
}

/// A level byte is accepted exactly when it lies in `1..=5`, and the level it
/// stands for ranks one below the byte: the byte order is the order of
/// verbosity.
pub proof fn lemma_level_byte_rank(raw: u8)
    ensures
        spec_level(raw) is Some <==> 1 <= raw <= 5,
        spec_level(raw) matches Some(l) ==> l.verbosity() + 1 == raw,
{
}

/// Decoding keeps the order of the level bytes: of two accepted bytes, the
/// greater one stands for the more verbose level.
pub proof fn lemma_level_order(a: u8, b: u8)
    requires
        spec_level(a) is Some,
        spec_level(b) is Some,
        a < b,
    ensures
        spec_level(a).unwrap().verbosity() < spec_level(b).unwrap().verbosity(),
{
}

/// Distinct accepted level bytes decode to distinct levels, and every level is
/// the decoding of some byte.
pub proof fn lemma_level_bijective(a: u8, b: u8, l: Level)
    requires
        spec_level(a) is Some,
        spec_level(b) is Some,
        a != b,
    ensures
        spec_level(a) != spec_level(b),
        spec_level((l.verbosity() + 1) as u8) == Some(l),
{
}

/// The length of the strings a record carries, mirroring `BPF_TRACING_STR_LEN`.
pub const BPF_TRACING_STR_LEN: usize = 128;

/// The size of a record without a source location.
pub const EVENT_BASE_SIZE: usize = 4 + BPF_TRACING_STR_LEN;

/// The size of a record that carries the file and line it was emitted from.
pub const EVENT_WITH_FILE_SIZE: usize = EVENT_BASE_SIZE + BPF_TRACING_STR_LEN + 4;

/// The position of the first NUL byte of a field, or its length if it holds
/// none.
pub open spec fn nul_position(field: Seq<u8>) -> nat
    decreases field.len(),
{
    if field.len() == 0 || field[0] == 0 {
        0
    } else {
        1 + nul_position(field.drop_first())
    }
}

/// The bytes of a NUL-padded field that hold its string: those before the
/// first NUL byte, or all of them if the string fills the field.
pub open spec fn field_text(field: Seq<u8>) -> Seq<u8> {
    field.take(nul_position(field) as int)
}

/// What reading a NUL-padded string field named `name` gives.
pub open spec fn spec_parse_cstr(field: Seq<u8>, name: &'static str) -> Result<
    Seq<char>,
    EventDecodeError,
> {
    if valid_utf8(field_text(field)) {
        Ok(decode_utf8(field_text(field)))
    } else {
        Err(EventDecodeError::InvalidUtf8(name))
    }
}

/// Calls `std::str::from_utf8`, whose documentation states that it succeeds
/// exactly on valid UTF-8 and then returns the string those bytes encode.
#[verifier::external_body]
fn str_from_utf8(bytes: &[u8]) -> (r: Option<&str>)
    ensures
        r is Some <==> valid_utf8(bytes@),
        r matches Some(s) ==> s.spec_bytes() == bytes@,
{
    std::str::from_utf8(bytes).ok()
}

/// The text of a field runs up to its first NUL byte: it holds no NUL byte,
/// and it is followed by one unless it fills the whole field.
pub proof fn lemma_field_text_ends_at_first_nul(field: Seq<u8>)
    ensures
        nul_position(field) <= field.len(),
        nul_position(field) < field.len() ==> field[nul_position(field) as int] == 0,
        forall|i: int| 0 <= i < field_text(field).len() ==> field_text(field)[i] != 0,
        field_text(field) == field.take(nul_position(field) as int),
    decreases field.len(),
{
    if field.len() != 0 && field[0] != 0 {
        let rest = field.drop_first();
        lemma_field_text_ends_at_first_nul(rest);
        assert forall|i: int| 0 <= i < field_text(field).len() implies field_text(field)[i] != 0 by {
            if i > 0 {
                assert(field[i] == rest[i - 1]);
                assert(field_text(rest)[i - 1] == rest[i - 1]);
            }
        }
    }
}
/// Reads a NUL-padded string field, naming it `field` in the error.
///
/// The eBPF side writes into a fixed size array, so the string runs up to the
/// first NUL byte, or to the end of the field if it filled it completely.
pub fn parse_cstr(bytes: &[u8], field: &'static str) -> (r: Result<String, EventDecodeError>)
    ensures
        r matches Ok(s) ==> spec_parse_cstr(bytes@, field) == Ok::<Seq<char>, EventDecodeError>(s@),
        r matches Err(e) ==> spec_parse_cstr(bytes@, field) == Err::<Seq<char>, EventDecodeError>(e),
{
    let mut end: usize = 0;
    assert(bytes@.skip(0) =~= bytes@);
    while end < bytes.len() && bytes[end] != 0
        invariant
            end <= bytes@.len(),
            nul_position(bytes@) == end + nul_position(bytes@.skip(end as int)),
        decreases bytes@.len() - end,
    {
        assert(bytes@.skip(end as int).drop_first() =~= bytes@.skip(end + 1));
        end = end + 1;
    }
    let text = &bytes[0..end];
    assert(text@ =~= field_text(bytes@));
    match str_from_utf8(text) {
        Some(s) => {
            proof {
                encode_utf8_decode_utf8(s@);
            }
            Ok(s.to_owned())
        },
        None => Err(EventDecodeError::InvalidUtf8(field)),
    }
}

/// The reason a record could not be decoded into an [`Event`].
///
/// Every variant means the record does not match the layout described in the
/// module documentation, which usually points at an eBPF program built
/// against a different header than the user space program.
#[derive(Debug, Clone, PartialEq, Eq)]
pub enum EventDecodeError {
    /// The record is shorter than the layout requires.
    BufferTooShort {
        /// The number of bytes the layout requires.
        expected: usize,
        /// The number of bytes the record actually holds.
        actual: usize,
    },
    /// The level byte is not one of the five levels of [`Level`].
    InvalidLevel(u8),
    /// The kind byte is not one of the three kinds of [`Kind`].
    InvalidKind(u8),
    /// The named string field is not valid UTF-8.
    InvalidUtf8(&'static str),
}

/// What an [`Event`] does to the trace it belongs to.
///
/// The eBPF side picks the kind through the macro that emits the event:
/// `bpf_info` and friends emit a [`Kind::Message`], `bpf_start_info_span` and
/// friends a [`Kind::StartSpan`], and `bpf_end_span` a [`Kind::EndSpan`].
#[derive(Debug, Clone, Copy, PartialEq, Eq, Structural, Hash)]
pub enum Kind {
    /// A single event at the given level.
    Message(Level),
    /// The start of a span at the given level. Everything emitted on the same
    /// CPU until the matching [`Kind::EndSpan`] is nested inside it.
    StartSpan(Level),
    /// The end of the innermost span on the CPU whose name matches the content
    /// of the event. Ending a span that was never started is ignored.
    EndSpan,
}

/// A single decoded record of the ring buffer.
#[derive(Debug, Clone, PartialEq, Eq, Hash)]
pub struct Event {
    /// Whether the event is a message, or opens or closes a span.
    pub kind: Kind,
    /// The formatted message, or the name of the span for [`Kind::StartSpan`]
    /// and [`Kind::EndSpan`].
    pub content: String,
    /// The id of the CPU the event was emitted on.
    pub cpu: usize,
    /// The eBPF source file the event was emitted from, if the program was
    /// compiled with source locations and the name is not empty.
    pub file: Option<String>,
    /// The line the event was emitted from, if the program was compiled with
    /// source locations.
    pub line: Option<u32>,
}

/// The mathematical value of an [`Event`]: its strings as sequences of
/// characters.
#[verifier::ext_equal]
pub struct EventModel {
    pub kind: Kind,
    pub content: Seq<char>,
    pub cpu: usize,
    pub file: Option<Seq<char>>,
    pub line: Option<u32>,
}

/// The characters of an optional string.
pub open spec fn opt_text(s: Option<String>) -> Option<Seq<char>> {
    match s {
        Some(s) => Some(s@),
        None => None,
    }
}

impl View for Event {
    type V = EventModel;

    open spec fn view(&self) -> EventModel {
        EventModel {
            kind: self.kind,
            content: self.content@,
            cpu: self.cpu,
            file: opt_text(self.file),
            line: self.line,
        }
    }
}

/// The result of a decoding, with the event taken by its view.
pub open spec fn decoded(r: Result<Event, EventDecodeError>) -> Result<EventModel, EventDecodeError> {
    match r {
        Ok(e) => Ok(e@),
        Err(e) => Err(e),
    }
}

/// The order in which the bytes of a multi-byte number are laid out.
#[derive(Debug, Clone, Copy, PartialEq, Eq, Structural)]
pub enum ByteOrder {
    /// Least significant byte first.
    Little,
    /// Most significant byte first.
    Big,
}

/// The number that two bytes stand for in the given order.
pub open spec fn spec_u16(order: ByteOrder, b0: u8, b1: u8) -> u16 {
    match order {
        ByteOrder::Little => (b0 + 256 * b1) as u16,
        ByteOrder::Big => (256 * b0 + b1) as u16,
    }
}

/// The number that four bytes stand for in the given order.
pub open spec fn spec_u32(order: ByteOrder, b0: u8, b1: u8, b2: u8, b3: u8) -> u32 {
    match order {
        ByteOrder::Little => (b0 + 256 * b1 + 65536 * b2 + 16777216 * b3) as u32,
        ByteOrder::Big => (16777216 * b0 + 65536 * b1 + 256 * b2 + b3) as u32,
    }
}

/// Reads a number of two bytes in the given order.
pub fn read_u16(order: ByteOrder, b0: u8, b1: u8) -> (r: u16)
    ensures
        r == spec_u16(order, b0, b1),
{
    match order {
        ByteOrder::Little => b0 as u16 + 256 * (b1 as u16),
        ByteOrder::Big => 256 * (b0 as u16) + b1 as u16,
    }
}

/// Reads a number of four bytes in the given order.
pub fn read_u32(order: ByteOrder, b0: u8, b1: u8, b2: u8, b3: u8) -> (r: u32)
    ensures
        r == spec_u32(order, b0, b1, b2, b3),
{
    match order {
        ByteOrder::Little => b0 as u32 + 256 * (b1 as u32) + 65536 * (b2 as u32) + 16777216 * (
        b3 as u32),
        ByteOrder::Big => 16777216 * (b0 as u32) + 65536 * (b1 as u32) + 256 * (b2 as u32) + b3 as u32,
    }
}

/// The byte order of the machine this runs on, as vstd abstracts the
/// endianness of the executing hardware.
pub open spec fn machine_order() -> ByteOrder {
    match vstd::endian::endianness() {
        vstd::endian::Endian::Little => ByteOrder::Little,
        vstd::endian::Endian::Big => ByteOrder::Big,
    }
}

/// Calls `u16::from_ne_bytes`, which reads the bytes in the byte order of the
/// machine, the one that vstd's `endianness` stands for.
#[verifier::external_body]
fn u16_from_ne_bytes(bytes: [u8; 2]) -> (r: u16)
    ensures
        r == spec_u16(machine_order(), bytes[0], bytes[1]),
{
    u16::from_ne_bytes(bytes)
}

/// The byte order of the machine this runs on, which is the order the eBPF
/// side writes its records in.
pub fn native_byte_order() -> (order: ByteOrder)
    ensures
        order == machine_order(),
{
    if u16_from_ne_bytes([1, 0]) == 1 {
        ByteOrder::Little
    } else {
        ByteOrder::Big
    }
}

/// The message field of a record.
pub open spec fn msg_field(buf: Seq<u8>) -> Seq<u8> {
    buf.subrange(4, EVENT_BASE_SIZE as int)
}

/// The file field of a record that carries a source location.
pub open spec fn file_field(buf: Seq<u8>) -> Seq<u8> {
    buf.subrange(EVENT_BASE_SIZE as int, EVENT_BASE_SIZE + BPF_TRACING_STR_LEN)
}

/// What the kind and level bytes of a record stand for. The level byte is
/// read only for the kinds that carry a level.
pub open spec fn spec_kind(kind_raw: u8, level_raw: u8) -> Result<Kind, EventDecodeError> {
    match kind_raw {
        0 => match spec_level(level_raw) {
            Some(l) => Ok(Kind::Message(l)),
            None => Err(EventDecodeError::InvalidLevel(level_raw)),
        },
        1 => match spec_level(level_raw) {
            Some(l) => Ok(Kind::StartSpan(l)),
            None => Err(EventDecodeError::InvalidLevel(level_raw)),
        },
        2 => Ok(Kind::EndSpan),
        _ => Err(EventDecodeError::InvalidKind(kind_raw)),
    }
}

/// The file name of a record that carries a source location, `None` when the
/// name is empty.
pub open spec fn spec_file(chars: Seq<char>) -> Option<Seq<char>> {
    if chars.len() == 0 {
        None
    } else {
        Some(chars)
    }
}

/// What decoding a record gives, for records laid out in `order`.
///
/// The checks come in this order: the length of a record without a source
/// location, the message, the length of a record with one when it is
/// required, the file name when the record is long enough to hold one, and
/// last the kind and level bytes.
pub open spec fn spec_decode(buf: Seq<u8>, order: ByteOrder, require_file: bool) -> Result<
    EventModel,
    EventDecodeError,
> {
    let has_file = buf.len() >= EVENT_WITH_FILE_SIZE;
    if buf.len() < EVENT_BASE_SIZE {
        Err(EventDecodeError::BufferTooShort { expected: EVENT_BASE_SIZE, actual: buf.len() as usize })
    } else if spec_parse_cstr(msg_field(buf), "msg") is Err {
        Err(EventDecodeError::InvalidUtf8("msg"))
    } else if require_file && !has_file {
        Err(
            EventDecodeError::BufferTooShort {
                expected: EVENT_WITH_FILE_SIZE,
                actual: buf.len() as usize,
            },
        )
    } else if has_file && spec_parse_cstr(file_field(buf), "file") is Err {
        Err(EventDecodeError::InvalidUtf8("file"))
    } else {
        match spec_kind(buf[1], buf[0]) {
            Err(e) => Err(e),
            Ok(kind) => Ok(
                EventModel {
                    kind,
                    content: spec_parse_cstr(msg_field(buf), "msg")->Ok_0,
                    cpu: spec_u16(order, buf[2], buf[3]) as usize,
                    file: if has_file {
                        spec_file(spec_parse_cstr(file_field(buf), "file")->Ok_0)
                    } else {
                        None
                    },
                    line: if has_file {
                        Some(spec_u32(order, buf[260], buf[261], buf[262], buf[263]))
                    } else {
                        None
                    },
                },
            ),
        }
    }
}

impl Event {
    /// Decodes one record whose numbers are laid out in `order`.
    ///
    /// With `require_file`, a record too short to carry a source location is
    /// refused, as a program built with source locations does.
    pub fn decode(buf: &[u8], order: ByteOrder, require_file: bool) -> (r: Result<
        Event,
        EventDecodeError,
    >)
        ensures
            decoded(r) == spec_decode(buf@, order, require_file),
    {
        if buf.len() < EVENT_BASE_SIZE {
            return Err(EventDecodeError::BufferTooShort { expected: EVENT_BASE_SIZE, actual: buf.len() });
        }
        let level_raw = buf[0];
        let kind_raw = buf[1];
        let cpu = read_u16(order, buf[2], buf[3]) as usize;

        let msg_start: usize = 4;
        let msg_end: usize = msg_start + BPF_TRACING_STR_LEN;
        let msg = match parse_cstr(&buf[msg_start..msg_end], "msg") {
            Ok(s) => s,
            Err(e) => return Err(e),
        };

        let has_file = buf.len() >= EVENT_WITH_FILE_SIZE;
        if require_file && !has_file {
            return Err(
                EventDecodeError::BufferTooShort { expected: EVENT_WITH_FILE_SIZE, actual: buf.len() },
            );
        }

        let (file, line) = if has_file {
            let file_start = msg_end;
            let file_end = file_start + BPF_TRACING_STR_LEN;
            let file = match parse_cstr(&buf[file_start..file_end], "file") {
                Ok(s) => s,
                Err(e) => return Err(e),
            };
            let line_start = file_end;
            let line = read_u32(
                order,
                buf[line_start],
                buf[line_start + 1],
                buf[line_start + 2],
                buf[line_start + 3],
            );
            let file = if file.as_str().is_empty() {
                None
            } else {
                Some(file)
            };
            (file, Some(line))
        } else {
            (None, None)
        };

        let kind = match kind_raw {
            0 => match parse_level(level_raw) {
                Ok(l) => Kind::Message(l),
                Err(e) => return Err(e),
            },
            1 => match parse_level(level_raw) {
                Ok(l) => Kind::StartSpan(l),
                Err(e) => return Err(e),
            },
            2 => Kind::EndSpan,
            other => return Err(EventDecodeError::InvalidKind(other)),
        };

        Ok(Event { kind, content: msg, cpu, file, line })
    }
}

/// Decoding a record fails the same way whatever the byte order, and when it
/// succeeds the two readings differ at most in the CPU and the line, which
/// each read their bytes in the other order.
pub proof fn lemma_decode_order_independent(buf: Seq<u8>, require_file: bool)
    ensures
        spec_decode(buf, ByteOrder::Little, require_file) is Ok <==> spec_decode(
            buf,
            ByteOrder::Big,
            require_file,
        ) is Ok,
        spec_decode(buf, ByteOrder::Little, require_file) is Err ==> spec_decode(
            buf,
            ByteOrder::Little,
            require_file,
        ) == spec_decode(buf, ByteOrder::Big, require_file),
        spec_decode(buf, ByteOrder::Little, require_file) matches Ok(l) ==> {
            let b = spec_decode(buf, ByteOrder::Big, require_file)->Ok_0;
            &&& l.kind == b.kind
            &&& l.content == b.content
            &&& l.file == b.file
            &&& l.cpu == spec_u16(ByteOrder::Little, buf[2], buf[3])
            &&& b.cpu == spec_u16(ByteOrder::Big, buf[2], buf[3])
            &&& l.line is Some <==> b.line is Some
        },
{
}

impl<'a> vstd::std_specs::convert::TryFromSpecImpl<&'a [u8]> for Event {
    /// The result depends on the byte order of the machine, so it is no
    /// function of the bytes alone: the contract of `try_from` states it.
    open spec fn obeys_try_from_spec() -> bool {
        false
    }

    open spec fn try_from_spec(buf: &'a [u8]) -> Result<Event, EventDecodeError> {
        vstd::pervasive::arbitrary()
    }
}

impl<'a> TryFrom<&'a [u8]> for Event {
    type Error = EventDecodeError;

    /// Decodes one record of the ring buffer, as written by an eBPF program on
    /// this machine, in its byte order.
    ///
    /// Returns an [`EventDecodeError`] if `buf` is shorter than a record, or if
    /// one of its fields holds a value the layout does not allow. Which error,
    /// and whether there is one, does not depend on the byte order; the CPU and
    /// the line are read in the machine's order.
    fn try_from(buf: &'a [u8]) -> (r: Result<Event, EventDecodeError>)
        ensures
            decoded(r) == spec_decode(buf@, machine_order(), false),
            r is Ok <==> spec_decode(buf@, ByteOrder::Little, false) is Ok,
            r is Err ==> decoded(r) == spec_decode(buf@, ByteOrder::Little, false),
    {
        proof {
            lemma_decode_order_independent(buf@, false);
        }
        Event::decode(buf, native_byte_order(), false)
    }
}

/// What distinguishes one `tracing` callsite from another: the file and line
/// the event came from, whether it opens a span, and its level.
pub type CallsiteKey = (Option<String>, Option<u32>, bool, Level);

/// The callsite an event belongs to; a span's end has none.
pub open spec fn spec_callsite_key(event: Event) -> Result<CallsiteKey, ()> {
    match event.kind {
        Kind::StartSpan(level) => Ok((event.file, event.line, true, level)),
        Kind::EndSpan => Err(()),
        Kind::Message(level) => Ok((event.file, event.line, false, level)),
    }
}

impl vstd::std_specs::convert::TryFromSpecImpl<Event> for CallsiteKey {
    open spec fn obeys_try_from_spec() -> bool {
        true
    }

    open spec fn try_from_spec(event: Event) -> Result<CallsiteKey, ()> {
        spec_callsite_key(event)
    }
}

impl TryFrom<Event> for CallsiteKey {
    type Error = ();

    /// Returns the callsite the event belongs to, or `Err(())` for
    /// [`Kind::EndSpan`], which closes a span that is already open and
    /// therefore has no callsite of its own.
    fn try_from(event: Event) -> (r: Result<Self, Self::Error>)
        ensures
            r is Err <==> event.kind == Kind::EndSpan,
            r matches Ok(k) ==> {
                &&& k.0 == event.file
                &&& k.1 == event.line
                &&& k.2 == (event.kind is StartSpan)
                &&& (event.kind == Kind::Message(k.3) || event.kind == Kind::StartSpan(k.3))
            },
    {
        match event.kind {
            Kind::StartSpan(level) => Ok((event.file, event.line, true, level)),
            Kind::EndSpan => Err(()),
            Kind::Message(level) => Ok((event.file, event.line, false, level)),
        }
    }
}

/// A callsite key is the event's own place in the source: an event that is
/// not a span's end has a key holding its file, its line, whether it starts a
/// span, and its level, and a span's end has none. So events from the same
/// place and of the same kind share a key whatever their content and CPU, and
/// events that share a key come from the same file and line.
pub proof fn lemma_callsite_key_is_source_place(e1: Event, e2: Event)
    ensures
        <CallsiteKey as vstd::std_specs::convert::TryFromSpec<Event>>::try_from_spec(e1) is Err
            <==> e1.kind == Kind::EndSpan,
        forall|l: Level|
            e1.kind == Kind::Message(l) ==> <CallsiteKey as vstd::std_specs::convert::TryFromSpec<
                Event,
            >>::try_from_spec(e1) == Ok::<CallsiteKey, ()>((e1.file, e1.line, false, l)),
        forall|l: Level|
            e1.kind == Kind::StartSpan(l) ==> <CallsiteKey as vstd::std_specs::convert::TryFromSpec<
                Event,
            >>::try_from_spec(e1) == Ok::<CallsiteKey, ()>((e1.file, e1.line, true, l)),
        e1.kind == e2.kind && e1.file == e2.file && e1.line == e2.line ==> <CallsiteKey as vstd::std_specs::convert::TryFromSpec<
            Event,
        >>::try_from_spec(e1) == <CallsiteKey as vstd::std_specs::convert::TryFromSpec<
            Event,
        >>::try_from_spec(e2),
        <CallsiteKey as vstd::std_specs::convert::TryFromSpec<Event>>::try_from_spec(e1) is Ok
            && <CallsiteKey as vstd::std_specs::convert::TryFromSpec<Event>>::try_from_spec(e1)
            == <CallsiteKey as vstd::std_specs::convert::TryFromSpec<Event>>::try_from_spec(e2)
            ==> e1.file == e2.file && e1.line == e2.line && e1.kind == e2.kind,
{
}

/// On one machine every record is read in one byte order, the machine's, the
/// order `u16::from_ne_bytes` reads in: the CPU and the line of a decoded
/// record are the numbers their bytes stand for in that order, so two records
/// that agree on the CPU bytes decode to the same CPU, and two records that
/// carry a line and agree on its bytes decode to the same line.
pub proof fn lemma_records_read_in_machine_order(b1: Seq<u8>, b2: Seq<u8>)
    ensures
        spec_decode(b1, machine_order(), false) matches Ok(e) ==> {
            &&& e.cpu == spec_u16(machine_order(), b1[2], b1[3])
            &&& b1.len() >= EVENT_WITH_FILE_SIZE ==> e.line == Some(
                spec_u32(machine_order(), b1[260], b1[261], b1[262], b1[263]),
            )
        },
        spec_decode(b1, machine_order(), false) is Ok && spec_decode(b2, machine_order(), false) is Ok
            && b1[2] == b2[2] && b1[3] == b2[3] ==> spec_decode(b1, machine_order(), false)->Ok_0.cpu
            == spec_decode(b2, machine_order(), false)->Ok_0.cpu,
        spec_decode(b1, machine_order(), false) is Ok && spec_decode(b2, machine_order(), false) is Ok
            && b1.len() >= EVENT_WITH_FILE_SIZE && b2.len() >= EVENT_WITH_FILE_SIZE && b1.subrange(
            260,
            264,
        ) == b2.subrange(260, 264) ==> spec_decode(b1, machine_order(), false)->Ok_0.line
            == spec_decode(b2, machine_order(), false)->Ok_0.line,
{
    if b1.len() >= EVENT_WITH_FILE_SIZE && b2.len() >= EVENT_WITH_FILE_SIZE && b1.subrange(
        260,
        264,
    ) == b2.subrange(260, 264) {
        assert(b1[260] == b1.subrange(260, 264)[0]);
        assert(b1[261] == b1.subrange(260, 264)[1]);
        assert(b1[262] == b1.subrange(260, 264)[2]);
        assert(b1[263] == b1.subrange(260, 264)[3]);
        assert(b2[260] == b2.subrange(260, 264)[0]);
        assert(b2[261] == b2.subrange(260, 264)[1]);
        assert(b2[262] == b2.subrange(260, 264)[2]);
        assert(b2[263] == b2.subrange(260, 264)[3]);
    }
}

impl crate::record::FromRecord for Event {
    type Error = EventDecodeError;

    /// Decodes one record of the ring buffer, as [`Event::try_from`] does.
    fn from_record(record: &[u8]) -> (r: Result<Self, Self::Error>)
        ensures
            decoded(r) == spec_decode(record@, machine_order(), false),
            r is Ok <==> spec_decode(record@, ByteOrder::Little, false) is Ok,
            r is Err ==> decoded(r) == spec_decode(record@, ByteOrder::Little, false),
    {
        Event::try_from(record)
    }
}

} // verus!
