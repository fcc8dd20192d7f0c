# xbpf

The user space side of eBPF programs that trace, written in Verus.

- `src/event.rs` decodes the records that the tracing macros of an eBPF
  program write into a ring buffer: the level and kind bytes, the CPU, the
  NUL-padded message and file fields, and the line. `spec_decode` states what
  a record decodes to; `Event::decode` and `Event::try_from` are proved
  against it.
- `src/message.rs` renders a decoding error as a sentence, with numbers in
  decimal.
- `src/layout.rs` states how the eBPF side lays an event out and proves that
  decoding such a record gives the event back, that bytes past a record are
  not read, and how readers with and without source locations agree.
- `src/obj.rs` holds the storage an eBPF object is opened into.
- `src/record.rs` names what can be decoded from a raw record.
- `app/` loads generated skeletons with `libbpf-rs` and converts levels and
  errors for `tracing` and `std::error::Error`.
