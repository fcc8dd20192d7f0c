//! xBPF: the user space side of eBPF programs that trace.
//!
//! [`event`] decodes the records that the tracing macros of an eBPF program
//! write into a ring buffer, [`obj`] holds the storage an eBPF object is opened
//! into, and [`record`] names what can be decoded from a raw record.
pub mod event;
pub mod obj;
pub mod layout;
pub mod message;
pub mod record;

pub use event::{Event, EventDecodeError, Kind, Level};
pub use obj::OpenObject;
pub use record::FromRecord;
