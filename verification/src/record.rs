//! Values decoded from the raw records of a map or ring buffer.
use vstd::prelude::*;

verus! {

/// A value that can be decoded from the bytes of one record.
pub trait FromRecord: Sized {
    /// Why a record could not be decoded.
    type Error;

    /// Decodes one record.
    fn from_record(record: &[u8]) -> Result<Self, Self::Error>;
}

} // verus!
