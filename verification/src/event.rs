//! The unit of the log: a timestamp plus an opaque payload.

use vstd::prelude::*;

use crate::timestamp::Timestamp;

verus! {

/// One logged record: the position it holds in its stream and its payload.
/// The payload is opaque to this crate and passes through unchanged.
#[derive(Clone, Debug)]
pub struct Event {
    pub ts: Timestamp,
    pub data: Vec<u8>,
}

impl View for Event {
    type V = (u64, Seq<u8>);

    /// An event is modelled by its position and its payload bytes.
    open spec fn view(&self) -> (u64, Seq<u8>) {
        (self.ts.value, self.data@)
    }
}

} // verus!
