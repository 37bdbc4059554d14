use vstd::prelude::*;

verus! {

/// Classification of a boundary call's outcome: the sole error channel
/// across the foreign interface. No exception or panic ever crosses the
/// boundary; every fallible step is mapped to one of these.
#[derive(Clone, Copy, Debug, PartialEq, Eq, Structural)]
pub enum Status {
    /// the call succeeded and the output slots were populated
    Success,
    /// a required pointer argument was null; nothing was touched
    NullPointer,
    /// the codec rejected the data (malformed input on decompression,
    /// an internal encoder error on compression)
    IoFailure,
    /// the shared allocator could not provide the result block
    AllocFailure,
}

impl Status {
    /// The fixed small-integer taxonomy seen by foreign callers,
    /// stable across versions.
    pub open spec fn spec_code(self) -> int {
        match self {
            Status::Success => 0,
            Status::NullPointer => 1,
            Status::IoFailure => 2,
            Status::AllocFailure => 3,
        }
    }

    /// The integer form of this status, as returned across the boundary.
    pub fn code(self) -> (c: i32)
        ensures
            c as int == self.spec_code(),
    {
        match self {
            Status::Success => 0,
            Status::NullPointer => 1,
            Status::IoFailure => 2,
            Status::AllocFailure => 3,
        }
    }
}

} // verus!
