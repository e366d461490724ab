use vstd::prelude::*;

verus! {

/// Why an operation on the chip did not succeed.
#[derive(Clone, Copy, Debug, PartialEq, Eq, Structural)]
pub enum Error {
    /// Nothing conclusive was seen within the attempts or the time allowed.
    Timeout,
    /// The chip rejected the frame.
    Nack,
    /// The chip reported a fault of its own; the code is the chip's.
    ApplicationError(u8),
    /// A start marker was followed by a byte that no acknowledgement carries.
    OutOfOrder,
    /// The bytes at hand are too few for what their own length fields announce.
    DecodeError,
}

} // verus!
