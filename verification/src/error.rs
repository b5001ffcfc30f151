use vstd::prelude::*;

verus! {

/// A failure raised by a capability call while it marshals data across the
/// guest boundary or performs host work on the guest's behalf.  Every
/// variant traps the guest call that raised it: a capability never proceeds
/// past a failed check.
#[derive(Clone, Copy, Debug, PartialEq, Eq, Structural)]
pub enum TrapError {
    /// A (pointer, length) range reached outside the guest's linear memory.
    OutOfBounds,
    /// A guest-supplied string region was not valid UTF-8.
    InvalidUtf8,
    /// A destination buffer was too small for the value to be written.
    BufferTooSmall,
    /// The host could not bind a UDP socket to the requested address.
    BindError,
    /// The host could not send a datagram to the requested destination.
    SendError,
    /// The host failed while receiving a datagram.
    RecvError,
}

} // verus!
