//! WASI error numbers as the guest sees them.
//!
//! Resource errors (a bad handle, a reserved slot, a wrong resource kind) are
//! returned to the immediate caller as one of these codes; they never corrupt
//! the context they were raised against. The embedder's shims report through
//! the same codes, e.g. a timed-out wait as `Again`.

use vstd::prelude::*;

verus! {

/// A WASI `errno` value, restricted to the codes this crate and the
/// embedder's shims raise or inspect.
#[derive(Clone, Copy, Debug, PartialEq, Eq, Structural)]
pub enum Errno {
    /// Operation succeeded.
    Success,
    /// Bad file descriptor: negative, out of range, empty, or closed.
    Badf,
    /// Bad address within guest memory.
    Fault,
    /// Invalid argument.
    Inval,
    /// Protocol option not available.
    Noprotoopt,
    /// Function not supported by this implementation.
    Nosys,
    /// The descriptor is not a socket.
    Notsock,
    /// Operation not supported, e.g. removing a reserved handle.
    Notsup,
    /// Operation would block.
    Again,
    /// No such device: raised for a wait on the CPU-time clocks, which this
    /// implementation does not serve.
    Nodev,
    /// Result too large.
    Overflow,
    /// Insufficient rights for the operation.
    Notcapable,
}

impl Errno {
    /// The numeric code of this error in the WASI ABI.
    pub fn code(&self) -> (r: u32)
        ensures
            r == self.code_spec(),
    {
        match self {
            Errno::Success => 0,
            Errno::Badf => 8,
            Errno::Fault => 21,
            Errno::Inval => 28,
            Errno::Noprotoopt => 50,
            Errno::Nosys => 52,
            Errno::Notsock => 57,
            Errno::Notsup => 58,
            Errno::Again => 6,
            Errno::Nodev => 43,
            Errno::Overflow => 61,
            Errno::Notcapable => 76,
        }
    }

    /// What `code` returns, for use in contracts.
    pub open spec fn code_spec(&self) -> u32 {
        match self {
            Errno::Success => 0,
            Errno::Badf => 8,
            Errno::Fault => 21,
            Errno::Inval => 28,
            Errno::Noprotoopt => 50,
            Errno::Nosys => 52,
            Errno::Notsock => 57,
            Errno::Notsup => 58,
            Errno::Again => 6,
            Errno::Nodev => 43,
            Errno::Overflow => 61,
            Errno::Notcapable => 76,
        }
    }
}

} // verus!
