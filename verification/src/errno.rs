//! Operating system error codes.
use vstd::prelude::*;

verus! {

/// The numbers that a system gives the error codes that the library has a use for. Systems number
/// them differently, so whoever calls the library says what they are where it runs.
#[derive(Clone, Copy, Debug, PartialEq, Eq, Structural)]
pub struct Errnos {
    /// Operation not permitted.
    pub eperm: i32,
    /// No such file or directory.
    pub enoent: i32,
    /// Interrupted system call.
    pub eintr: i32,
    /// Input/output error.
    pub eio: i32,
    /// Resource temporarily unavailable.
    pub eagain: i32,
    /// Cannot allocate memory.
    pub enomem: i32,
    /// Permission denied.
    pub eacces: i32,
    /// Bad address.
    pub efault: i32,
    /// Device or resource busy.
    pub ebusy: i32,
    /// No such device.
    pub enodev: i32,
    /// Invalid argument.
    pub einval: i32,
    /// File name too long.
    pub enametoolong: i32,
    /// Function not implemented.
    pub enosys: i32,
    /// Protocol error.
    pub eproto: i32,
    /// Operation canceled.
    pub ecanceled: i32,
}

/// The error code that a reply to the kernel carries.
#[derive(Clone, Copy, Debug, PartialEq, Eq, Structural)]
pub struct Errno {
    /// The raw code.
    pub raw: i32,
}

impl Errno {
    /// The raw code of this error.
    pub fn code(self) -> (code: i32)
        ensures
            code == self.raw,
    {
        self.raw
    }
}

} // verus!
