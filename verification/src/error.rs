//! Kernel error codes.

use vstd::prelude::*;

verus! {

/// The largest number that names an error; codes run from `-MAX_ERRNO` to `-1`.
pub const MAX_ERRNO: i32 = 4095;

/// Out of memory.
pub const ENOMEM: i32 = -12;

/// A user address could not be accessed.
pub const EFAULT: i32 = -14;

/// The resource is busy.
pub const EBUSY: i32 = -16;

/// An argument was not valid.
pub const EINVAL: i32 = -22;

/// An error as the kernel reports it: a small negative number.
#[derive(Clone, Copy, Debug, PartialEq, Eq, Structural)]
pub struct Error {
    /// The code, between `-MAX_ERRNO` and `-1`.
    pub errno: i32,
}

impl Error {
    /// The code lies in the range reserved for errors.
    pub open spec fn wf(self) -> bool {
        -MAX_ERRNO <= self.errno < 0
    }

    /// The error with the given code; a number that is no error code becomes `EINVAL`.
    pub fn from_errno(errno: i32) -> (e: Error)
        ensures
            e.wf(),
            e.errno == if -MAX_ERRNO <= errno < 0 {
                errno
            } else {
                EINVAL
            },
    {
        if -MAX_ERRNO <= errno && errno < 0 {
            Error { errno }
        } else {
            Error { errno: EINVAL }
        }
    }

    /// The code of this error.
    pub fn to_errno(self) -> (errno: i32)
        ensures
            errno == self.errno,
    {
        self.errno
    }
}

} // verus!
