//! Operating-system errors, carried as raw `errno` values.

use vstd::prelude::*;

verus! {

/// `errno` for "resource temporarily unavailable": returned when nothing is
/// pending and the caller asked for no work.
pub const EAGAIN: i32 = 11;

/// `errno` for "timer expired": the usual result carried by an expired
/// timeout submission.
pub const ETIME: i32 = 62;

/// `errno` for "operation not supported": returned when the kernel exposes
/// no completion-ring flags word.
pub const EOPNOTSUPP: i32 = 95;

/// An operating-system error, identified by its raw `errno` value.
#[derive(Debug, Clone, Copy, PartialEq, Eq, Structural)]
pub struct Error {
    pub code: i32,
}

impl Error {
    /// Wraps a raw `errno` value.
    pub fn new(code: i32) -> (e: Error)
        ensures
            e.code == code,
    {
        Error { code }
    }

    /// The raw `errno` value.
    pub fn raw_os_error(&self) -> (code: i32)
        ensures
            code == self.code,
    {
        self.code
    }
}

} // verus!
