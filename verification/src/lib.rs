//! A user-space driver for the Linux `io_uring` interface.
//!
//! The crate models the two shared-memory rings (submission and completion)
//! as verified state machines over their 32-bit wrapping counters, shapes the
//! fixed 64-byte submission records for every supported operation, and decides
//! when a kernel transition (`io_uring_enter`) is required.  The raw system
//! calls and the memory-mapped ring words themselves live outside the
//! verified core; callers hand in the counter values and completion records
//! they observe and perform the stores and system calls the core asks for.

pub mod cq;
pub mod err;
pub mod op;
pub mod params;
pub mod sq;
pub mod uring;
pub mod wrap;

pub use err::Error;
pub use params::UringBuilder;
pub use uring::Uring;
