//! Verified decision core of a handle over a named counting semaphore.
//!
//! The operating system owns the semaphore: its count, its name and its
//! waiters. This crate decides everything around the system calls: which
//! names may be handed to the system, what initial count is requested, and
//! how every status code, error number and reported count is turned into a
//! typed outcome.
use vstd::prelude::*;

pub mod error;
pub mod request;
pub mod status;

pub use error::SemError;
pub use request::{c_name, create_request, initial_count, open_request, OpenRequest};
pub use status::{check_handle, check_status, normalize_count, read_value};

verus! {

/// A semaphore created with `capacity` starts with exactly that count as
/// seen by callers: the count requested of the system is `capacity`, and
/// that count, once reported back, reads unchanged. This holds for every
/// capacity that fits the system's signed count.
pub proof fn lemma_created_count_reads_back(capacity: usize)
    requires
        capacity <= i32::MAX,
    ensures
        request::requested_count(capacity as int) == capacity as int,
        status::visible_count(request::requested_count(capacity as int)) == capacity as int,
{
}

} // verus!
