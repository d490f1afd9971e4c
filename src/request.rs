use vstd::prelude::*;

use vstd::string::StringSliceAdditionalSpecFns;

use crate::error::SemError;

verus! {

/// No byte of `bytes` is a null byte.
pub open spec fn nul_free(bytes: Seq<u8>) -> bool {
    forall|i: int| 0 <= i < bytes.len() ==> bytes[i] != 0
}

/// The initial count handed to the system for a requested `capacity`.
/// Counts beyond what a `u32` holds are all above every system's limit, so
/// they are clamped to `u32::MAX`, which the system refuses in turn.
pub open spec fn requested_count(capacity: int) -> int {
    if capacity > u32::MAX {
        u32::MAX as int
    } else {
        capacity
    }
}

/// What to ask of the system to obtain a semaphore handle.
pub struct OpenRequest {
    /// The name's bytes followed by one terminating null byte.
    pub name: Vec<u8>,
    /// The count the semaphore starts with if this request creates it.
    pub initial: u32,
    /// Whether the request must fail when a semaphore of that name exists.
    pub exclusive: bool,
}

/// The null-terminated form of `name`, or `InvalidInput` where `name`
/// holds a null byte of its own.
pub fn c_name(name: &str) -> (r: Result<Vec<u8>, SemError>)
    ensures
        r is Ok <==> nul_free(name.spec_bytes()),
        r is Ok ==> r->Ok_0@ == name.spec_bytes().push(0u8),
        r is Err ==> r->Err_0 == SemError::InvalidInput,
{
    let bytes = name.as_bytes();
    let mut out: Vec<u8> = Vec::new();
    let mut i: usize = 0;
    while i < bytes.len()
        invariant
            bytes@ == name.spec_bytes(),
            0 <= i <= bytes@.len(),
            out@ == bytes@.subrange(0, i as int),
            nul_free(out@),
        decreases bytes@.len() - i,
    {
        let b = bytes[i];
        if b == 0 {
            return Err(SemError::InvalidInput);
        }
        out.push(b);
        i = i + 1;
        assert(out@ == bytes@.subrange(0, i as int));
    }
    assert(out@ == bytes@);
    out.push(0u8);
    Ok(out)
}

/// The initial count handed to the system for a requested `capacity`.
pub fn initial_count(capacity: usize) -> (r: u32)
    ensures
        r as int == requested_count(capacity as int),
{
    if capacity > u32::MAX as usize {
        u32::MAX
    } else {
        capacity as u32
    }
}

/// The request that opens the semaphore `name`, or creates it with
/// `capacity` where it does not exist yet.
pub fn open_request(name: &str, capacity: usize) -> (r: Result<OpenRequest, SemError>)
    ensures
        r is Ok <==> nul_free(name.spec_bytes()),
        r is Ok ==> r->Ok_0.name@ == name.spec_bytes().push(0u8),
        r is Ok ==> r->Ok_0.initial as int == requested_count(capacity as int),
        r is Ok ==> !r->Ok_0.exclusive,
        r is Err ==> r->Err_0 == SemError::InvalidInput,
{
    request(name, capacity, false)
}

/// The request that creates the semaphore `name` with `capacity`, and
/// fails where a semaphore of that name exists already.
pub fn create_request(name: &str, capacity: usize) -> (r: Result<OpenRequest, SemError>)
    ensures
        r is Ok <==> nul_free(name.spec_bytes()),
        r is Ok ==> r->Ok_0.name@ == name.spec_bytes().push(0u8),
        r is Ok ==> r->Ok_0.initial as int == requested_count(capacity as int),
        r is Ok ==> r->Ok_0.exclusive,
        r is Err ==> r->Err_0 == SemError::InvalidInput,
{
    request(name, capacity, true)
}

fn request(name: &str, capacity: usize, exclusive: bool) -> (r: Result<OpenRequest, SemError>)
    ensures
        r is Ok <==> nul_free(name.spec_bytes()),
        r is Ok ==> r->Ok_0.name@ == name.spec_bytes().push(0u8),
        r is Ok ==> r->Ok_0.initial as int == requested_count(capacity as int),
        r is Ok ==> r->Ok_0.exclusive == exclusive,
        r is Err ==> r->Err_0 == SemError::InvalidInput,
{
    let name = c_name(name)?;
    Ok(OpenRequest { name, initial: initial_count(capacity), exclusive })
}

} // verus!
