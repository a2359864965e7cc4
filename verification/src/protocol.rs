//! The decisions of the two-phase sizing protocol that acquires an adapter
//! snapshot from the operating system.
//!
//! The enumeration primitive cannot pre-declare the size of its output, so it
//! is called twice: a sizing call with no destination buffer, expected to
//! fail with the platform's "buffer too small" status and report the required
//! byte count, and a fill call on a buffer of exactly that size, expected to
//! succeed. The calls themselves are made by the unverified front end; the
//! functions here take the reported statuses and decide, exactly as the
//! protocol demands, whether the operation proceeds or fails.

use vstd::prelude::*;

verus! {

/// The status the sizing call must report: the platform's "buffer too small"
/// code, the only outcome under which the protocol proceeds to the fill call.
pub const BUFFER_TOO_SMALL_STATUS: u32 = 111;

/// The status the fill call must report for the snapshot to be valid.
pub const SUCCESS_STATUS: u32 = 0;

/// A failure of the acquisition protocol. Both variants are fatal: the whole
/// operation aborts with no partial snapshot.
#[derive(Clone, Copy, Debug, PartialEq, Eq, Structural)]
pub enum OsError {
    /// The sizing call did not report "buffer too small" as expected, so the
    /// platform's contract assumption was violated.
    UnexpectedSizeResult,
    /// The fill call did not report success; the payload is its status code.
    EnumerationFailed(u32),
}

/// Decides the outcome of the sizing call: the protocol proceeds, with a
/// buffer of exactly the reported size, if and only if the call reported
/// "buffer too small"; any other status, success included, is the error
/// `UnexpectedSizeResult`, and no further call is made.
pub fn plan_fill_buffer(sizing_status: u32, required_size: u32) -> (r: Result<u32, OsError>)
    ensures
        sizing_status == BUFFER_TOO_SMALL_STATUS <==> r is Ok,
        r is Ok ==> r->Ok_0 == required_size,
        r is Err ==> r->Err_0 == OsError::UnexpectedSizeResult,
{
    if sizing_status == BUFFER_TOO_SMALL_STATUS {
        Ok(required_size)
    } else {
        Err(OsError::UnexpectedSizeResult)
    }
}

/// Allocates the zeroed destination buffer for the fill call, of exactly the
/// size the sizing call reported.
pub fn allocate_snapshot_buffer(size: u32) -> (buf: Vec<u8>)
    ensures
        buf@.len() == size,
        forall|i: int| 0 <= i < buf@.len() ==> buf@[i] == 0u8,
{
    let mut buf: Vec<u8> = Vec::new();
    let mut i: u32 = 0;
    while i < size
        invariant
            i <= size,
            buf@.len() == i,
            forall|j: int| 0 <= j < buf@.len() ==> buf@[j] == 0u8,
        decreases size - i,
    {
        buf.push(0u8);
        i = i + 1;
    }
    buf
}

/// Decides the outcome of the fill call: the snapshot is valid if and only
/// if the call reported success; any non-zero status is the error
/// `EnumerationFailed`, carrying that status.
pub fn check_fill_status(fill_status: u32) -> (r: Result<(), OsError>)
    ensures
        fill_status == SUCCESS_STATUS ==> r == Ok::<(), OsError>(()),
        fill_status != SUCCESS_STATUS ==> r == Err::<(), OsError>(
            OsError::EnumerationFailed(fill_status),
        ),
{
    if fill_status == SUCCESS_STATUS {
        Ok(())
    } else {
        Err(OsError::EnumerationFailed(fill_status))
    }
}

} // verus!
