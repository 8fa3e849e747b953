//! The uniform rule that turns the status of a raw call into a result.
//!
//! A raw call answers with a status and, where it has an output, with a value
//! in an output slot. The slot holds what the host wrote only if the status
//! reports success; after a failure its content is whatever was there before
//! the call. The rule therefore lets the slot through on success and drops it
//! unread on failure.

use crate::errno::{lemma_errno_code, Errno, Status, ESUCCESS};
use vstd::prelude::*;

verus! {

/// The result of a raw call that answered `status` and left `out` in its
/// output slot: `out` itself on success, the error that carries `status`
/// on failure.
pub open spec fn outcome<T>(status: Status, out: T) -> Result<T, Errno> {
    match Errno::of_status(status) {
        None => Ok(out),
        Some(code) => Err(code),
    }
}

/// Maps the status of a raw call that has no output.
pub fn unit_result(status: Status) -> (r: Result<(), Errno>)
    ensures
        r == outcome(status, ()),
        r matches Err(e) ==> e.code() == status,
{
    proof {
        lemma_errno_code(status, Errno::with_code(status));
    }
    match Errno::new(status) {
        Some(code) => Err(code),
        None => Ok(()),
    }
}

/// Maps the status of a raw call and moves the content of its output slot
/// into the result if, and only if, the status reports success.
pub fn value_result<T>(status: Status, out: T) -> (r: Result<T, Errno>)
    ensures
        r == outcome(status, out),
        r matches Err(e) ==> e.code() == status,
{
    proof {
        lemma_errno_code(status, Errno::with_code(status));
    }
    match Errno::new(status) {
        Some(code) => Err(code),
        None => Ok(out),
    }
}

/// On success the result is exactly the content of the output slot.
pub proof fn lemma_success_yields_output<T>(status: Status, out: T)
    requires
        status == ESUCCESS,
    ensures
        outcome(status, out) == Ok::<T, Errno>(out),
{
}

/// On failure the result is the error that carries the status, whatever the
/// output slot holds: two calls that fail with the same status yield the
/// same error even if their slots differ, so no content of a slot can be
/// observed through a failed call.
pub proof fn lemma_failure_discards_output<T>(status: Status, a: T, b: T)
    requires
        status != ESUCCESS,
    ensures
        outcome(status, a) == Err::<T, Errno>(Errno::with_code(status)),
        outcome(status, b) == outcome(status, a),
        outcome(status, a)->Err_0.code() == status,
{
    lemma_errno_code(status, Errno::with_code(status));
}

/// A result is a success exactly when the status is the success status, and
/// an error never carries a status other than the one the call answered.
pub proof fn lemma_outcome_reflects_status<T>(status: Status, out: T)
    ensures
        outcome(status, out) is Ok <==> status == ESUCCESS,
        outcome(status, out) matches Err(e) ==> e.code() == status && e.code() != ESUCCESS,
{
    lemma_errno_code(status, Errno::with_code(status));
}

} // verus!
