//! Reading a status register: busy, errors left by an earlier command, completion.

use vstd::prelude::*;
use crate::flash::protocol::{Error, Op, Security, Status};

verus! {

impl Status {
    /// Whether an earlier command left an error flag set.
    pub open spec fn has_error(self) -> bool {
        self.alignment_error || self.programming_error || self.write_protection_error
    }
}

/// Whether a command is in progress.
pub fn is_busy(status: Status) -> (busy: bool)
    ensures
        busy == status.busy,
{
    status.busy
}

/// Check the error flags that an earlier programming may have left. The
/// flags are not cleared.
pub fn check_illegal(status: Status) -> (outcome: Result<(), Error>)
    ensures
        outcome == if status.has_error() {
            Err::<(), Error>(Error::Illegal)
        } else {
            Ok::<(), Error>(())
        },
{
    if status.alignment_error || status.programming_error || status.write_protection_error {
        Err(Error::Illegal)
    } else {
        Ok(())
    }
}

/// The write that acknowledges a completed command: the one that clears
/// the end-of-operation flag, if the flag is set, and none if it is not.
pub fn clear_completion(status: Status, domain: Option<Security>) -> (op: Option<Op>)
    ensures
        op == if status.end_of_operation {
            Some(Op::ClearCompletion { domain })
        } else {
            None
        },
{
    if status.end_of_operation {
        Some(Op::ClearCompletion { domain })
    } else {
        None
    }
}

} // verus!
