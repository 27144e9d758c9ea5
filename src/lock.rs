//! The lock-file protocol that keeps one instance per host, and the exit
//! status of its teardown.
//!
//! The lock record is the decimal process identifier of the owner. An
//! instance that starts claims the lock: it asks the recorded owner, if
//! any, to terminate, then records its own identifier. Reading and writing
//! the file and delivering the signal are done by the caller; this module
//! decides what they are.

use vstd::prelude::*;

use crate::text::{
    decimal_of, decimal_text, digits_value, is_digit, is_u32_text, lemma_decimal_of, parse_u32, unsigned_body,
};

verus! {

/// Why claiming the lock failed.
#[derive(Clone, Copy, Debug, PartialEq, Eq, Structural)]
pub enum LockError {
    /// The record does not hold a process identifier.
    BadRecord,
    /// The recorded owner could not be signalled.
    SignalFailed,
}

/// What claiming the lock takes: the process to terminate first, if any,
/// and the record to write.
#[derive(Debug)]
pub struct LockClaim {
    pub terminate: Option<i32>,
    pub record: String,
}

/// Whether a record holds a process identifier: the text of a `u32` whose
/// value fits a non-negative `i32`, as process identifiers do.
pub open spec fn is_pid_record(s: Seq<char>) -> bool {
    is_u32_text(s) && digits_value(unsigned_body(s)) <= i32::MAX
}

/// The process identifier held by a record.
pub open spec fn record_pid(s: Seq<char>) -> int {
    digits_value(unsigned_body(s)) as int
}

/// The record that an instance writes reads back as its own identifier,
/// so the next instance to start finds and terminates it.
pub proof fn law_record_round_trip(pid: u32)
    requires
        pid <= i32::MAX,
    ensures
        is_pid_record(decimal_of(pid as nat)),
        record_pid(decimal_of(pid as nat)) == pid,
{
    let s = decimal_of(pid as nat);
    lemma_decimal_of(pid as nat);
    assert(is_digit(s[0]));
    assert(unsigned_body(s) == s);
}

/// The claim of an instance with identifier `pid`, given the lock record
/// as found (`None` where there is no lock file). With no record, the
/// instance writes its identifier. With a record that holds an identifier,
/// it terminates that process, then overwrites the record with its own.
/// Any other record is refused.
pub fn claim_lock(existing: Option<&str>, pid: u32) -> (r: Result<LockClaim, LockError>)
    ensures
        match existing {
            None => match r {
                Ok(c) => c.terminate is None && c.record@ == decimal_of(pid as nat),
                Err(_) => false,
            },
            Some(s) => if is_pid_record(s@) {
                match r {
                    Ok(c) => c.terminate == Some(record_pid(s@) as i32) && c.record@ == decimal_of(
                        pid as nat,
                    ),
                    Err(_) => false,
                }
            } else {
                r == Err::<LockClaim, LockError>(LockError::BadRecord)
            },
        },
{
    let terminate = match existing {
        None => None,
        Some(s) => match parse_u32(s) {
            Some(p) => {
                if p > 2147483647 {
                    return Err(LockError::BadRecord);
                }
                Some(p as i32)
            },
            None => {
                return Err(LockError::BadRecord);
            },
        },
    };
    Ok(LockClaim { terminate, record: decimal_text(pid) })
}

/// The outcome of signalling the recorded owner, from the status that the
/// signal call returned: zero is delivery, anything else a failure.
pub fn signal_outcome(status: i32) -> (r: Result<(), LockError>)
    ensures
        r == (if status == 0 {
            Ok::<(), LockError>(())
        } else {
            Err(LockError::SignalFailed)
        }),
{
    if status == 0 {
        Ok(())
    } else {
        Err(LockError::SignalFailed)
    }
}

/// The exit status after a termination signal: success when the lock file
/// was removed, one otherwise.
pub fn teardown_exit_code(removed: bool) -> (r: i32)
    ensures
        r == (if removed {
            0i32
        } else {
            1i32
        }),
{
    if removed {
        0
    } else {
        1
    }
}

} // verus!
