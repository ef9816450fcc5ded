//! Exit codes of the orchestrator.
use vstd::prelude::*;

verus! {

/// Exit code when a step before the child command fails, or when a code is
/// unavailable or out of range.
pub const FAILURE: u8 = 1;

/// Exit code when the child command could not be launched at all.
pub const SPAWN_FAILURE: u8 = 127;

/// The code that a process exit status maps to: itself when it lies in
/// `0..=255`, otherwise the failure code.
pub open spec fn child_code_spec(code: Option<i32>) -> u8 {
    match code {
        Some(c) => if 0 <= c <= 255 { c as u8 } else { FAILURE },
        None => FAILURE,
    }
}

/// The code that the elevation relay's status is forwarded as: its low eight
/// bits, or the failure code when it has none.
pub open spec fn relay_code_spec(code: Option<i32>) -> u8 {
    match code {
        Some(c) => c as u8,
        None => FAILURE,
    }
}

/// Exit code of a run whose child command exited with `code` (`None` when it
/// was ended by a signal).
pub fn child_exit_code(code: Option<i32>) -> (r: u8)
    ensures
        r == child_code_spec(code),
        forall|c: i32| code == Some(c) && 0 <= c <= 255 ==> r as i32 == c,
{
    match code {
        Some(c) => {
            if 0 <= c && c <= 255 {
                c as u8
            } else {
                FAILURE
            }
        },
        None => FAILURE,
    }
}

/// Exit code of an unprivileged run that handed itself to the elevation
/// relay, which exited with `code`.
pub fn relay_exit_code(code: Option<i32>) -> (r: u8)
    ensures
        r == relay_code_spec(code),
        forall|c: i32| code == Some(c) && 0 <= c <= 255 ==> r as i32 == c,
{
    match code {
        Some(c) => c as u8,
        None => FAILURE,
    }
}

} // verus!
