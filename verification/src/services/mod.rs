//! The interpreters that the server runs code in.

pub mod nodejs;
pub mod python;
pub mod zygote;

use vstd::prelude::*;

verus! {

/// Exit codes of a process that SIGSYS (signal 31) killed: the shell's form, 128 + 31, and
/// minus the signal's number.
pub const SIGSYS_RAW: i32 = 159;

pub const SIGSYS_NEG: i32 = -31;

/// Whether an exit code says that the seccomp filter killed the process.
pub fn is_seccomp_violation(exit_code: i32) -> (res: bool)
    ensures
        res == (exit_code == 159 || exit_code == -31),
{
    exit_code == SIGSYS_RAW || exit_code == SIGSYS_NEG
}

/// The filter's kill shows in two exit codes and in no other.
pub proof fn violations_have_two_codes(exit_code: i32, res: bool)
    requires
        call_ensures(is_seccomp_violation, (exit_code,), res),
    ensures
        res <==> exit_code == 128 + 31 || exit_code + 31 == 0,
{
}

} // verus!
