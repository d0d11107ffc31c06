//! The numbers that Linux gives to the descriptors, signals, options, flags
//! and errors that the supervisor deals in. Each number is stated here once,
//! for the contracts, and taken from libc where the code runs.

use vstd::prelude::*;

verus! {

/// The descriptor number of standard output.
pub open spec fn spec_stdout_fileno() -> i32 {
    1
}

/// `libc::STDOUT_FILENO`, which libc defines as 1.
#[verifier::external_body]
pub(crate) fn stdout_fileno() -> (r: i32)
    ensures
        r == spec_stdout_fileno(),
{
    libc::STDOUT_FILENO
}

/// The descriptor number of standard error.
pub open spec fn spec_stderr_fileno() -> i32 {
    2
}

/// `libc::STDERR_FILENO`, which libc defines as 2.
#[verifier::external_body]
pub(crate) fn stderr_fileno() -> (r: i32)
    ensures
        r == spec_stderr_fileno(),
{
    libc::STDERR_FILENO
}

/// The number of the interrupt signal.
pub open spec fn spec_sigint() -> i32 {
    2
}

/// `libc::SIGINT`, which libc defines as 2 for Linux.
#[verifier::external_body]
pub(crate) fn sigint() -> (r: i32)
    ensures
        r == spec_sigint(),
{
    libc::SIGINT
}

/// The number of the termination signal.
pub open spec fn spec_sigterm() -> i32 {
    15
}

/// `libc::SIGTERM`, which libc defines as 15 for Linux.
#[verifier::external_body]
pub(crate) fn sigterm() -> (r: i32)
    ensures
        r == spec_sigterm(),
{
    libc::SIGTERM
}

/// The `waitpid` option that makes it return at once where no child has
/// ended.
pub open spec fn spec_wnohang() -> i32 {
    1
}

/// `libc::WNOHANG`, which libc defines as 1 for Linux.
#[verifier::external_body]
pub(crate) fn wnohang() -> (r: i32)
    ensures
        r == spec_wnohang(),
{
    libc::WNOHANG
}

/// The error number of a read that would have had to wait.
pub open spec fn spec_eagain() -> i32 {
    11
}

/// `libc::EAGAIN`, which libc defines as 11 for Linux; `libc::EWOULDBLOCK`
/// is the same number there.
#[verifier::external_body]
pub(crate) fn eagain() -> (r: i32)
    ensures
        r == spec_eagain(),
{
    libc::EAGAIN
}

/// The status flag that makes reads on a descriptor return at once.
pub open spec fn spec_o_nonblock() -> i32 {
    2048
}

/// `libc::O_NONBLOCK`, which libc defines as 2048 for Linux on x86-64, as on
/// most machines (not on MIPS and SPARC).
#[verifier::external_body]
pub(crate) fn o_nonblock() -> (r: i32)
    ensures
        r == spec_o_nonblock(),
{
    libc::O_NONBLOCK
}

} // verus!
