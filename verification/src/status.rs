//! Reading the status word that `waitpid` fills in.

use vstd::prelude::*;
use crate::runtime::ReturnState;

verus! {

/// Whether the status word reports a normal exit: its low seven bits, which
/// hold the terminating signal, are zero.
pub open spec fn exited_normally(status: i32) -> bool {
    status & 0x7f == 0
}

/// The exit code that the status word of a normal exit carries, in its
/// second byte.
pub open spec fn exit_code(status: i32) -> i32 {
    (status >> 8) & 0xff
}

/// What a status word says of how the process ended.
pub open spec fn return_state(status: i32) -> ReturnState {
    if exited_normally(status) {
        ReturnState::Completed { ret: exit_code(status) }
    } else {
        ReturnState::Abnormal
    }
}

/// The status word of a process that ended with exit code `code` (`sig` 0),
/// or that signal `sig` killed: the code in the second byte, the signal
/// below it.
pub open spec fn status_word(code: i32, sig: i32) -> i32 {
    (code << 8) | sig
}

/// `libc::WIFEXITED`: true exactly when the low seven bits of the status
/// word are zero, as libc defines it for Linux.
#[verifier::external_body]
fn wifexited(status: i32) -> (r: bool)
    ensures
        r == exited_normally(status),
{
    libc::WIFEXITED(status)
}

/// `libc::WEXITSTATUS`: the second byte of the status word, as libc defines
/// it for Linux.
#[verifier::external_body]
fn wexitstatus(status: i32) -> (r: i32)
    ensures
        r == exit_code(status),
{
    libc::WEXITSTATUS(status)
}

/// Decodes the status word of a child that `waitpid` reported as ended.
pub fn decode_status(status: i32) -> (r: ReturnState)
    ensures
        r == return_state(status),
{
    if wifexited(status) {
        ReturnState::Completed { ret: wexitstatus(status) }
    } else {
        ReturnState::Abnormal
    }
}

/// A process that exits with a code from 0 to 255 is decoded as completed
/// with that very code.
pub proof fn law_exit_code_is_recovered(code: i32)
    requires
        0 <= code <= 255,
    ensures
        return_state(status_word(code, 0)) == (ReturnState::Completed { ret: code }),
{
    assert((((code << 8) | 0) & 0x7f) == 0 && ((((code << 8) | 0) >> 8) & 0xff) == code)
        by (bit_vector)
        requires
            0 <= code <= 255,
    ;
}

/// A process that a signal killed is decoded as abnormal, whether or not it
/// left a core dump (bit 7 of the status word).
pub proof fn law_signal_death_is_abnormal(sig: i32, core: bool)
    requires
        1 <= sig <= 127,
    ensures
        return_state(
            if core {
                status_word(0, sig) | 0x80
            } else {
                status_word(0, sig)
            },
        ) == ReturnState::Abnormal,
{
    assert(((((0i32 << 8) | sig) | 0x80) & 0x7f) != 0 && ((((0i32 << 8) | sig)) & 0x7f) != 0)
        by (bit_vector)
        requires
            1 <= sig <= 127,
    ;
}

} // verus!
