//! The requests that the library makes of the operating system, and the
//! answers it takes back.

use vstd::prelude::*;
use crate::utils::OsError;

verus! {

/// One call for the driver to perform. The numbers are the ones to pass on
/// unchanged; the strings are borrowed from the parameters of the launch.
/// The driver adds nothing of its own to a call.
#[derive(Clone, Copy, Debug, PartialEq, Eq)]
pub enum Syscall<'a> {
    /// `pipe`: create a channel; the answer carries both descriptors.
    Pipe,
    /// `fork`: duplicate the process.
    Fork,
    /// `close` the descriptor.
    Close { fd: i32 },
    /// `dup2`: make `dst` refer to what `src` refers to.
    Dup2 { src: i32, dst: i32 },
    /// `fcntl` with `F_GETFL`: the answer is the descriptor's status flags.
    GetFlags { fd: i32 },
    /// `fcntl` with `F_SETFL`: replace the descriptor's status flags.
    SetFlags { fd: i32, flags: i32 },
    /// `setgid`.
    SetGid { gid: u32 },
    /// `setuid`.
    SetUid { uid: u32 },
    /// `chdir`.
    Chdir { path: &'a str },
    /// `execve`: replace the process image. An answer means it failed.
    Execve { prog: &'a str, argv: &'a [&'a str], envp: &'a Vec<String> },
    /// `read` up to `len` bytes; the answer carries the bytes received.
    Read { fd: i32, len: usize },
    /// `waitpid`; the answer carries the status word.
    WaitPid { pid: i32, options: i32 },
    /// `kill`: send `signal` to `pid`.
    Kill { pid: i32, signal: i32 },
}

/// What the operating system answered to one [`Syscall`].
#[derive(Clone, Debug, PartialEq, Eq)]
pub struct Reply {
    /// The value that the call returned; for `read`, which is never asked
    /// for more than fits, the number of bytes received or -1.
    pub ret: i32,
    /// The error number right after the call; meaningful when it failed.
    pub errno: i32,
    /// After `pipe`: the descriptor of the read end.
    pub read_fd: i32,
    /// After `pipe`: the descriptor of the write end.
    pub write_fd: i32,
    /// After `waitpid`: the status word.
    pub status: i32,
    /// After `read`: the buffer that was handed to the call.
    pub data: Vec<u8>,
}

/// Where an operation stands after the answers it was given.
#[derive(Debug, PartialEq, Eq)]
pub enum Step<'a, T> {
    /// It needs this call performed and its answer appended.
    Call(Syscall<'a>),
    /// It is finished.
    Done(T),
}

/// Where a list of calls stands that are made one after the other, each of
/// which has to succeed.
#[derive(Debug, PartialEq, Eq)]
pub enum Verdict<'a> {
    /// This call is next.
    Call(Syscall<'a>),
    /// A call returned a negative value, with this error; none was made
    /// after it.
    Failed(OsError),
    /// Every call was made and none failed.
    Completed,
}

/// The verdict on `plan` from its call number `i` on, where the calls before
/// it succeeded: the first answer that is negative fails the plan, and the
/// first call without an answer is the next one.
pub open spec fn verdict_from<'a>(plan: Seq<Syscall<'a>>, replies: Seq<Reply>, i: int) -> Verdict<
    'a,
>
    decreases plan.len() - i,
{
    if i < 0 || i >= plan.len() {
        Verdict::Completed
    } else if i >= replies.len() {
        Verdict::Call(plan[i])
    } else if replies[i].ret < 0 {
        Verdict::Failed(replies[i].spec_error())
    } else {
        verdict_from(plan, replies, i + 1)
    }
}

/// Whether `short` is the beginning of `long`.
pub open spec fn begins(long: Seq<Reply>, short: Seq<Reply>) -> bool {
    short.len() <= long.len() && forall|i: int| 0 <= i < short.len() ==> short[i] == long[i]
}

/// A plan that has failed or is completed stays so, whatever answers follow.
pub proof fn law_verdict_is_final<'a>(
    plan: Seq<Syscall<'a>>,
    short: Seq<Reply>,
    long: Seq<Reply>,
    i: int,
)
    requires
        begins(long, short),
        !(verdict_from(plan, short, i) is Call),
    ensures
        verdict_from(plan, long, i) == verdict_from(plan, short, i),
    decreases plan.len() - i,
{
    if 0 <= i < plan.len() && i < short.len() && short[i].ret >= 0 {
        law_verdict_is_final(plan, short, long, i + 1);
    }
}

/// Follows a plan: answer number `i` of `replies` belongs to call number
/// `i` of `plan`.
pub fn run_plan<'a>(plan: &Vec<Syscall<'a>>, replies: &[Reply]) -> (v: Verdict<'a>)
    ensures
        v == verdict_from(plan@, replies@, 0),
{
    let mut i: usize = 0;
    while i < plan.len()
        invariant
            i <= plan.len(),
            verdict_from(plan@, replies@, 0) == verdict_from(plan@, replies@, i as int),
        decreases plan.len() - i,
    {
        if i >= replies.len() {
            return Verdict::Call(plan[i]);
        }
        if replies[i].ret < 0 {
            return Verdict::Failed(replies[i].error());
        }
        i = i + 1;
    }
    Verdict::Completed
}

impl Reply {
    /// The answer of a call that returned `ret` and carries nothing else.
    pub fn returned(ret: i32) -> (reply: Reply)
        ensures
            reply.ret == ret,
            reply.errno == 0,
            reply.read_fd == -1,
            reply.write_fd == -1,
            reply.status == 0,
            reply.data@.len() == 0,
    {
        Reply { ret, errno: 0, read_fd: -1, write_fd: -1, status: 0, data: Vec::new() }
    }

    /// The answer of a call that failed: it returned -1 and left `errno`.
    pub fn failed(errno: i32) -> (reply: Reply)
        ensures
            reply.ret == -1,
            reply.errno == errno,
            reply.read_fd == -1,
            reply.write_fd == -1,
            reply.status == 0,
            reply.data@.len() == 0,
    {
        Reply { ret: -1, errno, read_fd: -1, write_fd: -1, status: 0, data: Vec::new() }
    }

    /// The answer of a `pipe` that gave these two descriptors.
    pub fn pipe(read_fd: i32, write_fd: i32) -> (reply: Reply)
        ensures
            reply.ret == 0,
            reply.errno == 0,
            reply.read_fd == read_fd,
            reply.write_fd == write_fd,
            reply.status == 0,
            reply.data@.len() == 0,
    {
        Reply { ret: 0, errno: 0, read_fd, write_fd, status: 0, data: Vec::new() }
    }

    /// The answer of a `read` that returned `ret` and left its bytes at the
    /// front of `data`.
    pub fn read(ret: i32, data: Vec<u8>) -> (reply: Reply)
        ensures
            reply.ret == ret,
            reply.errno == 0,
            reply.read_fd == -1,
            reply.write_fd == -1,
            reply.status == 0,
            reply.data == data,
    {
        Reply { ret, errno: 0, read_fd: -1, write_fd: -1, status: 0, data }
    }

    /// The answer of a `waitpid` that returned `ret` and filled in `status`.
    pub fn waited(ret: i32, status: i32) -> (reply: Reply)
        ensures
            reply.ret == ret,
            reply.errno == 0,
            reply.read_fd == -1,
            reply.write_fd == -1,
            reply.status == status,
            reply.data@.len() == 0,
    {
        Reply { ret, errno: 0, read_fd: -1, write_fd: -1, status, data: Vec::new() }
    }

    /// The error that a failed call left behind.
    pub open spec fn spec_error(&self) -> OsError {
        OsError { code: self.errno }
    }

    #[verifier::when_used_as_spec(spec_error)]
    pub fn error(&self) -> (e: OsError)
        ensures
            e == self.spec_error(),
    {
        OsError { code: self.errno }
    }
}

} // verus!
