//! A pipe and its two ends, as descriptor numbers.
//!
//! A [`Pipe`] is consumed once, into the end that is kept; the other end is
//! closed on the way. Each conversion is a function of the answers received
//! so far and reads them from the front of `replies`.

use vstd::prelude::*;
use vstd::slice::slice_subrange;
use vstd::string::StringExecFns;
use crate::platform::{o_nonblock, spec_o_nonblock};
use crate::syscall::{Reply, Step, Syscall};
use crate::text::{decimal, decimal_string};
use crate::utils::{io_result, to_ioresult, OsError};

verus! {

/// The read end of a pipe.
#[derive(Debug, PartialEq, Eq)]
pub struct PipeReader {
    pub fd: i32,
}

/// The write end of a pipe.
#[derive(Debug, PartialEq, Eq)]
pub struct PipeWriter {
    pub fd: i32,
}

/// Both ends of a freshly created pipe.
#[derive(Debug, PartialEq, Eq)]
pub struct Pipe {
    pub read: i32,
    pub write: i32,
}

/// The answers from position `from` on; none where there are not that many.
pub open spec fn replies_from(replies: Seq<Reply>, from: int) -> Seq<Reply> {
    if 0 <= from <= replies.len() {
        replies.skip(from)
    } else {
        Seq::empty()
    }
}

/// The part of `replies` that starts at `from`.
pub fn rest(replies: &[Reply], from: usize) -> (r: &[Reply])
    ensures
        r@ == replies_from(replies@, from as int),
{
    let n = replies.len();
    if from <= n {
        slice_subrange(replies, from, n)
    } else {
        slice_subrange(replies, n, n)
    }
}

/// Status flags with non-blocking mode added to them.
pub open spec fn with_nonblocking(flags: i32) -> i32 {
    flags | spec_o_nonblock()
}

/// Adding non-blocking mode sets its flag and clears none: every flag that
/// was set stays set. Adding it twice is adding it once.
pub proof fn law_nonblocking_keeps_the_flags(flags: i32)
    ensures
        with_nonblocking(flags) & spec_o_nonblock() == spec_o_nonblock(),
        with_nonblocking(flags) & flags == flags,
        with_nonblocking(with_nonblocking(flags)) == with_nonblocking(flags),
{
    assert((flags | 2048) & 2048 == 2048) by (bit_vector);
    assert((flags | 2048) & flags == flags) by (bit_vector);
    assert(((flags | 2048) | 2048) == (flags | 2048)) by (bit_vector);
}

impl PipeReader {
    /// What [`PipeReader::read`] returns.
    pub open spec fn spec_read(&self, len: usize, replies: Seq<Reply>) -> Step<
        'static,
        Result<usize, OsError>,
    > {
        if replies.len() == 0 {
            Step::Call(Syscall::Read { fd: self.fd, len })
        } else if replies[0].ret >= 0 {
            Step::Done(Ok(replies[0].ret as usize))
        } else {
            Step::Done(Err(replies[0].spec_error()))
        }
    }

    /// The descriptor number.
    pub fn as_raw_fd(&self) -> (fd: i32)
        ensures
            fd == self.fd,
    {
        self.fd
    }

    /// Reads up to `len` bytes: asks for the `read`, then tells how many
    /// bytes the answer reports, or the error where the call returned a
    /// negative value.
    pub fn read(&self, len: usize, replies: &[Reply]) -> (r: Step<'static, Result<usize, OsError>>)
        ensures
            r == self.spec_read(len, replies@),
    {
        if replies.len() == 0 {
            return Step::Call(Syscall::Read { fd: self.fd, len });
        }
        let reply = &replies[0];
        if reply.ret >= 0 {
            Step::Done(Ok(reply.ret as usize))
        } else {
            Step::Done(Err(reply.error()))
        }
    }
}

impl PipeWriter {
    /// What [`PipeWriter::release`] returns.
    pub open spec fn spec_release(&self, replies: Seq<Reply>) -> Step<'static, ()> {
        if replies.len() == 0 {
            Step::Call(Syscall::Close { fd: self.fd })
        } else {
            Step::Done(())
        }
    }

    /// The descriptor number.
    pub fn as_raw_fd(&self) -> (fd: i32)
        ensures
            fd == self.fd,
    {
        self.fd
    }

    /// Gives the write end up: asks for its `close` and is finished whatever
    /// the answer says.
    pub fn release(self, replies: &[Reply]) -> (r: Step<'static, ()>)
        ensures
            r == self.spec_release(replies@),
    {
        if replies.len() == 0 {
            Step::Call(Syscall::Close { fd: self.fd })
        } else {
            Step::Done(())
        }
    }
}

impl Pipe {
    /// What [`Pipe::new`] returns.
    pub open spec fn spec_new(replies: Seq<Reply>) -> Step<'static, Result<Pipe, OsError>> {
        if replies.len() == 0 {
            Step::Call(Syscall::Pipe)
        } else if replies[0].ret == 0 {
            Step::Done(Ok(Pipe { read: replies[0].read_fd, write: replies[0].write_fd }))
        } else {
            Step::Done(Err(replies[0].spec_error()))
        }
    }

    /// What [`Pipe::into_read_fd`] returns.
    pub open spec fn spec_into_read_fd(self, replies: Seq<Reply>) -> Step<
        'static,
        Result<PipeReader, OsError>,
    > {
        if replies.len() == 0 {
            Step::Call(Syscall::Close { fd: self.write })
        } else if replies[0].ret == -1 {
            Step::Done(Err(replies[0].spec_error()))
        } else {
            Step::Done(Ok(PipeReader { fd: self.read }))
        }
    }

    /// What [`Pipe::into_write_fd`] returns.
    pub open spec fn spec_into_write_fd(self, replies: Seq<Reply>) -> Step<
        'static,
        Result<PipeWriter, OsError>,
    > {
        if replies.len() == 0 {
            Step::Call(Syscall::Close { fd: self.read })
        } else if replies[0].ret == -1 {
            Step::Done(Err(replies[0].spec_error()))
        } else {
            Step::Done(Ok(PipeWriter { fd: self.write }))
        }
    }

    /// What [`Pipe::into_nonblocking_read_fd`] returns: the write end is
    /// closed, the status flags of the read end are read, and the same flags
    /// are set again with non-blocking mode added. The first call that
    /// returns -1 ends the conversion with its error.
    pub open spec fn spec_into_nonblocking_read_fd(self, replies: Seq<Reply>) -> Step<
        'static,
        Result<PipeReader, OsError>,
    > {
        if replies.len() == 0 {
            Step::Call(Syscall::Close { fd: self.write })
        } else if replies[0].ret == -1 {
            Step::Done(Err(replies[0].spec_error()))
        } else if replies.len() == 1 {
            Step::Call(Syscall::GetFlags { fd: self.read })
        } else if replies[1].ret == -1 {
            Step::Done(Err(replies[1].spec_error()))
        } else if replies.len() == 2 {
            Step::Call(
                Syscall::SetFlags { fd: self.read, flags: with_nonblocking(replies[1].ret) },
            )
        } else if replies[2].ret == -1 {
            Step::Done(Err(replies[2].spec_error()))
        } else {
            Step::Done(Ok(PipeReader { fd: self.read }))
        }
    }

    /// What [`Pipe::describe`] writes.
    pub open spec fn description(self) -> Seq<char> {
        "Pipe { read: "@ + decimal(self.read as int) + ", write: "@ + decimal(self.write as int)
            + " }"@
    }

    /// The pipe in words, with both descriptor numbers.
    pub fn describe(&self) -> (s: String)
        ensures
            s@ == self.description(),
    {
        let mut s = String::from_str("Pipe { read: ");
        s.append(decimal_string(self.read).as_str());
        s.append(", write: ");
        s.append(decimal_string(self.write).as_str());
        s.append(" }");
        s
    }

    /// Creates a pipe: asks for the `pipe` call, then takes the two
    /// descriptors from an answer that returned 0, or the error from any
    /// other answer.
    pub fn new(replies: &[Reply]) -> (r: Step<'static, Result<Pipe, OsError>>)
        ensures
            r == Pipe::spec_new(replies@),
    {
        if replies.len() == 0 {
            return Step::Call(Syscall::Pipe);
        }
        let reply = &replies[0];
        if reply.ret == 0 {
            Step::Done(Ok(Pipe { read: reply.read_fd, write: reply.write_fd }))
        } else {
            Step::Done(Err(reply.error()))
        }
    }

    /// Keeps the read end: asks for the write end to be closed, and fails
    /// with the error of that `close` where it returned -1.
    pub fn into_read_fd(self, replies: &[Reply]) -> (r: Step<'static, Result<PipeReader, OsError>>)
        ensures
            r == self.spec_into_read_fd(replies@),
    {
        if replies.len() == 0 {
            return Step::Call(Syscall::Close { fd: self.write });
        }
        let reply = &replies[0];
        if reply.ret == -1 {
            return Step::Done(Err(reply.error()));
        }
        Step::Done(Ok(PipeReader { fd: self.read }))
    }

    /// Keeps the read end and puts it in non-blocking mode.
    pub fn into_nonblocking_read_fd(self, replies: &[Reply]) -> (r: Step<
        'static,
        Result<PipeReader, OsError>,
    >)
        ensures
            r == self.spec_into_nonblocking_read_fd(replies@),
    {
        let reader = match self.into_read_fd(replies) {
            Step::Call(call) => {
                return Step::Call(call);
            },
            Step::Done(Err(e)) => {
                return Step::Done(Err(e));
            },
            Step::Done(Ok(reader)) => reader,
        };
        if replies.len() == 1 {
            return Step::Call(Syscall::GetFlags { fd: reader.fd });
        }
        let flags: i32 = replies[1].ret;
        if flags == -1 {
            return Step::Done(Err(replies[1].error()));
        }
        if replies.len() == 2 {
            return Step::Call(Syscall::SetFlags { fd: reader.fd, flags: flags | o_nonblock() });
        }
        if replies[2].ret == -1 {
            return Step::Done(Err(replies[2].error()));
        }
        Step::Done(Ok(reader))
    }

    /// Keeps the write end: asks for the read end to be closed, and fails
    /// with the error of that `close` where it returned -1.
    pub fn into_write_fd(self, replies: &[Reply]) -> (r: Step<'static, Result<PipeWriter, OsError>>)
        ensures
            r == self.spec_into_write_fd(replies@),
    {
        if replies.len() == 0 {
            return Step::Call(Syscall::Close { fd: self.read });
        }
        let reply = &replies[0];
        if reply.ret == -1 {
            return Step::Done(Err(reply.error()));
        }
        Step::Done(Ok(PipeWriter { fd: self.write }))
    }
}

/// What [`fd_dup`] returns.
pub open spec fn spec_fd_dup(src: i32, dst: i32, replies: Seq<Reply>) -> Step<
    'static,
    Result<(), OsError>,
> {
    if replies.len() == 0 {
        Step::Call(Syscall::Dup2 { src, dst })
    } else {
        match io_result(replies[0].ret, replies[0].errno) {
            Ok(_) => Step::Done(Ok(())),
            Err(e) => Step::Done(Err(e)),
        }
    }
}

/// Makes descriptor `dst` refer to what `src` refers to: asks for the
/// `dup2`, and fails with its error where it returned a negative value.
pub fn fd_dup(src: i32, dst: i32, replies: &[Reply]) -> (r: Step<'static, Result<(), OsError>>)
    ensures
        r == spec_fd_dup(src, dst, replies@),
{
    if replies.len() == 0 {
        return Step::Call(Syscall::Dup2 { src, dst });
    }
    match to_ioresult(replies[0].ret, replies[0].errno) {
        Ok(_) => Step::Done(Ok(())),
        Err(e) => Step::Done(Err(e)),
    }
}

/// What [`redirect`] returns: the read end is closed, the write end is
/// duplicated onto `target`, and the write end itself is then given up. A
/// failed `close` of the read end or a failed `dup2` ends it with the error.
pub open spec fn spec_redirect(pipe: Pipe, target: i32, replies: Seq<Reply>) -> Step<
    'static,
    Result<(), OsError>,
> {
    match pipe.spec_into_write_fd(replies) {
        Step::Call(call) => Step::Call(call),
        Step::Done(Err(e)) => Step::Done(Err(e)),
        Step::Done(Ok(writer)) => match spec_fd_dup(writer.fd, target, replies_from(replies, 1)) {
            Step::Call(call) => Step::Call(call),
            Step::Done(Err(e)) => Step::Done(Err(e)),
            Step::Done(Ok(_)) => match writer.spec_release(replies_from(replies, 2)) {
                Step::Call(call) => Step::Call(call),
                Step::Done(_) => Step::Done(Ok(())),
            },
        },
    }
}

/// Puts the write end of `pipe` in the place of descriptor `target`, and
/// leaves the process with neither end of the pipe under its own number.
pub fn redirect(pipe: Pipe, target: i32, replies: &[Reply]) -> (r: Step<
    'static,
    Result<(), OsError>,
>)
    ensures
        r == spec_redirect(pipe, target, replies@),
{
    let writer = match pipe.into_write_fd(replies) {
        Step::Call(call) => {
            return Step::Call(call);
        },
        Step::Done(Err(e)) => {
            return Step::Done(Err(e));
        },
        Step::Done(Ok(writer)) => writer,
    };
    match fd_dup(writer.as_raw_fd(), target, rest(replies, 1)) {
        Step::Call(call) => {
            return Step::Call(call);
        },
        Step::Done(Err(e)) => {
            return Step::Done(Err(e));
        },
        Step::Done(Ok(_)) => {},
    }
    match writer.release(rest(replies, 2)) {
        Step::Call(call) => Step::Call(call),
        Step::Done(_) => Step::Done(Ok(())),
    }
}

} // verus!
