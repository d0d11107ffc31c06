//! One supervised process: how it is launched, polled and told to stop.

use vstd::prelude::*;
use vstd::slice::slice_subrange;
use vstd::string::StringExecFns;
use crate::logger::Logger;
use crate::pipe::{
    redirect, replies_from, rest, spec_redirect, with_nonblocking, Pipe, PipeReader,
};
use crate::platform::{
    eagain, sigterm, spec_eagain, spec_sigterm, spec_stderr_fileno, spec_stdout_fileno,
    spec_wnohang, stderr_fileno, stdout_fileno, wnohang,
};
use crate::status::{decode_status, return_state};
use crate::syscall::{
    begins, law_verdict_is_final, run_plan, verdict_from, Reply, Step, Syscall, Verdict,
};
use crate::text::{decimal, decimal_string};
use crate::utils::{io_result, to_ioresult, OsError};

verus! {

/// Why a launch failed.
#[derive(Debug, Clone, Copy, PartialEq, Eq, Structural)]
pub enum AppErr {
    /// `fork` returned this negative value.
    ForkFailed(i32),
    /// `execve` returned, with this error. Only the child can see it.
    ExecvFailed(OsError),
    /// Another call failed: on a pipe, a descriptor, the group or user id,
    /// or the working directory.
    Io(OsError),
}

/// How a process ended.
#[derive(Debug, Clone, Copy, PartialEq, Eq, Structural)]
pub enum ReturnState {
    /// It called `exit` or returned from `main`, with this code.
    Completed { ret: i32 },
    /// It ended in any other way: killed by a signal, with or without a core
    /// dump, or reported as stopped.
    Abnormal,
}

/// Where a supervised process stands.
#[derive(Debug, Clone, Copy, PartialEq, Eq, Structural)]
pub enum State {
    /// Alive, as far as known, under this process id.
    Running(i32),
    /// Ended; this is final.
    Terminated(ReturnState),
}

impl State {
    /// What [`State::describe`] writes.
    pub open spec fn description(self) -> Seq<char> {
        match self {
            State::Running(pid) => "Running("@ + decimal(pid as int) + ")"@,
            State::Terminated(ReturnState::Completed { ret }) => "Terminated(Completed { ret: "@
                + decimal(ret as int) + " })"@,
            State::Terminated(ReturnState::Abnormal) => "Terminated(Abnormal)"@,
        }
    }

    /// The state in words.
    pub fn describe(&self) -> (s: String)
        ensures
            s@ == self.description(),
    {
        match *self {
            State::Running(pid) => {
                let mut s = String::from_str("Running(");
                s.append(decimal_string(pid).as_str());
                s.append(")");
                s
            },
            State::Terminated(ReturnState::Completed { ret }) => {
                let mut s = String::from_str("Terminated(Completed { ret: ");
                s.append(decimal_string(ret).as_str());
                s.append(" })");
                s
            },
            State::Terminated(ReturnState::Abnormal) => String::from_str("Terminated(Abnormal)"),
        }
    }
}

/// What to launch, and how.
#[derive(Debug, Clone, PartialEq, Eq)]
pub struct AppParams<'a> {
    /// The working directory to change to, if any.
    pub cwd: Option<&'a str>,
    /// The name to show in the log.
    pub name: &'a str,
    /// The program to execute.
    pub prog: &'a str,
    /// The argument vector, the program's name first.
    pub args: &'a [&'a str],
    /// The user id to take on, if any.
    pub uid: Option<u32>,
    /// The group id to take on, if any.
    pub gid: Option<u32>,
    /// The whole environment of the child, each entry `KEY=VALUE`.
    pub env: Vec<String>,
}

/// What a poll pass of a running process is waiting for.
#[derive(Debug, Clone, Copy, PartialEq, Eq, Structural)]
pub enum PollStage {
    /// Nothing: no pass is under way.
    Idle,
    /// The answer to the read of standard output.
    Stdout,
    /// The answer to the read of standard error.
    Stderr,
    /// The answer to the non-blocking wait.
    Reap,
}

/// One supervised process.
#[derive(Debug)]
pub struct App {
    name: String,
    state: State,
    stdout: PipeReader,
    stderr: PipeReader,
    stage: PollStage,
}

/// What an [`App`] holds.
pub struct AppView {
    /// The name it is logged under.
    pub name: Seq<char>,
    /// Where it stands.
    pub state: State,
    /// The descriptor on which its standard output is read.
    pub stdout: i32,
    /// The descriptor on which its standard error is read.
    pub stderr: i32,
    /// What its poll pass is waiting for.
    pub stage: PollStage,
}

impl View for App {
    type V = AppView;

    closed spec fn view(&self) -> AppView {
        AppView {
            name: self.name@,
            state: self.state,
            stdout: self.stdout.fd,
            stderr: self.stderr.fd,
            stage: self.stage,
        }
    }
}

/// Where a launch stands after the answers it was given.
#[derive(Debug)]
pub enum Launch<'a> {
    /// It needs this call performed and its answer appended.
    Call(Syscall<'a>),
    /// This process is the parent, and the child runs.
    Started(App),
    /// The launch has failed, and this process is not the child. Where a
    /// pipe could not be created or the fork failed, no child runs. Where
    /// the failure came after the fork, because a read end could not be
    /// prepared, the child runs all the same, with nobody to read it.
    Failed(AppErr),
    /// This process is the child and could not become the program. It has
    /// to end at once with this exit code; nothing else may run in it.
    Exit { code: i32, error: AppErr },
}

/// What a [`Launch`] holds.
pub enum LaunchView<'a> {
    Call(Syscall<'a>),
    Started(AppView),
    Failed(AppErr),
    Exit { code: i32, error: AppErr },
}

impl<'a> View for Launch<'a> {
    type V = LaunchView<'a>;

    open spec fn view(&self) -> LaunchView<'a> {
        match *self {
            Launch::Call(call) => LaunchView::Call(call),
            Launch::Started(app) => LaunchView::Started(app@),
            Launch::Failed(e) => LaunchView::Failed(e),
            Launch::Exit { code, error } => LaunchView::Exit { code, error },
        }
    }
}

/// The exit code of a child that could not become the program.
pub const CHILD_EXIT_CODE: i32 = 1;

/// The calls by which the child takes on its identity and its place, in the
/// order in which they are made: the group id before the user id, since a
/// process that has given up its user may no longer change its group; then
/// the working directory.
pub open spec fn preparations<'a>(params: &'a AppParams<'a>) -> Seq<Syscall<'a>> {
    (match params.gid {
        Some(gid) => seq![Syscall::SetGid { gid }],
        None => Seq::empty(),
    }) + (match params.uid {
        Some(uid) => seq![Syscall::SetUid { uid }],
        None => Seq::empty(),
    }) + (match params.cwd {
        Some(path) => seq![Syscall::Chdir { path }],
        None => Seq::empty(),
    })
}

/// The call that replaces the child by the program: the program's path, the
/// argument vector as given, and the environment as given.
pub open spec fn exec_call<'a>(params: &'a AppParams<'a>) -> Syscall<'a> {
    Syscall::Execve { prog: params.prog, argv: params.args, envp: &params.env }
}

/// The child's side of a launch. Standard output and standard error are
/// redirected to the pipes, then the preparations are made, then the program
/// is executed. Whatever fails, the outcome is an exit: the child asks for
/// calls or ends, and never reports a launch as started or failed.
pub open spec fn child_side<'a>(
    params: &'a AppParams<'a>,
    out: Pipe,
    err: Pipe,
    replies: Seq<Reply>,
) -> LaunchView<'a> {
    match spec_redirect(out, spec_stdout_fileno(), replies) {
        Step::Call(call) => LaunchView::Call(call),
        Step::Done(Err(e)) => LaunchView::Exit { code: CHILD_EXIT_CODE, error: AppErr::Io(e) },
        Step::Done(Ok(_)) => match spec_redirect(
            err,
            spec_stderr_fileno(),
            replies_from(replies, 3),
        ) {
            Step::Call(call) => LaunchView::Call(call),
            Step::Done(Err(e)) => LaunchView::Exit { code: CHILD_EXIT_CODE, error: AppErr::Io(e) },
            Step::Done(Ok(_)) => match verdict_from(
                preparations(params),
                replies_from(replies, 6),
                0,
            ) {
                Verdict::Call(call) => LaunchView::Call(call),
                Verdict::Failed(e) => LaunchView::Exit {
                    code: CHILD_EXIT_CODE,
                    error: AppErr::Io(e),
                },
                Verdict::Completed => {
                    let last = replies_from(replies, 6 + preparations(params).len() as int);
                    if last.len() == 0 {
                        LaunchView::Call(exec_call(params))
                    } else {
                        LaunchView::Exit {
                            code: CHILD_EXIT_CODE,
                            error: AppErr::ExecvFailed(last[0].spec_error()),
                        }
                    }
                },
            },
        },
    }
}

/// The parent's side of a launch: the read end of each pipe is kept and made
/// non-blocking, standard output first, and the process is then running
/// under the id that `fork` returned.
pub open spec fn parent_side<'a>(
    params: &'a AppParams<'a>,
    pid: i32,
    out: Pipe,
    err: Pipe,
    replies: Seq<Reply>,
) -> LaunchView<'a> {
    match out.spec_into_nonblocking_read_fd(replies) {
        Step::Call(call) => LaunchView::Call(call),
        Step::Done(Err(e)) => LaunchView::Failed(AppErr::Io(e)),
        Step::Done(Ok(stdout)) => match err.spec_into_nonblocking_read_fd(
            replies_from(replies, 3),
        ) {
            Step::Call(call) => LaunchView::Call(call),
            Step::Done(Err(e)) => LaunchView::Failed(AppErr::Io(e)),
            Step::Done(Ok(stderr)) => LaunchView::Started(
                AppView {
                    name: params.name@,
                    state: State::Running(pid),
                    stdout: stdout.fd,
                    stderr: stderr.fd,
                    stage: PollStage::Idle,
                },
            ),
        },
    }
}

/// A launch whose `fork` returned the negative value `ret`: all four
/// descriptors are closed, whatever those calls answer, and the launch has
/// failed.
pub open spec fn fork_failure<'a>(ret: i32, out: Pipe, err: Pipe, replies: Seq<Reply>) -> LaunchView<
    'a,
> {
    if replies.len() == 0 {
        LaunchView::Call(Syscall::Close { fd: out.read })
    } else if replies.len() == 1 {
        LaunchView::Call(Syscall::Close { fd: out.write })
    } else if replies.len() == 2 {
        LaunchView::Call(Syscall::Close { fd: err.read })
    } else if replies.len() == 3 {
        LaunchView::Call(Syscall::Close { fd: err.write })
    } else {
        LaunchView::Failed(AppErr::ForkFailed(ret))
    }
}

/// A whole launch. Both pipes are created before the fork, so that parent
/// and child hold the same descriptors; a pipe that cannot be created fails
/// the launch. What `fork` returns then decides whose side this is.
pub open spec fn launch<'a>(params: &'a AppParams<'a>, replies: Seq<Reply>) -> LaunchView<'a> {
    match Pipe::spec_new(replies) {
        Step::Call(call) => LaunchView::Call(call),
        Step::Done(Err(e)) => LaunchView::Failed(AppErr::Io(e)),
        Step::Done(Ok(out)) => match Pipe::spec_new(replies_from(replies, 1)) {
            Step::Call(call) => LaunchView::Call(call),
            Step::Done(Err(e)) => LaunchView::Failed(AppErr::Io(e)),
            Step::Done(Ok(err)) => if replies.len() == 2 {
                LaunchView::Call(Syscall::Fork)
            } else if replies[2].ret == 0 {
                child_side(params, out, err, replies_from(replies, 3))
            } else if replies[2].ret > 0 {
                parent_side(params, replies[2].ret, out, err, replies_from(replies, 3))
            } else {
                fork_failure(replies[2].ret, out, err, replies_from(replies, 3))
            },
        },
    }
}

/// Lists the preparations of the child.
fn plan_preparations<'a>(params: &'a AppParams<'a>) -> (plan: Vec<Syscall<'a>>)
    ensures
        plan@ == preparations(params),
{
    let mut plan: Vec<Syscall<'a>> = Vec::new();
    if let Some(gid) = params.gid {
        plan.push(Syscall::SetGid { gid });
    }
    if let Some(uid) = params.uid {
        plan.push(Syscall::SetUid { uid });
    }
    if let Some(path) = params.cwd {
        plan.push(Syscall::Chdir { path });
    }
    plan
}

/// The child's side of [`App::start`].
fn start_child<'a>(params: &'a AppParams<'a>, out: Pipe, err: Pipe, replies: &[Reply]) -> (r: Launch<
    'a,
>)
    ensures
        r@ == child_side(params, out, err, replies@),
{
    match redirect(out, stdout_fileno(), replies) {
        Step::Call(call) => {
            return Launch::Call(call);
        },
        Step::Done(Err(e)) => {
            return Launch::Exit { code: CHILD_EXIT_CODE, error: AppErr::Io(e) };
        },
        Step::Done(Ok(_)) => {},
    }
    match redirect(err, stderr_fileno(), rest(replies, 3)) {
        Step::Call(call) => {
            return Launch::Call(call);
        },
        Step::Done(Err(e)) => {
            return Launch::Exit { code: CHILD_EXIT_CODE, error: AppErr::Io(e) };
        },
        Step::Done(Ok(_)) => {},
    }
    let plan = plan_preparations(params);
    match run_plan(&plan, rest(replies, 6)) {
        Verdict::Call(call) => Launch::Call(call),
        Verdict::Failed(e) => Launch::Exit { code: CHILD_EXIT_CODE, error: AppErr::Io(e) },
        Verdict::Completed => {
            let last = rest(replies, 6 + plan.len());
            if last.len() == 0 {
                Launch::Call(
                    Syscall::Execve { prog: params.prog, argv: params.args, envp: &params.env },
                )
            } else {
                Launch::Exit {
                    code: CHILD_EXIT_CODE,
                    error: AppErr::ExecvFailed(last[0].error()),
                }
            }
        },
    }
}

/// The parent's side of [`App::start`].
fn start_parent<'a>(
    params: &'a AppParams<'a>,
    pid: i32,
    out: Pipe,
    err: Pipe,
    replies: &[Reply],
) -> (r: Launch<'a>)
    ensures
        r@ == parent_side(params, pid, out, err, replies@),
{
    let stdout = match out.into_nonblocking_read_fd(replies) {
        Step::Call(call) => {
            return Launch::Call(call);
        },
        Step::Done(Err(e)) => {
            return Launch::Failed(AppErr::Io(e));
        },
        Step::Done(Ok(reader)) => reader,
    };
    let stderr = match err.into_nonblocking_read_fd(rest(replies, 3)) {
        Step::Call(call) => {
            return Launch::Call(call);
        },
        Step::Done(Err(e)) => {
            return Launch::Failed(AppErr::Io(e));
        },
        Step::Done(Ok(reader)) => reader,
    };
    Launch::Started(
        App {
            name: params.name.to_owned(),
            state: State::Running(pid),
            stdout,
            stderr,
            stage: PollStage::Idle,
        },
    )
}

/// Gives both pipes up after a failed `fork`.
fn start_failed<'a>(ret: i32, out: Pipe, err: Pipe, replies: &[Reply]) -> (r: Launch<'a>)
    ensures
        r@ == fork_failure(ret, out, err, replies@),
{
    let n = replies.len();
    if n == 0 {
        Launch::Call(Syscall::Close { fd: out.read })
    } else if n == 1 {
        Launch::Call(Syscall::Close { fd: out.write })
    } else if n == 2 {
        Launch::Call(Syscall::Close { fd: err.read })
    } else if n == 3 {
        Launch::Call(Syscall::Close { fd: err.write })
    } else {
        Launch::Failed(AppErr::ForkFailed(ret))
    }
}

impl App {
    /// Launches a program as a child process, as far as the answers in
    /// `replies` reach. Answer number `i` is the answer to the call that
    /// this function asked for when it was given the first `i` answers.
    ///
    /// In the parent the launch ends as [`Launch::Started`] or
    /// [`Launch::Failed`]. In the child it ends as [`Launch::Exit`], and only
    /// if the program could not be executed.
    pub fn start<'a>(params: &'a AppParams<'a>, replies: &[Reply]) -> (r: Launch<'a>)
        ensures
            r@ == launch(params, replies@),
    {
        let out = match Pipe::new(replies) {
            Step::Call(call) => {
                return Launch::Call(call);
            },
            Step::Done(Err(e)) => {
                return Launch::Failed(AppErr::Io(e));
            },
            Step::Done(Ok(pipe)) => pipe,
        };
        let err = match Pipe::new(rest(replies, 1)) {
            Step::Call(call) => {
                return Launch::Call(call);
            },
            Step::Done(Err(e)) => {
                return Launch::Failed(AppErr::Io(e));
            },
            Step::Done(Ok(pipe)) => pipe,
        };
        if replies.len() == 2 {
            return Launch::Call(Syscall::Fork);
        }
        let ret: i32 = replies[2].ret;
        if ret == 0 {
            start_child(params, out, err, rest(replies, 3))
        } else if ret > 0 {
            start_parent(params, ret, out, err, rest(replies, 3))
        } else {
            start_failed(ret, out, err, rest(replies, 3))
        }
    }
}

/// Why a poll pass stopped short.
#[derive(Debug, PartialEq, Eq)]
pub enum PollErr<E> {
    /// The logger refused what the process had written.
    Log(E),
    /// A read failed, and not because it would have had to wait.
    Io(OsError),
    /// The wait for process `pid` returned `ret`, which is neither that
    /// process nor 0: the supervisor's record of its children is wrong.
    WaitFailed { pid: i32, ret: i32, error: OsError },
}

/// How many bytes one read asks for.
pub const READ_SIZE: usize = 1024;

/// The bytes of a read's answer that go to the logger: as many as the call
/// says it received, from the front of the buffer; none where it received
/// nothing or failed.
pub open spec fn received(reply: Reply) -> Option<Seq<u8>> {
    if reply.ret > 0 && reply.data@.len() > 0 {
        if reply.ret <= reply.data@.len() {
            Some(reply.data@.subrange(0, reply.ret as int))
        } else {
            Some(reply.data@)
        }
    } else {
        None
    }
}

/// The error of a read that failed. A read that would have had to wait has
/// not failed: there was nothing to read yet.
pub open spec fn read_failure(reply: Reply) -> Option<OsError> {
    if reply.ret < 0 && reply.errno != spec_eagain() {
        Some(reply.spec_error())
    } else {
        None
    }
}

/// What a process holds after one call of [`App::poll`]. A process that has
/// terminated stays as it is. A running one moves from stage to stage as
/// the answers come in, and only the answer to the wait, the last of a pass,
/// can change its state: to terminated, where the wait returned its process
/// id.
pub open spec fn after_poll(app: AppView, replies: Seq<Reply>) -> AppView {
    match app.state {
        State::Terminated(_) => app,
        State::Running(pid) => match app.stage {
            PollStage::Idle => AppView { stage: PollStage::Stdout, ..app },
            PollStage::Stdout => if replies.len() == 0 {
                app
            } else {
                AppView { stage: PollStage::Stderr, ..app }
            },
            PollStage::Stderr => if replies.len() == 0 {
                app
            } else {
                AppView { stage: PollStage::Reap, ..app }
            },
            PollStage::Reap => if replies.len() == 0 {
                app
            } else if replies[0].ret == pid {
                AppView {
                    state: State::Terminated(return_state(replies[0].status)),
                    stage: PollStage::Idle,
                    ..app
                }
            } else {
                AppView { stage: PollStage::Idle, ..app }
            },
        },
    }
}

/// What a process is waiting for: the call that belongs to its stage, or
/// nothing where no pass is under way or the process has terminated.
pub open spec fn pending(app: AppView) -> Step<'static, ()> {
    match app.state {
        State::Terminated(_) => Step::Done(()),
        State::Running(pid) => match app.stage {
            PollStage::Idle => Step::Done(()),
            PollStage::Stdout => Step::Call(Syscall::Read { fd: app.stdout, len: READ_SIZE }),
            PollStage::Stderr => Step::Call(Syscall::Read { fd: app.stderr, len: READ_SIZE }),
            PollStage::Reap => Step::Call(Syscall::WaitPid { pid, options: spec_wnohang() }),
        },
    }
}

/// Whether this call of [`App::poll`] takes the first of `replies` as the
/// answer to what the process was waiting for.
pub open spec fn answers(app: AppView, replies: Seq<Reply>) -> bool {
    app.state is Running && app.stage != PollStage::Idle && replies.len() > 0
}

/// The bytes that this call of [`App::poll`] hands to the logger, if any:
/// what a read received, unless the read failed.
pub open spec fn logged(app: AppView, replies: Seq<Reply>) -> Option<Seq<u8>> {
    if answers(app, replies) && (app.stage == PollStage::Stdout || app.stage == PollStage::Stderr)
        && read_failure(replies[0]) is None {
        received(replies[0])
    } else {
        None
    }
}

/// What [`App::poll`] returns where the logger has no say: because it is
/// not called, or because it accepted what it was given.
pub open spec fn poll_result<E>(app: AppView, replies: Seq<Reply>) -> Result<
    Step<'static, ()>,
    PollErr<E>,
> {
    if !answers(app, replies) {
        Ok(pending(after_poll(app, replies)))
    } else if app.stage == PollStage::Reap {
        if replies[0].ret == app.state->Running_0 || replies[0].ret == 0 {
            Ok(Step::Done(()))
        } else {
            Err(
                PollErr::WaitFailed {
                    pid: app.state->Running_0,
                    ret: replies[0].ret,
                    error: replies[0].spec_error(),
                },
            )
        }
    } else {
        match read_failure(replies[0]) {
            Some(e) => Err(PollErr::Io(e)),
            None => Ok(pending(after_poll(app, replies))),
        }
    }
}

/// What [`App::poll`] returns once the logger has answered: the logger's
/// refusal, or else what it returns where the logger has no say.
pub open spec fn poll_result_after<E>(
    app: AppView,
    replies: Seq<Reply>,
    answer: Result<(), E>,
) -> Result<Step<'static, ()>, PollErr<E>> {
    match answer {
        Ok(_) => poll_result::<E>(app, replies),
        Err(e) => Err(PollErr::Log(e)),
    }
}

/// Whether `r` is what [`App::poll`] returns for a process that held `app`
/// when it was called. Where nothing is logged, the result is fixed. Where
/// bytes are logged, the logger was handed them under the name and the
/// process id of this very process, and the result is what follows from the
/// logger's answer.
pub open spec fn poll_returns<L: Logger>(
    logger: &L,
    app: AppView,
    replies: Seq<Reply>,
    r: Result<Step<'static, ()>, PollErr<L::Error>>,
) -> bool {
    match logged(app, replies) {
        None => r == poll_result::<L::Error>(app, replies),
        Some(bytes) => exists|answer: Result<(), L::Error>|
            #[trigger] logger_answered(logger, app.name, app.state->Running_0, bytes, answer)
                && r == poll_result_after(app, replies, answer),
    }
}

/// What becomes of a logger's answer: its refusal is passed on as it is.
pub open spec fn log_outcome<E>(answer: Result<(), E>) -> Result<(), PollErr<E>> {
    match answer {
        Ok(_) => Ok(()),
        Err(e) => Err(PollErr::Log(e)),
    }
}

/// Passes a logger's answer on.
pub fn after_log<E>(answer: Result<(), E>) -> (r: Result<(), PollErr<E>>)
    ensures
        r == log_outcome(answer),
{
    match answer {
        Ok(_) => Ok(()),
        Err(e) => Err(PollErr::Log(e)),
    }
}

/// What of the answer to a read is to be logged: the bytes received, or
/// nothing where the read received none or would have had to wait; the error
/// where the read failed. The answer is the first of `replies`; with none
/// there is nothing to log.
pub fn to_log<'r>(reader: &PipeReader, replies: &'r [Reply]) -> (r: Result<
    Option<&'r [u8]>,
    OsError,
>)
    ensures
        replies@.len() == 0 ==> r matches Ok(None),
        replies@.len() > 0 ==> match read_failure(replies@[0]) {
            Some(e) => r == Err::<Option<&[u8]>, OsError>(e),
            None => match received(replies@[0]) {
                Some(bytes) => r matches Ok(Some(slice)) && slice@ == bytes,
                None => r matches Ok(None),
            },
        },
{
    match reader.read(READ_SIZE, replies) {
        Step::Call(_) => Ok(None),
        Step::Done(Err(e)) => {
            if e.code != eagain() {
                Err(e)
            } else {
                Ok(None)
            }
        },
        Step::Done(Ok(count)) => {
            let data = replies[0].data.as_slice();
            if count == 0 || data.len() == 0 {
                Ok(None)
            } else if count <= data.len() {
                Ok(Some(slice_subrange(data, 0, count)))
            } else {
                Ok(Some(data))
            }
        },
    }
}

/// Whether `answer` is an answer that the logger gave to a call of
/// [`Logger::log`] with this name, this process id and these bytes.
pub open spec fn logger_answered<L: Logger>(
    logger: &L,
    name: Seq<char>,
    pid: i32,
    bytes: Seq<u8>,
    answer: Result<(), L::Error>,
) -> bool {
    exists|text: &str, slice: &[u8]|
        text@ == name && slice@ == bytes && #[trigger] call_ensures(
            L::log,
            (logger, text, pid, slice),
            answer,
        )
}

/// Deals with the answer to a read: hands what [`to_log`] gives to the
/// logger, under the name and process id given, and returns what
/// [`after_log`] makes of the logger's answer. The logger is not called
/// where there is nothing to log; a read that failed is the error.
pub fn forward<L: Logger>(
    logger: &L,
    name: &str,
    pid: i32,
    reader: &PipeReader,
    replies: &[Reply],
) -> (r: Result<(), PollErr<L::Error>>)
    ensures
        replies@.len() == 0 ==> r is Ok,
        replies@.len() > 0 ==> match read_failure(replies@[0]) {
            Some(e) => r == Err::<(), PollErr<L::Error>>(PollErr::Io(e)),
            None => match received(replies@[0]) {
                Some(bytes) => exists|answer: Result<(), L::Error>|
                    #[trigger] logger_answered(logger, name@, pid, bytes, answer) && r
                        == log_outcome(answer),
                None => r is Ok,
            },
        },
{
    match to_log(reader, replies) {
        Err(e) => Err(PollErr::Io(e)),
        Ok(None) => Ok(()),
        Ok(Some(bytes)) => {
            let answer = logger.log(name, pid, bytes);
            proof {
                // The call just made is the witness.
                assert(logger_answered(logger, name@, pid, bytes@, answer));
            }
            after_log(answer)
        },
    }
}

/// No answers: what an operation is given to learn which call it asks for.
fn unanswered() -> (none: &'static [Reply])
    ensures
        none@.len() == 0,
{
    let none: &'static [Reply] = &[];
    none
}

/// The call that an operation asks for, if it asks for one.
fn asked<T>(step: Step<'static, T>) -> (r: Step<'static, ()>)
    ensures
        r == match step {
            Step::Call(call) => Step::<()>::Call(call),
            Step::Done(_) => Step::<()>::Done(()),
        },
{
    match step {
        Step::Call(call) => Step::Call(call),
        Step::Done(_) => Step::Done(()),
    }
}

impl App {
    /// What [`App::describe`] writes.
    pub open spec fn description(app: AppView) -> Seq<char> {
        "App { name: "@ + app.name + ", state: "@ + app.state.description() + " }"@
    }

    /// The process in words: its name and its state.
    pub fn describe(&self) -> (s: String)
        ensures
            s@ == App::description(self@),
    {
        let mut s = String::from_str("App { name: ");
        s.append(self.name.as_str());
        s.append(", state: ");
        s.append(self.state.describe().as_str());
        s.append(" }");
        s
    }

    /// The name it is logged under.
    pub fn name(&self) -> (name: &str)
        ensures
            name@ == self@.name,
    {
        self.name.as_str()
    }

    /// Where it stands.
    pub fn state(&self) -> (state: State)
        ensures
            state == self@.state,
    {
        self.state
    }

    /// What its poll pass is waiting for.
    pub fn stage(&self) -> (stage: PollStage)
        ensures
            stage == self@.stage,
    {
        self.stage
    }

    /// Whether it has not been seen to terminate.
    pub fn is_running(&self) -> (b: bool)
        ensures
            b == (self@.state is Running),
    {
        match self.state {
            State::Running(_) => true,
            State::Terminated(_) => false,
        }
    }

    /// The call that the process is waiting for, if any.
    fn request(&self) -> (r: Step<'static, ()>)
        ensures
            r == pending(self@),
    {
        match self.state {
            State::Terminated(_) => Step::Done(()),
            State::Running(pid) => match self.stage {
                PollStage::Idle => Step::Done(()),
                PollStage::Stdout => asked(self.stdout.read(READ_SIZE, unanswered())),
                PollStage::Stderr => asked(self.stderr.read(READ_SIZE, unanswered())),
                PollStage::Reap => Step::Call(Syscall::WaitPid { pid, options: wnohang() }),
            },
        }
    }

    /// Takes one step of a poll pass. A pass reads standard output, then
    /// standard error, then looks whether the process has ended, in that
    /// order; what was read goes to the logger before the next call is asked
    /// for. The first of `replies` is the answer to the call that the last
    /// step asked for; with no answer, that call is asked for again. A pass
    /// is over when the step returns [`Step::Done`].
    ///
    /// What a read received is handed to the logger under the name and the
    /// process id of this process. If the logger refuses it, the step
    /// returns the refusal; the pass can go on all the same, since the step
    /// has moved to the next stage.
    ///
    /// On a process that has terminated this does nothing.
    pub fn poll<L: Logger>(&mut self, logger: &L, replies: &[Reply]) -> (r: Result<
        Step<'static, ()>,
        PollErr<L::Error>,
    >)
        ensures
            final(self)@ == after_poll(old(self)@, replies@),
            poll_returns(logger, old(self)@, replies@, r),
    {
        let pid = match self.state {
            State::Terminated(_) => {
                return Ok(Step::Done(()));
            },
            State::Running(pid) => pid,
        };
        match self.stage {
            PollStage::Idle => {
                self.stage = PollStage::Stdout;
                return Ok(self.request());
            },
            _ => {},
        }
        if replies.len() == 0 {
            return Ok(self.request());
        }
        let reply = &replies[0];
        match self.stage {
            PollStage::Stdout => {
                self.stage = PollStage::Stderr;
                match forward(logger, self.name.as_str(), pid, &self.stdout, replies) {
                    Ok(_) => Ok(self.request()),
                    Err(e) => Err(e),
                }
            },
            PollStage::Stderr => {
                self.stage = PollStage::Reap;
                match forward(logger, self.name.as_str(), pid, &self.stderr, replies) {
                    Ok(_) => Ok(self.request()),
                    Err(e) => Err(e),
                }
            },
            _ => {
                self.stage = PollStage::Idle;
                if reply.ret == pid {
                    self.state = State::Terminated(decode_status(reply.status));
                    Ok(Step::Done(()))
                } else if reply.ret == 0 {
                    Ok(Step::Done(()))
                } else {
                    Err(PollErr::WaitFailed { pid, ret: reply.ret, error: reply.error() })
                }
            },
        }
    }

    /// What [`App::sigterm`] returns: a running process is sent the
    /// termination signal, and a negative answer is the error; a process
    /// that has terminated is left alone.
    pub open spec fn spec_sigterm(app: AppView, replies: Seq<Reply>) -> Step<
        'static,
        Result<(), OsError>,
    > {
        match app.state {
            State::Terminated(_) => Step::Done(Ok(())),
            State::Running(pid) => if replies.len() == 0 {
                Step::Call(Syscall::Kill { pid, signal: spec_sigterm() })
            } else {
                match io_result(replies[0].ret, replies[0].errno) {
                    Ok(_) => Step::Done(Ok(())),
                    Err(e) => Step::Done(Err(e)),
                }
            },
        }
    }

    /// Asks the process to end.
    pub fn sigterm(&self, replies: &[Reply]) -> (r: Step<'static, Result<(), OsError>>)
        ensures
            r == App::spec_sigterm(self@, replies@),
    {
        let pid = match self.state {
            State::Terminated(_) => {
                return Step::Done(Ok(()));
            },
            State::Running(pid) => pid,
        };
        if replies.len() == 0 {
            return Step::Call(Syscall::Kill { pid, signal: sigterm() });
        }
        match to_ioresult(replies[0].ret, replies[0].errno) {
            Ok(_) => Step::Done(Ok(())),
            Err(e) => Step::Done(Err(e)),
        }
    }
}

/// What a process holds after a series of calls of [`App::poll`], each with
/// its own answers, the first of `calls` first.
pub open spec fn after_polls(app: AppView, calls: Seq<Seq<Reply>>) -> AppView
    decreases calls.len(),
{
    if calls.len() == 0 {
        app
    } else {
        after_poll(after_polls(app, calls.drop_last()), calls.last())
    }
}

/// Whatever it is polled with, and however often, a process changes its
/// state at most once, from running to terminated: a terminated process
/// stays exactly as it is, and a running one keeps its process id. Its name
/// and its two descriptors never change.
pub proof fn law_state_only_moves_forward(app: AppView, calls: Seq<Seq<Reply>>)
    ensures
        app.state is Terminated ==> after_polls(app, calls) == app,
        after_polls(app, calls).state is Running ==> after_polls(app, calls).state == app.state,
        after_polls(app, calls).name == app.name,
        after_polls(app, calls).stdout == app.stdout,
        after_polls(app, calls).stderr == app.stderr,
    decreases calls.len(),
{
    if calls.len() > 0 {
        law_state_only_moves_forward(app, calls.drop_last());
    }
}

/// The stage in which a process takes call number `i` of a series of polls.
pub open spec fn stage_before(app: AppView, calls: Seq<Seq<Reply>>, i: int) -> PollStage {
    after_polls(app, calls.take(i)).stage
}

/// A process stays running, under the same process id, through any series
/// of polls in which no wait is answered with that process id. What the
/// reads are answered with does not matter, whatever numbers they return.
pub proof fn law_alive_stays_running(app: AppView, pid: i32, calls: Seq<Seq<Reply>>)
    requires
        app.state == State::Running(pid),
        forall|i: int|
            0 <= i < calls.len() && #[trigger] stage_before(app, calls, i) == PollStage::Reap
                && calls[i].len() > 0 ==> calls[i][0].ret != pid,
    ensures
        after_polls(app, calls).state == State::Running(pid),
    decreases calls.len(),
{
    if calls.len() > 0 {
        let earlier = calls.drop_last();
        let last = calls.len() - 1;
        assert forall|i: int|
            0 <= i < earlier.len() && #[trigger] stage_before(app, earlier, i) == PollStage::Reap
                && earlier[i].len() > 0 implies earlier[i][0].ret != pid by {
            assert(earlier.take(i) =~= calls.take(i));
            assert(stage_before(app, calls, i) == PollStage::Reap);
        }
        law_alive_stays_running(app, pid, earlier);
        assert(calls.take(last) =~= earlier);
        assert(stage_before(app, calls, last) == after_polls(app, earlier).stage);
    }
}

/// One whole pass over a running process, from the idle stage: the four
/// steps ask for the read of standard output, the read of standard error and
/// the wait, in this order. What standard output gave is handed to the
/// logger in the second step and what standard error gave in the third,
/// while the process still counts as running; only the fourth step, with the
/// answer to the wait, records that it has ended.
pub proof fn law_output_is_read_before_the_end_is_recorded(
    app: AppView,
    pid: i32,
    out: Reply,
    err: Reply,
    wait: Reply,
)
    requires
        app.state == State::Running(pid),
        app.stage == PollStage::Idle,
    ensures
        ({
            let first = after_poll(app, Seq::empty());
            let second = after_poll(first, seq![out]);
            let third = after_poll(second, seq![err]);
            let fourth = after_poll(third, seq![wait]);
            &&& pending(first) == Step::<()>::Call(Syscall::Read { fd: app.stdout, len: READ_SIZE })
            &&& pending(second) == Step::<()>::Call(
                Syscall::Read { fd: app.stderr, len: READ_SIZE },
            )
            &&& pending(third) == Step::<()>::Call(
                Syscall::WaitPid { pid, options: spec_wnohang() },
            )
            &&& pending(fourth) == Step::<()>::Done(())
            &&& read_failure(out) is None ==> logged(first, seq![out]) == received(out)
            &&& read_failure(err) is None ==> logged(second, seq![err]) == received(err)
            &&& logged(third, seq![wait]) is None
            &&& third.state == State::Running(pid)
            &&& fourth.state == if wait.ret == pid {
                State::Terminated(return_state(wait.status))
            } else {
                State::Running(pid)
            }
        }),
{
}

/// The state of a process changes only in the step that takes the answer to
/// the wait, and a pass reaches that step only through the two steps that
/// take the answers to the reads.
pub proof fn law_stages_follow_each_other(app: AppView, replies: Seq<Reply>)
    ensures
        after_poll(app, replies).state != app.state ==> app.stage == PollStage::Reap
            && replies.len() > 0,
        after_poll(app, replies).stage == PollStage::Reap && app.stage != PollStage::Reap
            ==> app.stage == PollStage::Stderr && replies.len() > 0,
        after_poll(app, replies).stage == PollStage::Stderr && app.stage != PollStage::Stderr
            ==> app.stage == PollStage::Stdout && replies.len() > 0,
{
}

/// The child never comes back into the supervisor: once `fork` has returned
/// 0, a launch asks for a call or ends in an exit with a code that is not 0,
/// whatever the answers are.
pub proof fn law_child_never_returns<'a>(params: &'a AppParams<'a>, replies: Seq<Reply>)
    requires
        replies.len() > 2,
        launch(params, replies.take(2)) == LaunchView::Call(Syscall::Fork),
        replies[2].ret == 0,
    ensures
        launch(params, replies) is Call || launch(params, replies) is Exit,
        launch(params, replies) matches LaunchView::Exit { code, .. } ==> code != 0,
{
    assert(Pipe::spec_new(replies_from(replies, 1)) == Pipe::spec_new(
        replies_from(replies.take(2), 1),
    ));
}

/// A launch that has ended has ended for good: answers that come after the
/// ones it needed change nothing of its outcome.
pub proof fn law_launch_outcome_is_final<'a>(
    params: &'a AppParams<'a>,
    short: Seq<Reply>,
    long: Seq<Reply>,
)
    requires
        begins(long, short),
        !(launch(params, short) is Call),
    ensures
        launch(params, long) == launch(params, short),
{
    // What holds of the answers holds of their parts from any position on.
    assert forall|j: int| 0 <= j <= short.len() implies begins(
        #[trigger] replies_from(long, j),
        replies_from(short, j),
    ) by {}
    let short_child = replies_from(short, 3);
    let long_child = replies_from(long, 3);
    assert forall|j: int| 0 <= j <= short_child.len() implies begins(
        #[trigger] replies_from(long_child, j),
        replies_from(short_child, j),
    ) by {}
    if short_child.len() >= 6 && !(verdict_from(
        preparations(params),
        replies_from(short_child, 6),
        0,
    ) is Call) {
        law_verdict_is_final(
            preparations(params),
            replies_from(short_child, 6),
            replies_from(long_child, 6),
            0,
        );
    }
}

/// The process is forked only once both pipes exist, so that parent and
/// child hold the same four descriptors.
pub proof fn law_fork_comes_after_both_pipes<'a>(params: &'a AppParams<'a>, replies: Seq<Reply>)
    requires
        launch(params, replies) == LaunchView::Call(Syscall::Fork),
    ensures
        replies.len() == 2,
        Pipe::spec_new(replies) is Done,
        Pipe::spec_new(replies)->Done_0 is Ok,
        Pipe::spec_new(replies_from(replies, 1)) is Done,
        Pipe::spec_new(replies_from(replies, 1))->Done_0 is Ok,
{
    // No call of the child's preparations is a fork.
    assert(preparations(params).len() <= 3);
    reveal_with_fuel(verdict_from, 4);
}

/// A launch whose `fork` fails starts no process and keeps no descriptor:
/// it asks for the four descriptors of its two pipes to be closed, and then
/// fails with what `fork` returned, whatever the closing answered.
pub proof fn law_failed_fork_releases_both_pipes<'a>(
    params: &'a AppParams<'a>,
    replies: Seq<Reply>,
)
    requires
        replies.len() >= 7,
        replies[0].ret == 0,
        replies[1].ret == 0,
        replies[2].ret < 0,
    ensures
        launch(params, replies.take(3)) == LaunchView::Call(
            Syscall::Close { fd: replies[0].read_fd },
        ),
        launch(params, replies.take(4)) == LaunchView::Call(
            Syscall::Close { fd: replies[0].write_fd },
        ),
        launch(params, replies.take(5)) == LaunchView::Call(
            Syscall::Close { fd: replies[1].read_fd },
        ),
        launch(params, replies.take(6)) == LaunchView::Call(
            Syscall::Close { fd: replies[1].write_fd },
        ),
        launch(params, replies) == LaunchView::Failed(AppErr::ForkFailed(replies[2].ret)),
{
    assert forall|k: int| 3 <= k <= replies.len() implies (#[trigger] replies_from(
        replies.take(k),
        1,
    ))[0] == replies[1] && replies_from(replies.take(k), 3).len() == k - 3 by {}
    assert(replies_from(replies, 1)[0] == replies[1]);
}

/// With every call answered with success, the parent makes these calls in
/// this order: for each pipe in turn, standard output first, it closes the
/// write end, reads the flags of the read end, and sets them again with
/// non-blocking mode added. The process is then running under the id that
/// `fork` returned, with the two read ends for its output.
pub proof fn law_parent_order<'a>(
    params: &'a AppParams<'a>,
    pid: i32,
    out: Pipe,
    err: Pipe,
    replies: Seq<Reply>,
)
    requires
        replies.len() == 6,
        forall|i: int| 0 <= i < 6 ==> (#[trigger] replies[i]).ret >= 0,
    ensures
        parent_side(params, pid, out, err, replies.take(0)) == LaunchView::Call(
            Syscall::Close { fd: out.write },
        ),
        parent_side(params, pid, out, err, replies.take(1)) == LaunchView::Call(
            Syscall::GetFlags { fd: out.read },
        ),
        parent_side(params, pid, out, err, replies.take(2)) == LaunchView::Call(
            Syscall::SetFlags { fd: out.read, flags: with_nonblocking(replies[1].ret) },
        ),
        parent_side(params, pid, out, err, replies.take(3)) == LaunchView::Call(
            Syscall::Close { fd: err.write },
        ),
        parent_side(params, pid, out, err, replies.take(4)) == LaunchView::Call(
            Syscall::GetFlags { fd: err.read },
        ),
        parent_side(params, pid, out, err, replies.take(5)) == LaunchView::Call(
            Syscall::SetFlags { fd: err.read, flags: with_nonblocking(replies[4].ret) },
        ),
        parent_side(params, pid, out, err, replies) == LaunchView::Started(
            AppView {
                name: params.name@,
                state: State::Running(pid),
                stdout: out.read,
                stderr: err.read,
                stage: PollStage::Idle,
            },
        ),
{
    assert forall|k: int, i: int| 3 <= k <= 6 && 0 <= i < k - 3 implies (#[trigger] replies_from(
        replies.take(k),
        3,
    )[i]) == replies[i + 3] by {}
    assert(replies.take(6) =~= replies);
}

/// With a group, a user and a working directory asked for, and every call
/// answered with success, the child makes these calls in this order: for
/// each pipe in turn, standard output first, it closes the read end, puts
/// the write end in the place of the standard descriptor and closes the
/// write end; then it sets the group, then the user, then the directory; the
/// last call executes the program.
pub proof fn law_child_order<'a>(
    params: &'a AppParams<'a>,
    out: Pipe,
    err: Pipe,
    replies: Seq<Reply>,
    gid: u32,
    uid: u32,
    path: &'a str,
)
    requires
        params.gid == Some(gid),
        params.uid == Some(uid),
        params.cwd == Some(path),
        replies.len() == 9,
        forall|i: int| 0 <= i < 9 ==> (#[trigger] replies[i]).ret == 0,
    ensures
        child_side(params, out, err, replies.take(0)) == LaunchView::Call(
            Syscall::Close { fd: out.read },
        ),
        child_side(params, out, err, replies.take(1)) == LaunchView::Call(
            Syscall::Dup2 { src: out.write, dst: spec_stdout_fileno() },
        ),
        child_side(params, out, err, replies.take(2)) == LaunchView::Call(
            Syscall::Close { fd: out.write },
        ),
        child_side(params, out, err, replies.take(3)) == LaunchView::Call(
            Syscall::Close { fd: err.read },
        ),
        child_side(params, out, err, replies.take(4)) == LaunchView::Call(
            Syscall::Dup2 { src: err.write, dst: spec_stderr_fileno() },
        ),
        child_side(params, out, err, replies.take(5)) == LaunchView::Call(
            Syscall::Close { fd: err.write },
        ),
        child_side(params, out, err, replies.take(6)) == LaunchView::Call(Syscall::SetGid { gid }),
        child_side(params, out, err, replies.take(7)) == LaunchView::Call(Syscall::SetUid { uid }),
        child_side(params, out, err, replies.take(8)) == LaunchView::Call(Syscall::Chdir { path }),
        child_side(params, out, err, replies) == LaunchView::Call(exec_call(params)),
{
    let plan = preparations(params);
    assert(plan =~= seq![
        Syscall::SetGid { gid },
        Syscall::SetUid { uid },
        Syscall::Chdir { path },
    ]);
    reveal_with_fuel(verdict_from, 4);
}

/// A launch that starts a process hands back what its own answers gave and
/// nothing else: the process id that `fork` returned, the read end of the
/// first pipe for standard output and that of the second for standard
/// error, and the name from its parameters. Two launches therefore share a
/// process id or a descriptor only where the operating system gave the same
/// number twice.
pub proof fn law_started_app_holds_its_own<'a>(params: &'a AppParams<'a>, replies: Seq<Reply>)
    requires
        launch(params, replies) is Started,
    ensures
        replies.len() >= 9,
        launch(params, replies) == LaunchView::Started(
            AppView {
                name: params.name@,
                state: State::Running(replies[2].ret),
                stdout: replies[0].read_fd,
                stderr: replies[1].read_fd,
                stage: PollStage::Idle,
            },
        ),
{
}

/// Where a step of a poll has bytes to log, the logger is handed exactly
/// those bytes, under the name and the process id of the polled process,
/// and its answer decides: if it accepts, the step goes on to the next call
/// of the pass, and if it refuses, the step returns that very refusal.
/// Nothing of it is swallowed.
pub proof fn law_refusal_is_passed_on<L: Logger>(
    logger: &L,
    app: AppView,
    replies: Seq<Reply>,
    r: Result<Step<'static, ()>, PollErr<L::Error>>,
)
    requires
        poll_returns(logger, app, replies, r),
        logged(app, replies) is Some,
    ensures
        exists|answer: Result<(), L::Error>|
            #[trigger] logger_answered(
                logger,
                app.name,
                app.state->Running_0,
                logged(app, replies)->Some_0,
                answer,
            ) && r == match answer {
                Ok(_) => Ok::<Step<'static, ()>, PollErr<L::Error>>(
                    pending(after_poll(app, replies)),
                ),
                Err(e) => Err(PollErr::Log(e)),
            },
        r is Ok || r is Err && r->Err_0 is Log,
{
}

/// What a step of a poll logs is what the answer to its own read carried,
/// and nothing is logged in a step that takes no answer to a read: not for a
/// process that has terminated, not before the first read is answered, and
/// not with the answer to the wait.
pub proof fn law_only_what_was_read_is_logged(app: AppView, replies: Seq<Reply>)
    ensures
        logged(app, replies) is Some ==> app.state is Running && (app.stage == PollStage::Stdout
            || app.stage == PollStage::Stderr) && replies.len() > 0 && logged(app, replies)
            == received(replies[0]),
        logged(app, replies) matches Some(bytes) ==> 0 < bytes.len() <= replies[0].data@.len()
            && bytes == replies[0].data@.take(bytes.len() as int),
{
}

/// Two launches that both start a process keep apart, as far as the
/// operating system keeps their numbers apart: where the two forks returned
/// different process ids and the four pipes gave four different read ends,
/// the two processes differ in their process id and in each of their
/// descriptors, and no step of a poll of the one asks for a call that a step
/// of a poll of the other asks for.
pub proof fn law_two_launches_keep_apart<'a, 'b>(
    first: &'a AppParams<'a>,
    first_replies: Seq<Reply>,
    second: &'b AppParams<'b>,
    second_replies: Seq<Reply>,
)
    requires
        launch(first, first_replies) is Started,
        launch(second, second_replies) is Started,
        first_replies[2].ret != second_replies[2].ret,
        first_replies[0].read_fd != first_replies[1].read_fd,
        first_replies[0].read_fd != second_replies[0].read_fd,
        first_replies[0].read_fd != second_replies[1].read_fd,
        first_replies[1].read_fd != second_replies[0].read_fd,
        first_replies[1].read_fd != second_replies[1].read_fd,
        second_replies[0].read_fd != second_replies[1].read_fd,
    ensures
        ({
            let a = launch(first, first_replies)->Started_0;
            let b = launch(second, second_replies)->Started_0;
            &&& a.state is Running
            &&& b.state is Running
            &&& a.state != b.state
            &&& a.stdout != a.stderr
            &&& a.stdout != b.stdout
            &&& a.stdout != b.stderr
            &&& a.stderr != b.stdout
            &&& a.stderr != b.stderr
            &&& b.stdout != b.stderr
            &&& forall|x: Seq<Seq<Reply>>, y: Seq<Seq<Reply>>|
                pending(#[trigger] after_polls(a, x)) is Call ==> pending(after_polls(a, x))
                    != pending(#[trigger] after_polls(b, y))
        }),
{
    law_started_app_holds_its_own(first, first_replies);
    law_started_app_holds_its_own(second, second_replies);
    let a = launch(first, first_replies)->Started_0;
    let b = launch(second, second_replies)->Started_0;
    assert forall|x: Seq<Seq<Reply>>, y: Seq<Seq<Reply>>|
        pending(#[trigger] after_polls(a, x)) is Call implies pending(after_polls(a, x))
            != pending(#[trigger] after_polls(b, y)) by {
        law_state_only_moves_forward(a, x);
        law_state_only_moves_forward(b, y);
    }
}

/// The calls that a poll pass asks for name the process's own descriptors
/// and its own process id, so that two processes whose numbers differ never
/// ask for the same call.
pub proof fn law_no_cross_talk(a: AppView, b: AppView)
    requires
        a.state is Running,
        b.state is Running,
        a.state != b.state,
        a.stdout != b.stdout,
        a.stdout != b.stderr,
        a.stderr != b.stdout,
        a.stderr != b.stderr,
    ensures
        pending(a) is Call ==> pending(a) != pending(b),
{
}

} // verus!
