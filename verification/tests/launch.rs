use proc_supervisor::runtime::{App, AppErr, AppParams, Launch, PollStage, State, CHILD_EXIT_CODE};
use proc_supervisor::syscall::{Reply, Step, Syscall};
use proc_supervisor::utils::OsError;

fn plain<'a>(args: &'a [&'a str]) -> AppParams<'a> {
    AppParams { cwd: None, name: "job", prog: args[0], args, uid: None, gid: None, env: Vec::new() }
}

fn call<'a>(launch: Launch<'a>) -> Syscall<'a> {
    match launch {
        Launch::Call(call) => call,
        other => panic!("expected a call, got {:?}", other),
    }
}

fn started(launch: Launch<'_>) -> App {
    match launch {
        Launch::Started(app) => app,
        other => panic!("expected a started process, got {:?}", other),
    }
}

fn failed(launch: Launch<'_>) -> AppErr {
    match launch {
        Launch::Failed(e) => e,
        other => panic!("expected a failed launch, got {:?}", other),
    }
}

fn exit(launch: Launch<'_>) -> (i32, AppErr) {
    match launch {
        Launch::Exit { code, error } => (code, error),
        other => panic!("expected an exit, got {:?}", other),
    }
}

/// The answers up to and including the fork: pipes (3, 4) and (5, 6).
fn forked(ret: i32) -> Vec<Reply> {
    vec![Reply::pipe(3, 4), Reply::pipe(5, 6), Reply::returned(ret)]
}

#[test]
fn launch_creates_both_pipes_before_it_forks() {
    let args = ["true"];
    let params = plain(&args);
    let mut replies: Vec<Reply> = Vec::new();
    assert_eq!(call(App::start(&params, &replies)), Syscall::Pipe);
    replies.push(Reply::pipe(3, 4));
    assert_eq!(call(App::start(&params, &replies)), Syscall::Pipe);
    replies.push(Reply::pipe(5, 6));
    assert_eq!(call(App::start(&params, &replies)), Syscall::Fork);
}

#[test]
fn parent_keeps_the_read_ends_and_makes_them_nonblocking() {
    let args = ["true"];
    let params = plain(&args);
    let mut replies = forked(77);
    assert_eq!(call(App::start(&params, &replies)), Syscall::Close { fd: 4 });
    replies.push(Reply::returned(0));
    assert_eq!(call(App::start(&params, &replies)), Syscall::GetFlags { fd: 3 });
    replies.push(Reply::returned(2));
    assert_eq!(
        call(App::start(&params, &replies)),
        Syscall::SetFlags { fd: 3, flags: 2 | libc::O_NONBLOCK }
    );
    replies.push(Reply::returned(0));
    assert_eq!(call(App::start(&params, &replies)), Syscall::Close { fd: 6 });
    replies.push(Reply::returned(0));
    assert_eq!(call(App::start(&params, &replies)), Syscall::GetFlags { fd: 5 });
    replies.push(Reply::returned(0));
    assert_eq!(
        call(App::start(&params, &replies)),
        Syscall::SetFlags { fd: 5, flags: libc::O_NONBLOCK }
    );
    replies.push(Reply::returned(0));
    let app = started(App::start(&params, &replies));
    assert_eq!(app.name(), "job");
    assert_eq!(app.state(), State::Running(77));
    assert_eq!(app.stage(), PollStage::Idle);
    assert!(app.is_running());
}

#[test]
fn a_finished_launch_ignores_further_answers() {
    let args = ["true"];
    let params = plain(&args);
    let mut replies = forked(77);
    for _ in 0..6 {
        replies.push(Reply::returned(0));
    }
    replies.push(Reply::failed(libc::EBADF));
    let app = started(App::start(&params, &replies));
    assert_eq!(app.state(), State::Running(77));
}

#[test]
fn child_redirects_drops_privileges_changes_directory_and_executes_in_this_order() {
    let args = ["/bin/sleep", "5"];
    let env = vec![String::from("PATH=/bin"), String::from("LANG=C")];
    let params = AppParams {
        cwd: Some("/tmp"),
        name: "sleeper",
        prog: "/bin/sleep",
        args: &args,
        uid: Some(1000),
        gid: Some(100),
        env: env.clone(),
    };
    let mut replies = forked(0);
    let expected = [
        Syscall::Close { fd: 3 },
        Syscall::Dup2 { src: 4, dst: libc::STDOUT_FILENO },
        Syscall::Close { fd: 4 },
        Syscall::Close { fd: 5 },
        Syscall::Dup2 { src: 6, dst: libc::STDERR_FILENO },
        Syscall::Close { fd: 6 },
        Syscall::SetGid { gid: 100 },
        Syscall::SetUid { uid: 1000 },
        Syscall::Chdir { path: "/tmp" },
        Syscall::Execve { prog: "/bin/sleep", argv: &args, envp: &env },
    ];
    for wanted in expected.iter() {
        assert_eq!(call(App::start(&params, &replies)), *wanted);
        replies.push(Reply::returned(0));
    }
}

#[test]
fn child_without_options_executes_right_after_the_redirection() {
    let args = ["true"];
    let params = plain(&args);
    let mut replies = forked(0);
    for _ in 0..6 {
        replies.push(Reply::returned(0));
    }
    let env: Vec<String> = Vec::new();
    assert_eq!(
        call(App::start(&params, &replies)),
        Syscall::Execve { prog: "true", argv: &args, envp: &env }
    );
}

#[test]
fn child_whose_exec_returns_exits_with_a_nonzero_code() {
    let args = ["/bin/does-not-exist"];
    let params = plain(&args);
    let mut replies = forked(0);
    for _ in 0..6 {
        replies.push(Reply::returned(0));
    }
    replies.push(Reply::failed(libc::ENOENT));
    let (code, error) = exit(App::start(&params, &replies));
    assert_eq!(code, 1);
    assert_eq!(code, CHILD_EXIT_CODE);
    assert_eq!(error, AppErr::ExecvFailed(OsError { code: libc::ENOENT }));
}

#[test]
fn child_whose_exec_returns_zero_still_exits() {
    let args = ["true"];
    let params = plain(&args);
    let mut replies = forked(0);
    for _ in 0..7 {
        replies.push(Reply::returned(0));
    }
    let (code, error) = exit(App::start(&params, &replies));
    assert_eq!(code, 1);
    assert_eq!(error, AppErr::ExecvFailed(OsError { code: 0 }));
}

#[test]
fn child_that_cannot_set_its_group_exits_before_it_sets_its_user() {
    let args = ["true"];
    let mut params = plain(&args);
    params.gid = Some(100);
    params.uid = Some(1000);
    let mut replies = forked(0);
    for _ in 0..6 {
        replies.push(Reply::returned(0));
    }
    assert_eq!(call(App::start(&params, &replies)), Syscall::SetGid { gid: 100 });
    replies.push(Reply::failed(libc::EPERM));
    let (code, error) = exit(App::start(&params, &replies));
    assert_eq!(code, 1);
    assert_eq!(error, AppErr::Io(OsError { code: libc::EPERM }));
}

#[test]
fn child_that_cannot_change_directory_exits() {
    let args = ["true"];
    let mut params = plain(&args);
    params.cwd = Some("/nowhere");
    let mut replies = forked(0);
    for _ in 0..6 {
        replies.push(Reply::returned(0));
    }
    assert_eq!(call(App::start(&params, &replies)), Syscall::Chdir { path: "/nowhere" });
    replies.push(Reply::failed(libc::ENOENT));
    let (code, error) = exit(App::start(&params, &replies));
    assert_eq!(code, 1);
    assert_eq!(error, AppErr::Io(OsError { code: libc::ENOENT }));
}

#[test]
fn child_that_cannot_redirect_exits() {
    let args = ["true"];
    let params = plain(&args);
    let mut replies = forked(0);
    replies.push(Reply::returned(0));
    replies.push(Reply::failed(libc::EBADF));
    let (code, error) = exit(App::start(&params, &replies));
    assert_eq!(code, 1);
    assert_eq!(error, AppErr::Io(OsError { code: libc::EBADF }));

    let mut replies = forked(0);
    replies.push(Reply::failed(libc::EIO));
    let (code, error) = exit(App::start(&params, &replies));
    assert_eq!(code, 1);
    assert_eq!(error, AppErr::Io(OsError { code: libc::EIO }));
}

#[test]
fn child_goes_on_when_giving_up_a_duplicated_write_end_fails() {
    let args = ["true"];
    let params = plain(&args);
    let mut replies = forked(0);
    replies.push(Reply::returned(0));
    replies.push(Reply::returned(1));
    replies.push(Reply::failed(libc::EIO));
    assert_eq!(call(App::start(&params, &replies)), Syscall::Close { fd: 5 });
}

#[test]
fn child_never_ends_as_started_or_failed() {
    let args = ["true"];
    let mut params = plain(&args);
    params.gid = Some(1);
    params.uid = Some(2);
    params.cwd = Some("/");
    for failing in 0..10 {
        let mut replies = forked(0);
        for i in 0..10 {
            replies.push(if i == failing { Reply::failed(libc::EIO) } else { Reply::returned(0) });
            match App::start(&params, &replies) {
                Launch::Call(_) => {}
                Launch::Exit { code, .. } => assert_ne!(code, 0),
                other => panic!("the child came back as {:?}", other),
            }
        }
    }
}

#[test]
fn launch_fails_when_a_pipe_cannot_be_created() {
    let args = ["true"];
    let params = plain(&args);
    let mut refused = Reply::failed(libc::EMFILE);
    refused.ret = -1;
    let replies = vec![refused.clone()];
    assert_eq!(failed(App::start(&params, &replies)), AppErr::Io(OsError { code: libc::EMFILE }));
    let replies = vec![Reply::pipe(3, 4), Reply::failed(libc::ENFILE)];
    assert_eq!(failed(App::start(&params, &replies)), AppErr::Io(OsError { code: libc::ENFILE }));
}

#[test]
fn failed_fork_releases_both_pipes_and_fails_the_launch() {
    let args = ["true"];
    let params = plain(&args);
    let mut replies = vec![Reply::pipe(3, 4), Reply::pipe(5, 6), Reply::failed(libc::EAGAIN)];
    for fd in [3, 4, 5, 6] {
        assert_eq!(call(App::start(&params, &replies)), Syscall::Close { fd });
        replies.push(Reply::failed(libc::EBADF));
    }
    assert_eq!(failed(App::start(&params, &replies)), AppErr::ForkFailed(-1));
}

#[test]
fn parent_fails_the_launch_when_a_read_end_cannot_be_prepared() {
    let args = ["true"];
    let params = plain(&args);
    for failing in 0..6 {
        let mut replies = forked(77);
        for i in 0..6 {
            if i == failing {
                replies.push(Reply::failed(libc::EBADF));
                break;
            }
            replies.push(Reply::returned(0));
        }
        assert_eq!(
            failed(App::start(&params, &replies)),
            AppErr::Io(OsError { code: libc::EBADF })
        );
    }
}

#[test]
fn two_launches_keep_their_own_process_ids_and_descriptors() {
    let first_args = ["true"];
    let second_args = ["false"];
    let first = plain(&first_args);
    let mut second = plain(&second_args);
    second.name = "other";
    let mut first_replies = vec![Reply::pipe(3, 4), Reply::pipe(5, 6), Reply::returned(100)];
    let mut second_replies = vec![Reply::pipe(4, 7), Reply::pipe(6, 8), Reply::returned(101)];
    for _ in 0..6 {
        first_replies.push(Reply::returned(0));
        second_replies.push(Reply::returned(0));
    }
    let a = started(App::start(&first, &first_replies));
    let b = started(App::start(&second, &second_replies));
    assert_eq!(a.state(), State::Running(100));
    assert_eq!(b.state(), State::Running(101));
    assert_eq!(a.name(), "job");
    assert_eq!(b.name(), "other");
    assert_eq!(a.sigterm(&[]), Step::Call(Syscall::Kill { pid: 100, signal: libc::SIGTERM }));
    assert_eq!(b.sigterm(&[]), Step::Call(Syscall::Kill { pid: 101, signal: libc::SIGTERM }));
}
