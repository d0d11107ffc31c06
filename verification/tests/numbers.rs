use proc_supervisor::pipe::Pipe;
use proc_supervisor::runtime::{App, AppParams, Launch, ReturnState, State};
use proc_supervisor::signal::{decide_signal, SignalAction};
use proc_supervisor::syscall::{Reply, Step, Syscall};

struct Silent;

impl proc_supervisor::logger::Logger for Silent {
    type Error = ();

    fn log(&self, _name: &str, _pid: i32, _bytes: &[u8]) -> Result<(), ()> {
        Ok(())
    }
}

fn job<'a>(args: &'a [&'a str]) -> AppParams<'a> {
    AppParams { cwd: None, name: "job", prog: "job", args, uid: None, gid: None, env: Vec::new() }
}

fn running(pid: i32) -> App {
    let args = ["job"];
    let params = job(&args);
    let mut replies = vec![Reply::pipe(3, 4), Reply::pipe(5, 6), Reply::returned(pid)];
    for _ in 0..6 {
        replies.push(Reply::returned(0));
    }
    match App::start(&params, &replies) {
        Launch::Started(app) => app,
        other => panic!("expected a started process, got {:?}", other),
    }
}

#[test]
fn the_child_writes_to_descriptors_one_and_two() {
    let args = ["job"];
    let params = job(&args);
    let mut replies = vec![Reply::pipe(3, 4), Reply::pipe(5, 6), Reply::returned(0)];
    replies.push(Reply::returned(0));
    match App::start(&params, &replies) {
        Launch::Call(call) => assert_eq!(call, Syscall::Dup2 { src: 4, dst: 1 }),
        other => panic!("expected a call, got {:?}", other),
    }
    replies.push(Reply::returned(0));
    replies.push(Reply::returned(0));
    replies.push(Reply::returned(0));
    match App::start(&params, &replies) {
        Launch::Call(call) => assert_eq!(call, Syscall::Dup2 { src: 6, dst: 2 }),
        other => panic!("expected a call, got {:?}", other),
    }
}

#[test]
fn the_termination_signal_is_fifteen() {
    assert_eq!(running(9).sigterm(&[]), Step::Call(Syscall::Kill { pid: 9, signal: 15 }));
}

#[test]
fn the_interrupt_is_signal_two() {
    assert_eq!(decide_signal(2, 0), SignalAction::Shutdown);
    assert_eq!(decide_signal(15, 0), SignalAction::Ignore);
    assert_eq!(decide_signal(1, 0), SignalAction::Ignore);
    assert_eq!(decide_signal(3, 0), SignalAction::Ignore);
}

#[test]
fn the_wait_does_not_hang() {
    let mut app = running(9);
    assert!(app.poll(&Silent, &[]).is_ok());
    assert!(app.poll(&Silent, &[Reply::returned(0)]).is_ok());
    assert_eq!(
        app.poll(&Silent, &[Reply::returned(0)]),
        Ok(Step::Call(Syscall::WaitPid { pid: 9, options: 1 }))
    );
}

#[test]
fn error_eleven_means_nothing_to_read_yet() {
    let mut app = running(9);
    assert!(app.poll(&Silent, &[]).is_ok());
    assert_eq!(
        app.poll(&Silent, &[Reply::failed(11)]),
        Ok(Step::Call(Syscall::Read { fd: 5, len: 1024 }))
    );
    assert!(app.poll(&Silent, &[Reply::failed(10)]).is_err());
    assert_eq!(libc::EWOULDBLOCK, 11);
}

#[test]
fn a_pipe_is_described_with_both_descriptors() {
    assert_eq!(Pipe { read: 3, write: 4 }.describe(), "Pipe { read: 3, write: 4 }");
    assert_eq!(Pipe { read: -1, write: 10 }.describe(), "Pipe { read: -1, write: 10 }");
}

#[test]
fn a_state_is_described_as_it_is_written() {
    assert_eq!(State::Running(77).describe(), "Running(77)");
    assert_eq!(
        State::Terminated(ReturnState::Completed { ret: 3 }).describe(),
        "Terminated(Completed { ret: 3 })"
    );
    assert_eq!(State::Terminated(ReturnState::Abnormal).describe(), "Terminated(Abnormal)");
    for state in [
        State::Running(1),
        State::Terminated(ReturnState::Completed { ret: 255 }),
        State::Terminated(ReturnState::Abnormal),
    ] {
        assert_eq!(state.describe(), format!("{:?}", state));
    }
}

#[test]
fn a_process_is_described_with_its_name_and_state() {
    let mut app = running(77);
    assert_eq!(app.describe(), "App { name: job, state: Running(77) }");
    assert!(app.poll(&Silent, &[]).is_ok());
    assert!(app.poll(&Silent, &[Reply::failed(11)]).is_ok());
    assert!(app.poll(&Silent, &[Reply::failed(11)]).is_ok());
    assert!(app.poll(&Silent, &[Reply::waited(77, 0x300)]).is_ok());
    assert_eq!(app.describe(), "App { name: job, state: Terminated(Completed { ret: 3 }) }");
}
