use std::cell::RefCell;

use proc_supervisor::logger::Logger;
use proc_supervisor::parser::AppConfig;
use proc_supervisor::runtime::{App, AppErr, Launch, ReturnState, State};
use proc_supervisor::supervisor::{Directive, Phase, Runtime, GRACEFUL_EXIT_CODE};
use proc_supervisor::syscall::{Reply, Step, Syscall};
use proc_supervisor::utils::OsError;

struct Recorder {
    entries: RefCell<Vec<(String, i32, Vec<u8>)>>,
}

impl Logger for Recorder {
    type Error = String;

    fn log(&self, name: &str, pid: i32, bytes: &[u8]) -> Result<(), String> {
        self.entries.borrow_mut().push((name.to_string(), pid, bytes.to_vec()));
        Ok(())
    }
}

fn sink() -> Recorder {
    Recorder { entries: RefCell::new(Vec::new()) }
}

fn entry(command: &str) -> AppConfig {
    AppConfig {
        name: None,
        command: String::from(command),
        workdir: None,
        uid: None,
        gid: None,
        env: None,
    }
}

/// Launches an entry as the parent sees it: the pipes get descriptors from
/// `fd` on, the child gets `pid`.
fn launch(config: &AppConfig, fd: i32, pid: i32) -> App {
    let parts = config.command_parts();
    let params = config.params(&parts, config.environment());
    let mut replies = vec![Reply::pipe(fd, fd + 1), Reply::pipe(fd + 2, fd + 3), Reply::returned(pid)];
    for _ in 0..6 {
        replies.push(Reply::returned(0));
    }
    match App::start(&params, &replies) {
        Launch::Started(app) => app,
        other => panic!("expected a started process, got {:?}", other),
    }
}

/// Polls process `index` through one pass; `wait` answers the wait.
fn pass(rt: &mut Runtime, index: usize, log: &Recorder, wait: Reply) {
    let mut answer: Vec<Reply> = Vec::new();
    loop {
        match rt.poll(index, log, &answer) {
            Ok(Step::Call(Syscall::Read { .. })) => answer = vec![Reply::failed(libc::EAGAIN)],
            Ok(Step::Call(Syscall::WaitPid { .. })) => answer = vec![wait.clone()],
            Ok(Step::Call(other)) => panic!("a poll asked for {:?}", other),
            Ok(Step::Done(())) => break,
            Err(e) => panic!("a poll failed: {:?}", e),
        }
    }
}

#[test]
fn a_new_supervisor_has_no_process_and_nothing_to_wait_for() {
    let mut rt = Runtime::init();
    assert!(rt.apps.is_empty());
    assert_eq!(rt.phase, Phase::Supervising);
    assert!(rt.all_terminated());
    assert_eq!(rt.decide(false), Directive::Exit { code: 0 });
}

#[test]
fn true_and_false_both_complete_and_the_loop_ends_by_itself() {
    let log = sink();
    let mut rt = Runtime::init();
    rt.apps.push(launch(&entry("true"), 3, 100));
    rt.apps.push(launch(&entry("false"), 7, 101));
    assert_eq!(rt.apps[0].name(), "true");
    assert_eq!(rt.apps[1].name(), "false");
    assert!(!rt.all_terminated());

    pass(&mut rt, 0, &log, Reply::waited(0, 0));
    pass(&mut rt, 1, &log, Reply::waited(0, 0));
    assert_eq!(rt.decide(false), Directive::Continue);

    pass(&mut rt, 0, &log, Reply::waited(100, libc::W_EXITCODE(0, 0)));
    pass(&mut rt, 1, &log, Reply::waited(0, 0));
    assert_eq!(rt.apps[0].state(), State::Terminated(ReturnState::Completed { ret: 0 }));
    assert_eq!(rt.apps[1].state(), State::Running(101));
    assert_eq!(rt.decide(false), Directive::Continue);

    pass(&mut rt, 0, &log, Reply::waited(100, 0));
    pass(&mut rt, 1, &log, Reply::waited(101, libc::W_EXITCODE(1, 0)));
    assert_eq!(rt.apps[0].state(), State::Terminated(ReturnState::Completed { ret: 0 }));
    assert_eq!(rt.apps[1].state(), State::Terminated(ReturnState::Completed { ret: 1 }));
    assert!(rt.all_terminated());
    assert_eq!(rt.decide(false), Directive::Exit { code: GRACEFUL_EXIT_CODE });
    assert_eq!(rt.phase, Phase::Supervising);
}

#[test]
fn a_program_that_does_not_exist_is_launched_and_found_dead() {
    let config = entry("/bin/does-not-exist");
    let parts = config.command_parts();
    let params = config.params(&parts, config.environment());
    assert_eq!(params.name, "does-not-exist");

    // The child: the exec fails, and the child ends at once.
    let mut child = vec![Reply::pipe(3, 4), Reply::pipe(5, 6), Reply::returned(0)];
    for _ in 0..6 {
        child.push(Reply::returned(0));
    }
    let env: Vec<String> = Vec::new();
    match App::start(&params, &child) {
        Launch::Call(call) => assert_eq!(
            call,
            Syscall::Execve { prog: "/bin/does-not-exist", argv: &["/bin/does-not-exist"], envp: &env }
        ),
        other => panic!("expected the exec, got {:?}", other),
    }
    child.push(Reply::failed(libc::ENOENT));
    match App::start(&params, &child) {
        Launch::Exit { code, error } => {
            assert_eq!(code, 1);
            assert_eq!(error, AppErr::ExecvFailed(OsError { code: libc::ENOENT }));
        }
        other => panic!("the child came back as {:?}", other),
    }

    // The parent: the launch succeeds, and the next round finds the child
    // gone with a code that is not 0.
    let log = sink();
    let mut rt = Runtime::init();
    rt.apps.push(launch(&config, 3, 100));
    assert!(rt.apps[0].is_running());
    pass(&mut rt, 0, &log, Reply::waited(100, libc::W_EXITCODE(1, 0)));
    assert_eq!(rt.apps[0].state(), State::Terminated(ReturnState::Completed { ret: 1 }));
    assert_eq!(rt.apps.len(), 1);
    assert_eq!(rt.decide(false), Directive::Exit { code: 0 });
}

#[test]
fn an_interrupt_starts_one_termination_round() {
    let log = sink();
    let mut rt = Runtime::init();
    rt.apps.push(launch(&entry("sleep 100"), 3, 100));
    rt.apps.push(launch(&entry("true"), 7, 101));
    rt.apps.push(launch(&entry("sleep 200"), 11, 102));
    pass(&mut rt, 1, &log, Reply::waited(101, 0));
    assert_eq!(rt.decide(false), Directive::Continue);
    assert_eq!(rt.phase, Phase::Supervising);

    assert_eq!(rt.decide(true), Directive::Terminate);
    assert_eq!(rt.phase, Phase::ShuttingDown);
    let calls: Vec<Step<Result<(), OsError>>> = rt.apps.iter().map(|app| app.sigterm(&[])).collect();
    assert_eq!(
        calls,
        vec![
            Step::Call(Syscall::Kill { pid: 100, signal: libc::SIGTERM }),
            Step::Done(Ok(())),
            Step::Call(Syscall::Kill { pid: 102, signal: libc::SIGTERM }),
        ]
    );

    // The interrupt stays set; the round is not repeated.
    assert_eq!(rt.decide(true), Directive::Continue);
    assert_eq!(rt.decide(true), Directive::Continue);
    assert_eq!(rt.phase, Phase::ShuttingDown);

    pass(&mut rt, 0, &log, Reply::waited(100, libc::SIGTERM));
    assert_eq!(rt.decide(true), Directive::Continue);
    pass(&mut rt, 2, &log, Reply::waited(102, libc::SIGTERM));
    assert_eq!(rt.apps[0].state(), State::Terminated(ReturnState::Abnormal));
    assert_eq!(rt.apps[2].state(), State::Terminated(ReturnState::Abnormal));
    assert_eq!(rt.decide(true), Directive::Exit { code: 0 });
}

#[test]
fn polling_one_process_leaves_the_others_alone() {
    let log = sink();
    let mut rt = Runtime::init();
    rt.apps.push(launch(&entry("one"), 3, 100));
    rt.apps.push(launch(&entry("two"), 7, 101));
    assert_eq!(rt.poll(0, &log, &[]), Ok(Step::Call(Syscall::Read { fd: 3, len: 1024 })));
    assert_eq!(rt.poll(1, &log, &[]), Ok(Step::Call(Syscall::Read { fd: 7, len: 1024 })));
    let mut data = b"from one".to_vec();
    data.resize(1024, 0);
    assert_eq!(
        rt.poll(0, &log, &[Reply::read(8, data)]),
        Ok(Step::Call(Syscall::Read { fd: 5, len: 1024 }))
    );
    assert_eq!(rt.poll(1, &log, &[]), Ok(Step::Call(Syscall::Read { fd: 7, len: 1024 })));
    assert_eq!(log.entries.borrow().clone(), vec![(String::from("one"), 100, b"from one".to_vec())]);
    assert_eq!(rt.apps[1].state(), State::Running(101));
}
