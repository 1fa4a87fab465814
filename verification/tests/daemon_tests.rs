use nexsock::cli::{create_command, Commands};
use nexsock::protocol::ServiceRef;
use nexsock::daemon::{connection_step, MessageOutcome};
use nexsock::daemon::{
    finish, handle_command, log_response_of, read_req_payload, repo_status_of, reply_for,
    socket_file_to_clear, take_finished, DaemonConfig, Operation, Outcome, Reply, SocketRef, Step,
};
use nexsock::error::Error;
use nexsock::git::types::{GitCommit, GitRepoInfo};
use nexsock::protocol::{Command, CommandPayload};

fn s(v: &str) -> String {
    v.to_string()
}

#[test]
fn commands_without_work_answer_at_once() {
    for c in [Command::Ping, Command::Shutdown, Command::GetSystemStatus, Command::Success, Command::Error] {
        assert!(matches!(handle_command(c, None), Ok(Step::Reply(CommandPayload::Empty))));
    }
}

#[test]
fn payload_commands_need_a_payload() {
    assert!(matches!(handle_command(Command::StartService, None), Err(Error::ExpectedPayload)));
    assert!(matches!(handle_command(Command::Extra, None), Err(Error::ExpectedPayload)));
    match handle_command(Command::GitLog, Some(vec![1, 2, 3])) {
        Ok(Step::Perform(Operation::Log, Some(p))) => assert_eq!(p, vec![1, 2, 3]),
        _ => panic!("expected the log operation with its payload"),
    }
    match handle_command(Command::GetServiceStdout, Some(vec![])) {
        Ok(Step::Perform(Operation::GetStdout, Some(_))) => {}
        _ => panic!("expected the stdout operation"),
    }
}

#[test]
fn listing_ignores_the_payload() {
    assert!(matches!(handle_command(Command::ListServices, None), Ok(Step::Perform(Operation::ListServices, None))));
    assert!(matches!(
        handle_command(Command::ListServices, Some(vec![9])),
        Ok(Step::Perform(Operation::ListServices, None))
    ));
}

#[test]
fn decoded_payloads() {
    assert_eq!(read_req_payload::<u32>(Ok(Some(5))).unwrap(), 5);
    assert!(matches!(read_req_payload::<u32>(Ok(None)), Err(Error::FailedToGetPayload)));
    assert!(matches!(read_req_payload::<u32>(Err(Error::Io(s("eof")))), Err(Error::Io(m)) if m == "eof"));
}

fn info() -> GitRepoInfo {
    GitRepoInfo {
        current_branch: Some(s("main")),
        current_commit: s("abc"),
        remote_url: s("u"),
        is_dirty: true,
        branches: vec![s("main")],
        ahead_count: Some(1),
        behind_count: None,
    }
}

#[test]
fn outcomes_become_responses() {
    assert!(matches!(finish(Outcome::Done), CommandPayload::Empty));
    assert!(matches!(finish(Outcome::Stdout(s("hi"))), CommandPayload::Stdout(t) if t == "hi"));
    match finish(Outcome::Repo(info())) {
        CommandPayload::GitStatus(st) => {
            assert_eq!(st.current_branch, Some(s("main")));
            assert!(st.is_dirty);
            assert_eq!(st.ahead_count, Some(1));
        }
        _ => panic!("expected a repository status"),
    }
    let st = repo_status_of(info());
    assert_eq!(st.current_commit, "abc");
    let c = GitCommit::new(s("abcdef123"), s("A"), s("a@x"), s("t"), s("m\nbody"));
    let log = log_response_of(vec![c.clone(), c]);
    assert_eq!(log.commits.len(), 2);
    assert_eq!(log.commits[0].short_hash, "abcdef1");
    assert_eq!(log.commits[1].full_message, "m\nbody");
    match finish(Outcome::Branches(vec![s("main")])) {
        CommandPayload::GitBranches(b) => assert_eq!(b.branches, vec![s("main")]),
        _ => panic!("expected branches"),
    }
}

#[test]
fn replies() {
    assert!(matches!(reply_for(Ok(CommandPayload::Empty)), Reply::Success));
    assert!(matches!(reply_for(Ok(CommandPayload::Stdout(s("x")))), Reply::SuccessWithPayload(CommandPayload::Stdout(_))));
    match reply_for(Err(Error::ExpectedPayload)) {
        Reply::Failure(p) => {
            assert_eq!(p.code, 9);
            assert_eq!(p.message, "Expected a payload to be present");
            assert!(p.details.is_none());
        }
        _ => panic!("expected a failure"),
    }
}

#[test]
fn sockets() {
    let unix = DaemonConfig::for_platform(true);
    assert_eq!(unix.socket, SocketRef::Path(s("/tmp/nexsockd.sock")));
    let other = DaemonConfig::for_platform(false);
    assert_eq!(other.socket, SocketRef::Port(50505));
    assert_eq!(socket_file_to_clear(&unix.socket).unwrap(), "/tmp/nexsockd.sock");
    match socket_file_to_clear(&other.socket) {
        Err(e) => {
            assert_eq!(e.kind(), 0xFFFF);
            assert_eq!(
                e.message(),
                "Invalid Socket configuration, Unable to clear the UNIX socket. Found `50505` but expected `<PATH>`"
            );
        }
        Ok(_) => panic!("a port is not a socket file"),
    }
}

#[test]
fn finished_connections_are_swept() {
    let rt = tokio::runtime::Runtime::new().unwrap();
    let mut connections = vec![
        rt.spawn(async {}),
        rt.spawn(std::future::pending::<()>()),
        rt.spawn(async {}),
    ];
    rt.block_on(async { tokio::time::sleep(std::time::Duration::from_millis(200)).await });
    let done = take_finished(&mut connections);
    assert_eq!(done.len(), 2);
    assert_eq!(connections.len(), 1);
    assert!(!connections[0].is_finished());
    connections[0].abort();
}

#[test]
fn client_requests_reach_an_operation() {
    let list = create_command(Commands::List).unwrap();
    assert!(matches!(handle_command(list.command(), None), Ok(Step::Perform(Operation::ListServices, None))));
    let stop = create_command(Commands::Stop { service: ServiceRef::Id(1) }).unwrap();
    assert!(matches!(handle_command(stop.command(), Some(vec![0])), Ok(Step::Perform(Operation::Stop, Some(_)))));
    assert!(matches!(handle_command(stop.command(), None), Err(Error::ExpectedPayload)));
}

#[test]
fn connection_loop_decisions() {
    assert!(connection_step(MessageOutcome::Handled).is_none());
    assert!(matches!(connection_step(MessageOutcome::Disconnected), Some(Ok(()))));
    assert!(matches!(connection_step(MessageOutcome::Failed(s("broken pipe"))), Some(Err(Error::Io(m))) if m == "broken pipe"));
}

#[test]
fn split_by_flags() {
    use_split();
}

fn use_split() {
    let mut v = vec![10, 20, 30, 40];
    let taken = nexsock::daemon::split_finished(&mut v, &vec![true, false, true, false]);
    let mut taken_sorted = taken.clone();
    taken_sorted.sort();
    let mut kept = v.clone();
    kept.sort();
    assert_eq!(taken_sorted, vec![10, 30]);
    assert_eq!(kept, vec![20, 40]);
    let mut none: Vec<i32> = vec![];
    assert!(nexsock::daemon::split_finished(&mut none, &vec![]).is_empty());
}
