use nexsock::config_manager::{
    config_id_of, config_link, config_payload_of, dependency_ids, dependency_record,
    dependency_to_remove, service_for_dependencies, updated_config,
};
use nexsock::error::Error;
use nexsock::git::auth::GitAuth;
use nexsock::git::types::GitRepoInfo;
use nexsock::models::{config_record_of, service_record_of, ServiceConfig, ServiceDependency, ServiceRecord};
use nexsock::protocol::{
    AddServicePayload, ConfigFormat, ListServicesResponse, ServiceConfigPayload, ServiceInfo,
    ServiceRef, ServiceState,
};
use nexsock::service_manager::{
    apply_states, check_port, chunk_text, ensure_repo_clone, exit_state, found_service,
    git_auth_for, git_info_after, observed_state, port_not_freed, port_wait_step, repo_prep,
    restart_env, run_command_of, should_remove, spawn_command, start_checks_with,
    stdout_of, stop_before_remove, GitOp, GitService, LogBuffer, LogEntry, Lookup, PortWait,
    ProcessProbe, RepoPrep,
};
use nexsock::traits::{FromDbResult, VecExt};
use nexsock::config_manager::{check_new_dependency, reachable_from};
use nexsock::service_manager::ProcessTable;
use nexsock::service_manager::{cleanup_failed, Termination, TerminationStep, WaitOutcome};

fn s(v: &str) -> String {
    v.to_string()
}

fn generic_text(e: Error) -> String {
    match e {
        Error::Generic(m) => m,
        other => panic!("expected a generic error, got {:?}", other),
    }
}

fn record() -> ServiceRecord {
    ServiceRecord::new_with_git(s("api"), s("git@x:api.git"), 8080, s("/srv/api"), Some(4), None, None, Some(s("token")))
}

#[test]
fn process_states() {
    assert_eq!(exit_state(ServiceState::Running, Some(true)), ServiceState::Stopped);
    assert_eq!(exit_state(ServiceState::Running, Some(false)), ServiceState::Failed);
    assert_eq!(exit_state(ServiceState::Starting, None), ServiceState::Starting);
    assert_eq!(observed_state(ProcessProbe::NotTracked), ServiceState::Stopped);
    assert_eq!(observed_state(ProcessProbe::Exited(true)), ServiceState::Stopped);
    assert_eq!(observed_state(ProcessProbe::Exited(false)), ServiceState::Failed);
    assert_eq!(observed_state(ProcessProbe::StillRunning), ServiceState::Running);
    assert_eq!(observed_state(ProcessProbe::Unknown), ServiceState::Failed);
}

#[test]
fn cleanup_rules() {
    assert!(should_remove(None, false));
    assert!(should_remove(Some(ServiceState::Failed), false));
    assert!(!should_remove(Some(ServiceState::Starting), true));
    assert!(!should_remove(Some(ServiceState::Running), true));
    assert!(should_remove(Some(ServiceState::Stopped), true));
    assert!(!should_remove(Some(ServiceState::Stopped), false));
    assert!(stop_before_remove(ServiceState::Running));
    assert!(stop_before_remove(ServiceState::Starting));
    assert!(!stop_before_remove(ServiceState::Failed));
}

#[test]
fn listed_states_are_replaced() {
    let mut list = ListServicesResponse {
        services: vec![
            ServiceInfo { id: 1, name: s("a"), state: ServiceState::Stopped, port: 1, has_dependencies: false },
            ServiceInfo { id: 2, name: s("b"), state: ServiceState::Stopped, port: 2, has_dependencies: true },
        ],
    };
    apply_states(&mut list, &vec![ServiceState::Running, ServiceState::Failed]);
    assert_eq!(list.services[0].state, ServiceState::Running);
    assert_eq!(list.services[1].state, ServiceState::Failed);
    assert_eq!(list.services[1].name, "b");
}

#[test]
fn port_waiting_gives_up_after_ten_checks() {
    assert_eq!(port_wait_step(0, true), PortWait::Freed);
    assert_eq!(port_wait_step(0, false), PortWait::Retry(1));
    assert_eq!(port_wait_step(8, false), PortWait::Retry(9));
    assert_eq!(port_wait_step(9, false), PortWait::GiveUp);
    let mut done = 0;
    let mut checks = 0;
    loop {
        checks += 1;
        match port_wait_step(done, false) {
            PortWait::Retry(n) => done = n,
            PortWait::GiveUp => break,
            PortWait::Freed => panic!("the port never frees"),
        }
    }
    assert_eq!(checks, 10);
    assert_eq!(generic_text(port_not_freed()), "Failed to free port after service termination");
    let step = check_port(9, 0);
    assert!(step == PortWait::Freed || step == PortWait::GiveUp);
}

#[test]
fn start_rules() {
    assert_eq!(generic_text(start_checks_with(false, ServiceState::Stopped).unwrap_err()), "Port is already in use");
    assert_eq!(generic_text(start_checks_with(true, ServiceState::Running).unwrap_err()), "Service is already running");
    assert!(start_checks_with(true, ServiceState::Failed).is_ok());
    assert_eq!(
        generic_text(found_service(None, &ServiceRef::Name(s("api"))).unwrap_err()),
        "No Service found with reference api"
    );
    assert_eq!(found_service(Some(record()), &ServiceRef::Id(1)).unwrap().name, "api");
    assert_eq!(generic_text(run_command_of(None).unwrap_err()), "Service has no configuration");
    let no_cmd = ServiceConfig::new(s(".env"), ConfigFormat::Env, None);
    assert_eq!(generic_text(run_command_of(Some(no_cmd)).unwrap_err()), "Service has no run command");
    let cfg = ServiceConfig::new(s(".env"), ConfigFormat::Env, Some(s("cargo run")));
    assert_eq!(run_command_of(Some(cfg)).unwrap(), "cargo run");
    assert_eq!(spawn_command("cargo run"), (s("sh"), vec![s("-c"), s("cargo run")]));
}

#[test]
fn restart_environment() {
    let old = vec![(s("A"), s("1"))];
    assert_eq!(restart_env(vec![], Lookup::Present(old.clone())).unwrap(), Some(old.clone()));
    let new = vec![(s("B"), s("2"))];
    assert_eq!(restart_env(new.clone(), Lookup::Present(old.clone())).unwrap(), Some(new));
    assert_eq!(restart_env(vec![], Lookup::Present(vec![])).unwrap(), Some(vec![]));
    assert_eq!(restart_env(vec![], Lookup::Absent).unwrap(), None);
    assert!(matches!(restart_env(vec![], Lookup::Locked), Err(Error::LockError)));
}

fn entry(t: i64, c: &str) -> LogEntry {
    LogEntry { timestamp_millis: t, content: s(c) }
}

#[test]
fn log_buffer_keeps_the_last_chunks() {
    let mut b = LogBuffer::new();
    assert_eq!(b.len(), 0);
    b.push(entry(1, "a"));
    b.push(entry(2, "b\n"));
    assert_eq!(b.text(), "ab\n");
    for i in 0..10_005 {
        b.push(entry(i, "x"));
    }
    assert_eq!(b.len(), 10_000);
    b.push(entry(0, "end"));
    assert_eq!(b.len(), 10_000);
    assert!(b.text().ends_with("xend"));
    assert_eq!(b.text().len(), 9_999 + 3);
}

#[test]
fn output_lookup() {
    let mut b = LogBuffer::new();
    b.push(entry(1, "hello "));
    b.push(entry(2, "world"));
    assert_eq!(stdout_of(Lookup::Present(&b)).unwrap(), "hello world");
    assert_eq!(generic_text(stdout_of(Lookup::Absent).unwrap_err()), "Service is not running");
    assert_eq!(generic_text(stdout_of(Lookup::Locked).unwrap_err()), "Service was locked, unable to get stdout");
    assert_eq!(chunk_text(b"ok\n"), Some(s("ok\n")));
    assert_eq!(chunk_text(&[0xff, 0xfe]), None);
}

#[test]
fn git_rules() {
    assert_eq!(git_auth_for(&Some(s("token"))), GitAuth::SshAgent { username: s("git") });
    assert_eq!(git_auth_for(&None), GitAuth::SshAgent { username: s("git") });
    assert!(matches!(repo_prep(GitOp::CheckoutBranch, true, false, "/r", &None), Ok(RepoPrep::Proceed)));
    assert!(matches!(repo_prep(GitOp::CheckoutCommit, false, false, "/r", &None), Ok(RepoPrep::CloneFirst(None))));
    assert!(matches!(repo_prep(GitOp::EnsureRepo, true, true, "/r", &Some(s("dev"))), Ok(RepoPrep::NothingToDo)));
    match repo_prep(GitOp::EnsureRepo, true, false, "/r", &Some(s("dev"))) {
        Ok(RepoPrep::CloneFirst(Some(b))) => assert_eq!(b, "dev"),
        _ => panic!("expected a clone at the configured branch"),
    }
    match repo_prep(GitOp::Pull, false, false, "/srv/api", &None) {
        Err(e) => assert_eq!(generic_text(e), "Repository does not exist: /srv/api"),
        _ => panic!("expected a missing repository"),
    }
    let info = GitRepoInfo::new(Some(s("main")), s("abc"), s("u"), false);
    let after = git_info_after(GitOp::CheckoutBranch, &info, &Some(s("ssh_agent"))).unwrap();
    assert_eq!((after.branch, after.commit, after.auth_type), (Some(s("main")), Some(s("abc")), Some(s("ssh_agent"))));
    let detached = git_info_after(GitOp::CheckoutCommit, &info, &None).unwrap();
    assert_eq!((detached.branch, detached.commit), (None, Some(s("abc"))));
    assert!(git_info_after(GitOp::Log, &info, &None).is_none());
    let r = record();
    assert_eq!(r.repository_path(), "/srv/api");
    assert_eq!(r.repository_url(), "git@x:api.git");
    assert!(ensure_repo_clone(&r, true, true).is_none());
    let (url, path, auth) = ensure_repo_clone(&r, false, false).unwrap();
    assert_eq!((url.as_str(), path.as_str()), ("git@x:api.git", "/srv/api"));
    assert_eq!(auth, GitAuth::SshAgent { username: s("git") });
}

#[test]
fn new_service_records() {
    let payload = AddServicePayload {
        name: s("api"),
        repo_url: s("u"),
        port: 80,
        repo_path: s("/p"),
        config: Some(ServiceConfigPayload {
            service: ServiceRef::Id(0),
            filename: s(".env"),
            format: ConfigFormat::Env,
            run_command: s(""),
        }),
        git_branch: Some(s("main")),
        git_auth_type: None,
    };
    let cfg = config_record_of(payload.config.as_ref().unwrap());
    assert_eq!(cfg.id, None);
    assert_eq!(cfg.filename, ".env");
    assert_eq!(cfg.run_command, None);
    let rec = service_record_of(&payload, Some(7));
    assert_eq!(rec.config_id, Some(7));
    assert_eq!(rec.status, ServiceState::Stopped);
    assert_eq!(rec.git_branch, Some(s("main")));
    assert_eq!(rec.git_commit_hash, None);
    assert_eq!(rec.id, None);
}

#[test]
fn configuration_rules() {
    let payload = ServiceConfigPayload {
        service: ServiceRef::Name(s("api")),
        filename: s("app.properties"),
        format: ConfigFormat::Properties,
        run_command: s("run"),
    };
    let mut existing = ServiceConfig::new(s(".env"), ConfigFormat::Env, None);
    existing.id = Some(3);
    let updated = updated_config(Some(existing), &payload);
    assert_eq!(updated.id, Some(3));
    assert_eq!(updated.filename, "app.properties");
    assert_eq!(updated.run_command, Some(s("run")));
    assert_eq!(updated_config(None, &payload).id, None);
    assert_eq!(config_link(None, Some(9)), Some(Some(9)));
    assert_eq!(config_link(Some(2), Some(9)), None);
    assert_eq!(generic_text(config_id_of(None).unwrap_err()), "No service found");
    let mut no_config = record();
    no_config.config_id = None;
    assert_eq!(generic_text(config_id_of(Some(no_config)).unwrap_err()), "Service has no configuration");
    assert_eq!(config_id_of(Some(record())).unwrap(), 4);
    assert_eq!(generic_text(config_payload_of(None, ServiceRef::Id(1)).unwrap_err()), "Service config was not found");
    let p = config_payload_of(Some(ServiceConfig::new(s("f"), ConfigFormat::Env, None)), ServiceRef::Id(1)).unwrap();
    assert_eq!((p.filename.as_str(), p.run_command.as_str()), ("f", ""));
    assert_eq!(p.service, ServiceRef::Id(1));
}

#[test]
fn dependency_rules() {
    let d = dependency_record(1, 2, true);
    assert_eq!(d, ServiceDependency { id: 0, service_id: 1, dependent_service_id: 2, tunnel_enabled: true });
    let deps = vec![
        ServiceDependency { id: 10, service_id: 1, dependent_service_id: 5, tunnel_enabled: false },
        ServiceDependency { id: 11, service_id: 1, dependent_service_id: 6, tunnel_enabled: false },
        ServiceDependency { id: 12, service_id: 1, dependent_service_id: 6, tunnel_enabled: true },
    ];
    assert_eq!(dependency_to_remove(&deps, 6).unwrap(), 11);
    assert_eq!(generic_text(dependency_to_remove(&deps, 7).unwrap_err()), "No dependency found for this service");
    assert_eq!(dependency_ids(&deps), vec![10, 11, 12]);
    assert_eq!(
        generic_text(service_for_dependencies(None).unwrap_err()),
        "No service with this name or id"
    );
}

#[test]
fn database_result_conversions() {
    assert_eq!(Vec::<i32>::from_db_result(Some(3)), vec![3]);
    assert_eq!(Vec::<i32>::from_db_result(None), Vec::<i32>::new());
    assert_eq!(Option::<i32>::from_db_result(vec![4, 5]), Some(4));
    assert_eq!(Option::<i32>::from_db_result(vec![]), None);
    let mut v = vec![1, 2, 3, 4];
    assert_eq!(v.try_swap_remove(1), Some(2));
    assert_eq!(v, vec![1, 4, 3]);
    assert_eq!(v.try_swap_remove(7), None);
    assert_eq!(v, vec![1, 4, 3]);
}

#[test]
fn process_termination_steps() {
    assert!(matches!(Termination::Graceful.next(WaitOutcome::Exited), TerminationStep::Done(Ok(()))));
    assert!(matches!(Termination::Graceful.next(WaitOutcome::TimedOut), TerminationStep::ForceKill));
    assert!(matches!(Termination::Graceful.next(WaitOutcome::Failed), TerminationStep::ForceKill));
    assert!(matches!(Termination::Forced.next(WaitOutcome::Exited), TerminationStep::Done(Ok(()))));
    match Termination::Forced.next(WaitOutcome::Failed) {
        TerminationStep::Done(Err(e)) => assert_eq!(generic_text(e), "Failed to terminate process"),
        _ => panic!("expected a failure"),
    }
    match Termination::Forced.next(WaitOutcome::TimedOut) {
        TerminationStep::Done(Err(e)) => assert_eq!(generic_text(e), "Process termination timeout"),
        _ => panic!("expected a timeout"),
    }
    assert_eq!(generic_text(cleanup_failed(12)), "Failed to cleanup process 12");
}

#[test]
fn a_running_service_is_not_started_again() {
    use_start_checks();
}

fn use_start_checks() {
    let r = nexsock::service_manager::start_checks(8080, ServiceState::Running);
    let m = generic_text(r.unwrap_err());
    assert!(m == "Service is already running" || m == "Port is already in use");
}

#[test]
fn tcp_ports_are_the_low_sixteen_bits() {
    assert_eq!(nexsock::service_manager::tcp_port(8080), 8080);
    assert_eq!(nexsock::service_manager::tcp_port(70000), 4464);
    assert_eq!(nexsock::service_manager::tcp_port(-1), 65535);
}

#[test]
fn checkout_requests_become_git_arguments() {
    let p = nexsock::protocol::CheckoutPayload { service: ServiceRef::Id(1), branch: s("feat"), create_if_missing: true };
    assert_eq!(nexsock::service_manager::checkout_request_args(&p), vec![s("checkout"), s("-B"), s("feat")]);
    let q = nexsock::protocol::CheckoutPayload { create_if_missing: false, ..p };
    assert_eq!(nexsock::service_manager::checkout_request_args(&q), vec![s("checkout"), s("feat")]);
}

fn dep(id: i64, from: i64, to: i64) -> ServiceDependency {
    ServiceDependency { id, service_id: from, dependent_service_id: to, tunnel_enabled: false }
}

#[test]
fn circular_and_repeated_dependencies_are_refused() {
    let deps = vec![dep(1, 1, 2), dep(2, 2, 3)];
    let mut r = reachable_from(&deps, 1);
    r.sort();
    assert_eq!(r, vec![1, 2, 3]);
    assert_eq!(generic_text(check_new_dependency(&deps, 3, 1).unwrap_err()), "A circular dependency would be created");
    assert_eq!(generic_text(check_new_dependency(&deps, 4, 4).unwrap_err()), "A circular dependency would be created");
    assert_eq!(generic_text(check_new_dependency(&deps, 1, 2).unwrap_err()), "The dependency already exists");
    assert!(check_new_dependency(&deps, 1, 3).is_ok());
    assert!(check_new_dependency(&deps, 4, 1).is_ok());
}

#[test]
fn process_table_tracks_processes() {
    let mut t: ProcessTable<&str> = ProcessTable::new();
    assert!(!t.contains(1));
    t.register(1, "a");
    t.register(2, "b");
    t.register(1, "c");
    let mut ids = t.ids();
    ids.sort();
    assert_eq!(ids, vec![1, 2]);
    assert_eq!(t.take(1), Some("c"));
    assert_eq!(t.take(1), None);
    assert_eq!(t.ids(), vec![2]);
    t.register(1, "c");
    assert!(t.contains(1));
}

#[test]
fn cleanup_takes_the_listed_processes() {
    let mut t: ProcessTable<&str> = ProcessTable::new();
    t.register(1, "a");
    t.register(2, "b");
    t.register(3, "c");
    let mut taken = t.take_all(&vec![3, 1, 3, 9]);
    taken.sort();
    assert_eq!(taken, vec![(1, "a"), (3, "c")]);
    assert_eq!(t.ids(), vec![2]);
}
