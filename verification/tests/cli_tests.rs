use nexsock::cli::{
    config_payload, create_command, git_auth_type, handle_tool_commands, Cli, Commands,
    ConfigCommands, DependencyCommands, GitCommands, ToolCommands, ToolType,
};
use nexsock::protocol::{Command, ConfigFormat, ServiceCommand, ServiceRef};

fn s(v: &str) -> String {
    v.to_string()
}

#[test]
fn tool_types_parse_in_any_case() {
    assert_eq!(ToolType::parse("nexsockd"), Ok(ToolType::Daemon));
    assert_eq!(ToolType::parse("DAEMON"), Ok(ToolType::Daemon));
    assert_eq!(ToolType::parse("Nexsock-Web"), Ok(ToolType::Web));
    assert_eq!(ToolType::parse("web"), Ok(ToolType::Web));
    assert_eq!(
        ToolType::parse("cli"),
        Err(s("Unknown tool type: `cli`. Supported values are `nexsockd`, `daemon`, `nexsock-web` and `web`"))
    );
}

#[test]
fn tool_management_is_unsupported() {
    let result = handle_tool_commands(ToolCommands::List { show_available: false, check_updates: false });
    assert!(result.is_err());
    assert_eq!(result, Err(s("Downloading and managing nexsock tools is currently unsupported")));
    let install = ToolCommands::Install { tool: ToolType::Web, version: None, skip_verify: true };
    assert!(handle_tool_commands(install).is_err());
}

#[test]
fn service_refs_read_numbers_as_ids() {
    assert_eq!(ServiceRef::parse("42"), ServiceRef::Id(42));
    assert_eq!(ServiceRef::parse("-3"), ServiceRef::Id(-3));
    assert_eq!(ServiceRef::parse("api"), ServiceRef::Name(s("api")));
    assert_eq!(ServiceRef::parse("12a"), ServiceRef::Name(s("12a")));
    assert_eq!(ServiceRef::Id(42).text(), "42");
    assert_eq!(ServiceRef::parse(&ServiceRef::Id(-77).text()), ServiceRef::Id(-77));
    assert_eq!(ServiceRef::default(), ServiceRef::Id(0));
}

#[test]
fn env_vars_split_at_the_first_equals_sign() {
    let vars = Cli::parse_env_vars(vec![s("A=1"), s("B=x=y"), s("bad"), s("A=2"), s("C=")]);
    assert_eq!(vars, vec![(s("A"), s("2")), (s("B"), s("x=y")), (s("C"), s(""))]);
    assert!(Cli::parse_env_vars(vec![]).is_empty());
}

#[test]
fn config_formats_by_name() {
    assert_eq!(ConfigFormat::from_name("env"), ConfigFormat::Env);
    assert_eq!(ConfigFormat::from_name("properties"), ConfigFormat::Properties);
}

#[test]
fn config_payload_from_path_parts() {
    let c = config_payload(&Some(s("env")), &Some(s("app.env")), None);
    assert_eq!(c.format, ConfigFormat::Env);
    assert_eq!(c.filename, "app.env");
    assert_eq!(c.run_command, "");
    assert_eq!(c.service, ServiceRef::Id(0));
    let p = config_payload(&None, &None, Some(s("run")));
    assert_eq!(p.format, ConfigFormat::Properties);
    assert_eq!(p.filename, "config");
    assert_eq!(p.run_command, "run");
    assert_eq!(git_auth_type(s("none")), None);
    assert_eq!(git_auth_type(s("token")), Some(s("token")));
}

#[test]
fn start_command_carries_parsed_env() {
    let cmd = create_command(Commands::Start { service: ServiceRef::Name(s("api")), env: vec![s("K=v")] }).unwrap();
    assert_eq!(cmd.command(), Command::StartService);
    match cmd {
        ServiceCommand::Start { service, env_vars } => {
            assert_eq!(service, ServiceRef::Name(s("api")));
            assert_eq!(env_vars, vec![(s("K"), s("v"))]);
        }
        _ => panic!("expected a start request"),
    }
}

#[test]
fn add_command_builds_config_and_auth() {
    let cmd = create_command(Commands::Add {
        name: s("api"),
        repo_url: s("git@x:api.git"),
        repo_path: s("/srv/api"),
        port: 8080,
        config: Some(s("/etc/api/app.env")),
        run_command: Some(s("cargo run")),
        git_branch: Some(s("main")),
        git_auth: s("none"),
    })
    .unwrap();
    assert_eq!(cmd.command(), Command::AddService);
    match cmd {
        ServiceCommand::Add(p) => {
            assert_eq!(p.name, "api");
            assert_eq!(p.port, 8080);
            assert_eq!(p.git_auth_type, None);
            assert_eq!(p.git_branch, Some(s("main")));
            let c = p.config.unwrap();
            assert_eq!(c.filename, "app.env");
            assert_eq!(c.format, ConfigFormat::Env);
            assert_eq!(c.run_command, "cargo run");
        }
        _ => panic!("expected an add request"),
    }
}

#[test]
fn other_commands_map_one_to_one() {
    let r = |n: &str| ServiceRef::Name(s(n));
    assert_eq!(create_command(Commands::List).unwrap().command(), Command::ListServices);
    assert_eq!(create_command(Commands::Stop { service: r("a") }).unwrap().command(), Command::StopService);
    assert_eq!(create_command(Commands::Stdout { service: r("a") }).unwrap().command(), Command::GetServiceStdout);
    assert_eq!(
        create_command(Commands::Config { command: ConfigCommands::Get { service: r("a") } }).unwrap().command(),
        Command::GetConfig
    );
    match create_command(Commands::Config {
        command: ConfigCommands::Update { service: r("a"), filename: s("f"), format: s("properties"), run_command: s("x") },
    })
    .unwrap()
    {
        ServiceCommand::ConfigUpdate(c) => assert_eq!(c.format, ConfigFormat::Properties),
        _ => panic!("expected a config update"),
    }
    match create_command(Commands::Dependency {
        command: DependencyCommands::Add { service: r("a"), dependent: r("b"), tunnel: true },
    })
    .unwrap()
    {
        ServiceCommand::DependencyAdd { tunnel_enabled, .. } => assert!(tunnel_enabled),
        _ => panic!("expected a dependency request"),
    }
    match create_command(Commands::Git {
        command: GitCommands::Log { service: r("a"), max_count: Some(3), branch: None },
    })
    .unwrap()
    {
        ServiceCommand::GitLog { max_count, .. } => assert_eq!(max_count, Some(3)),
        _ => panic!("expected a log request"),
    }
    assert_eq!(
        create_command(Commands::Git { command: GitCommands::Checkout { service: r("a"), branch: s("dev"), create: true } })
            .unwrap()
            .command(),
        Command::CheckoutBranch
    );
}

#[test]
fn tool_commands_are_not_requests() {
    let r = create_command(Commands::Tools { command: ToolCommands::List { show_available: true, check_updates: false } });
    assert_eq!(r.err(), Some(s("invalid command")));
}

#[test]
fn tool_names_after_lowering() {
    assert_eq!(ToolType::from_lowercase("web", "WEB"), Ok(ToolType::Web));
    assert_eq!(ToolType::from_lowercase("daemon", "Daemon"), Ok(ToolType::Daemon));
    assert_eq!(
        ToolType::from_lowercase("x", "X"),
        Err(s("Unknown tool type: `X`. Supported values are `nexsockd`, `daemon`, `nexsock-web` and `web`"))
    );
}

#[test]
fn checkout_carries_the_create_flag() {
    let r = |n: &str| ServiceRef::Name(s(n));
    let make = |create: bool| {
        create_command(Commands::Git { command: GitCommands::Checkout { service: r("web"), branch: s("feat"), create } })
            .unwrap()
    };
    match make(true) {
        ServiceCommand::GitCheckout { service, branch, create_if_missing } => {
            assert_eq!(service, r("web"));
            assert_eq!(branch, "feat");
            assert!(create_if_missing);
        }
        _ => panic!("expected a checkout request"),
    }
    let payload = make(false).checkout_payload().unwrap();
    assert!(!payload.create_if_missing);
    assert_eq!(payload.branch, "feat");
    assert!(create_command(Commands::List).unwrap().checkout_payload().is_none());
}

fn add_with_config(path: &str) -> nexsock::protocol::ServiceConfigPayload {
    match create_command(Commands::Add {
        name: s("api"),
        repo_url: s("u"),
        repo_path: s("/p"),
        port: 1,
        config: Some(s(path)),
        run_command: None,
        git_branch: None,
        git_auth: s("ssh_agent"),
    })
    .unwrap()
    {
        ServiceCommand::Add(p) => p.config.unwrap(),
        _ => panic!("expected an add request"),
    }
}

#[test]
fn config_file_name_and_format_follow_the_path() {
    let c = add_with_config("conf/app.env");
    assert_eq!((c.filename.as_str(), c.format), ("app.env", ConfigFormat::Env));
    let hidden = add_with_config("/srv/.env");
    assert_eq!((hidden.filename.as_str(), hidden.format), (".env", ConfigFormat::Properties));
    let props = add_with_config("a.b.properties");
    assert_eq!((props.filename.as_str(), props.format), ("a.b.properties", ConfigFormat::Properties));
    let dir = add_with_config("conf/");
    assert_eq!(dir.filename, "conf");
}
