use nexsock::cli::ToolType;
use nexsock::daemon::Operation;
use nexsock::display::OutputFormat;
use nexsock::error::Error;
use nexsock::git::auth::GitAuth;
use nexsock::protocol::ServiceState;
use nexsock::service_manager::LogBuffer;

#[test]
#[allow(unused_imports)]
fn test_tracing_module_loading() {
    // Every module of the library is reachable from outside the crate.
    let _ = Error::LockError;
    let _ = GitAuth::none();
    let _ = OutputFormat::default();
    let _ = ServiceState::Running;
    let _ = ToolType::Daemon;
    let _ = Operation::GetStatus;
    let _ = LogBuffer::new();
}
