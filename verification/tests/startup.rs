use sidecar_launcher::fsmodel::check_dir_created;
use sidecar_launcher::fsmodel::DirOutcome;
use sidecar_launcher::pump::Severity;
use sidecar_launcher::spawn::child_env;
use sidecar_launcher::spawn::plan_spawn;
use sidecar_launcher::startup::database_url_notice;
use sidecar_launcher::startup::dev_skip_notice;
use sidecar_launcher::startup::require_app_data_root;
use sidecar_launcher::startup::require_resource_dir;
use sidecar_launcher::startup::sidecar_enabled;
use sidecar_launcher::startup::spawn_notice;
use sidecar_launcher::startup::startup_failure_record;
use sidecar_launcher::startup::StartupError;

#[test]
fn child_env_is_exactly_the_six_documented_variables() {
    let env = child_env("file:/x/data/family.db");
    let pairs: Vec<(&str, &str)> = env.iter().map(|p| (p.0.as_str(), p.1.as_str())).collect();
    assert_eq!(
        pairs,
        vec![
            ("DATA_MODE", "local"),
            ("DATABASE_URL", "file:/x/data/family.db"),
            ("LOCAL_AUTH_DISABLED", "true"),
            ("PORT", "3000"),
            ("HOSTNAME", "127.0.0.1"),
            ("NODE_ENV", "production"),
        ]
    );
}

#[test]
fn plan_spawn_sets_cwd_to_resource_dir() {
    let plan = plan_spawn("/opt/app/standalone", "/", "file:/x/family.db");
    assert_eq!(plan.cwd.as_str(), "/opt/app/standalone");
}

#[test]
fn plan_spawn_program_and_args() {
    let plan = plan_spawn("/opt/app/standalone", "/", "file:/x/family.db");
    assert_eq!(plan.program.as_str(), "node");
    assert_eq!(plan.args.len(), 1);
    assert_eq!(plan.args[0].as_str(), "/opt/app/standalone/server.js");
    assert_eq!(plan.env.len(), 6);
}

#[test]
fn sidecar_only_enabled_outside_development() {
    assert!(!sidecar_enabled(true));
    assert!(sidecar_enabled(false));
}

#[test]
fn app_data_root_gate() {
    assert_eq!(
        require_app_data_root(Some(String::from("/root/x"))),
        Ok(String::from("/root/x"))
    );
    assert_eq!(require_app_data_root(None), Err(StartupError::AppDataDirUnresolved));
}

#[test]
fn resource_dir_gate_aborts_before_spawn() {
    assert_eq!(require_resource_dir(None), Err(StartupError::ResourceDirUnresolved));
    assert_eq!(
        require_resource_dir(Some(String::from("/opt/app/standalone"))),
        Ok(String::from("/opt/app/standalone"))
    );
}

#[test]
fn existing_directory_is_success_not_failure() {
    assert_eq!(check_dir_created(DirOutcome::Created), Ok(()));
    assert_eq!(check_dir_created(DirOutcome::AlreadyExists), Ok(()));
    assert_eq!(
        check_dir_created(DirOutcome::Failed),
        Err(StartupError::DataDirCreateFailed)
    );
}

#[test]
fn startup_error_messages_exact() {
    assert_eq!(
        StartupError::AppDataDirUnresolved.message().as_str(),
        "Failed to resolve app data directory"
    );
    assert_eq!(
        StartupError::DataDirCreateFailed.message().as_str(),
        "Failed to create data directory"
    );
    assert_eq!(
        StartupError::ResourceDirUnresolved.message().as_str(),
        "Failed to resolve standalone resource directory"
    );
    assert_eq!(
        StartupError::SidecarBinaryMissing.message().as_str(),
        "Failed to find node sidecar binary"
    );
    assert_eq!(
        StartupError::SpawnFailed.message().as_str(),
        "Failed to spawn Next.js server sidecar"
    );
}

#[test]
fn notices_exact() {
    let dev = dev_skip_notice();
    assert_eq!(dev.severity, Severity::Info);
    assert_eq!(
        dev.text.as_str(),
        "Dev mode - skipping sidecar spawn (beforeDevCommand handles it)"
    );

    let spawn = spawn_notice("/opt/app/standalone/server.js");
    assert_eq!(spawn.severity, Severity::Info);
    assert_eq!(
        spawn.text.as_str(),
        "Spawning sidecar: node /opt/app/standalone/server.js"
    );

    let url = database_url_notice("file:/x/family.db");
    assert_eq!(url.severity, Severity::Info);
    assert_eq!(url.text.as_str(), "DATABASE_URL: file:/x/family.db");

    let fail = startup_failure_record(StartupError::SpawnFailed);
    assert_eq!(fail.severity, Severity::Error);
    assert_eq!(
        fail.text.as_str(),
        "Failed to spawn sidecar: Failed to spawn Next.js server sidecar"
    );
}
