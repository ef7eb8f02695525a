use backend_supervisor::plan::{backend_args, plan_launch, OsFamily, HIDE_CONSOLE_WINDOW};
use backend_supervisor::status::{
    classify_failure, is_fatal, status_record, FailureStage, SpawnOutcome, SupervisorError,
};

#[test]
fn windows_plan_derives_all_paths() {
    let plan = plan_launch(OsFamily::Windows, "C:\\app\\ui\\src-tauri").expect("plan");
    assert_eq!(plan.backend_dir, "C:\\app\\ui\\src-tauri\\..\\..\\backend");
    assert_eq!(
        plan.interpreter,
        "C:\\app\\ui\\src-tauri\\..\\..\\backend\\.venv\\Scripts\\python.exe"
    );
    assert_eq!(
        plan.out_log,
        "C:\\app\\ui\\src-tauri\\..\\..\\backend\\backend_out.log"
    );
    assert_eq!(
        plan.err_log,
        "C:\\app\\ui\\src-tauri\\..\\..\\backend\\backend_err.log"
    );
    assert!(plan.logs_append);
    assert_eq!(plan.creation_flags, HIDE_CONSOLE_WINDOW);
    assert_eq!(plan.creation_flags, 0x08000000);
}

#[test]
fn argument_vector_is_exact() {
    let args = backend_args();
    let views: Vec<&str> = args.iter().map(|a| a.as_str()).collect();
    let expected = vec![
        "-m",
        "uvicorn",
        "main:app",
        "--host",
        "127.0.0.1",
        "--port",
        "8000",
    ];
    assert_eq!(views, expected);
}

#[test]
fn plan_carries_the_exact_argument_vector() {
    let plan = plan_launch(OsFamily::Windows, "C:\\m").expect("plan");
    let views: Vec<&str> = plan.args.iter().map(|a| a.as_str()).collect();
    assert_eq!(
        views,
        vec!["-m", "uvicorn", "main:app", "--host", "127.0.0.1", "--port", "8000"]
    );
}

#[test]
fn unsupported_family_is_noop() {
    assert!(plan_launch(OsFamily::Other, "C:\\app\\ui\\src-tauri").is_none());
}

#[test]
fn success_writes_fixed_marker() {
    let record = status_record("C:\\x\\backend", &SpawnOutcome::Spawned);
    assert_eq!(record.path, "C:\\x\\backend\\tauri_spawn_ok.log");
    assert_eq!(record.content, "spawn ok\n");
}

#[test]
fn failure_records_reason_behind_prefix() {
    let reason = "The system cannot find the file specified. (os error 2)";
    let record = status_record(
        "C:\\x\\backend",
        &SpawnOutcome::SpawnFailed(String::from(reason)),
    );
    assert_eq!(record.path, "C:\\x\\backend\\tauri_spawn_err.log");
    assert!(record.content.starts_with("spawn error: "));
    assert!(record.content.contains("os error 2"));
    assert_eq!(
        record.content,
        "spawn error: The system cannot find the file specified. (os error 2)\n"
    );
}

#[test]
fn status_paths_differ_between_outcomes() {
    let ok = status_record("B", &SpawnOutcome::Spawned);
    let err = status_record("B", &SpawnOutcome::SpawnFailed(String::from("x")));
    assert_ne!(ok.path, err.path);
}

#[test]
fn log_open_failure_is_fatal() {
    let e = classify_failure(
        FailureStage::LogOpen,
        String::from("Access is denied. (os error 5)"),
    );
    assert!(is_fatal(&e));
    assert!(matches!(e, SupervisorError::FatalResourceError(_)));
}

#[test]
fn spawn_failure_is_recoverable() {
    let e = classify_failure(FailureStage::Spawn, String::from("os error 2"));
    assert!(!is_fatal(&e));
    assert!(matches!(e, SupervisorError::RecoverableSpawnError(_)));
}

#[test]
fn repeated_launches_target_same_logs() {
    let first = plan_launch(OsFamily::Windows, "C:\\m").expect("plan");
    let second = plan_launch(OsFamily::Windows, "C:\\m").expect("plan");
    assert_eq!(first.out_log, second.out_log);
    assert_eq!(first.err_log, second.err_log);
    assert!(first.logs_append && second.logs_append);
}

#[test]
fn log_paths_differ_from_each_other() {
    let plan = plan_launch(OsFamily::Windows, "C:\\m").expect("plan");
    assert_ne!(plan.out_log, plan.err_log);
}
