use vstd::prelude::*;

use crate::plan::join;

verus! {

/// The outcome of the single spawn attempt, as the host observed it.
pub enum SpawnOutcome {
    /// The operating system confirmed process creation.
    Spawned,
    /// Process creation failed; the field holds the reported reason.
    SpawnFailed(String),
}

/// Where the success marker goes: a status file beside the logs.
pub open spec fn ok_status_path_of(backend_dir: Seq<char>) -> Seq<char> {
    backend_dir + "\\tauri_spawn_ok.log"@
}

/// Where the failure record goes.
pub open spec fn err_status_path_of(backend_dir: Seq<char>) -> Seq<char> {
    backend_dir + "\\tauri_spawn_err.log"@
}

/// The one-line record of the spawn outcome: where to write, and what.
pub struct StatusRecord {
    pub path: String,
    pub content: String,
}

/// Turns the spawn outcome into the status record the host writes to disk:
/// a fixed success marker, or the failure reason behind a fixed prefix.
/// Each outcome yields exactly one record, at its own path.
pub fn status_record(backend_dir: &str, outcome: &SpawnOutcome) -> (r: StatusRecord)
    ensures
        outcome is Spawned ==> r.path@ == ok_status_path_of(backend_dir@),
        outcome is Spawned ==> r.content@ == "spawn ok\n"@,
        outcome matches SpawnOutcome::SpawnFailed(reason) ==> r.path@ == err_status_path_of(
            backend_dir@,
        ),
        outcome matches SpawnOutcome::SpawnFailed(reason) ==> r.content@ == "spawn error: "@
            + reason@ + "\n"@,
{
    match outcome {
        SpawnOutcome::Spawned => StatusRecord {
            path: join(backend_dir, "\\tauri_spawn_ok.log"),
            content: String::from_str("spawn ok\n"),
        },
        SpawnOutcome::SpawnFailed(reason) => {
            let mut content = String::from_str("spawn error: ");
            content.append(reason.as_str());
            content.append("\n");
            StatusRecord { path: join(backend_dir, "\\tauri_spawn_err.log"), content }
        },
    }
}

/// The point in the startup routine at which a failure arose.
pub enum FailureStage {
    /// Opening one of the two log files failed.
    LogOpen,
    /// The spawn attempt itself failed.
    Spawn,
}

/// The two failure classes the supervisor distinguishes: a log file that
/// cannot be opened aborts host startup; a failed spawn is recorded to disk
/// and swallowed, and the host proceeds with no backend running.
pub enum SupervisorError {
    FatalResourceError(String),
    RecoverableSpawnError(String),
}

/// Classifies a startup failure by the stage it arose in, keeping the
/// reported reason.
pub fn classify_failure(stage: FailureStage, reason: String) -> (e: SupervisorError)
    ensures
        stage is LogOpen ==> (e matches SupervisorError::FatalResourceError(m) && m@ == reason@),
        stage is Spawn ==> (e matches SupervisorError::RecoverableSpawnError(m) && m@ == reason@),
{
    match stage {
        FailureStage::LogOpen => SupervisorError::FatalResourceError(reason),
        FailureStage::Spawn => SupervisorError::RecoverableSpawnError(reason),
    }
}

/// Whether a failure aborts host startup. Only a log-file failure is fatal;
/// after any other the host still shows its window.
pub fn is_fatal(e: &SupervisorError) -> (r: bool)
    ensures
        r == (e is FatalResourceError),
{
    match e {
        SupervisorError::FatalResourceError(_) => true,
        SupervisorError::RecoverableSpawnError(_) => false,
    }
}

/// A success marker and a failure record never share a path, whatever the
/// backend directory: one outcome leaves exactly one status file, and a
/// successful spawn produces no failure record.
pub proof fn lemma_status_paths_distinct(backend_dir: Seq<char>)
    ensures
        ok_status_path_of(backend_dir) != err_status_path_of(backend_dir),
{
    reveal_strlit("\\tauri_spawn_ok.log");
    reveal_strlit("\\tauri_spawn_err.log");
    assert(ok_status_path_of(backend_dir).len() != err_status_path_of(backend_dir).len());
}

} // verus!
