use vstd::prelude::*;

verus! {

/// The operating-system families the supervisor distinguishes: the one on
/// which spawning a hidden-console child is implemented, and all others.
#[derive(Clone, Copy, PartialEq, Eq, Structural)]
pub enum OsFamily {
    Windows,
    Other,
}

/// Spawning the backend is implemented on one family only; everywhere else
/// the supervisor is a no-op.
pub open spec fn spawn_supported(os: OsFamily) -> bool {
    os is Windows
}

/// The process-creation flag that keeps the child from opening a console
/// window of its own.
pub const HIDE_CONSOLE_WINDOW: u32 = 0x08000000;

/// The backend working directory: a fixed relative offset from the host's
/// own build directory to a sibling `backend` directory.
pub open spec fn backend_dir_of(manifest_dir: Seq<char>) -> Seq<char> {
    manifest_dir + "\\..\\..\\backend"@
}

/// The pre-provisioned interpreter binary inside the backend directory.
pub open spec fn interpreter_of(backend_dir: Seq<char>) -> Seq<char> {
    backend_dir + "\\.venv\\Scripts\\python.exe"@
}

/// Where the child's standard output is captured.
pub open spec fn out_log_of(backend_dir: Seq<char>) -> Seq<char> {
    backend_dir + "\\backend_out.log"@
}

/// Where the child's standard error is captured.
pub open spec fn err_log_of(backend_dir: Seq<char>) -> Seq<char> {
    backend_dir + "\\backend_err.log"@
}

/// Concatenation of a base path with a fragment; the separator stands in
/// the fragment itself.
pub(crate) fn join(base: &str, fragment: &str) -> (r: String)
    ensures
        r@ == base@ + fragment@,
{
    let mut r = String::from_str(base);
    r.append(fragment);
    r
}

/// The views of an argument vector, element by element.
pub open spec fn arg_views(args: Seq<String>) -> Seq<Seq<char>> {
    args.map_values(|a: String| a@)
}

/// The fixed argument vector handed to the interpreter: run the server
/// module runner on the application object, bound to the loopback port.
pub open spec fn backend_arg_views() -> Seq<Seq<char>> {
    seq!["-m"@, "uvicorn"@, "main:app"@, "--host"@, "127.0.0.1"@, "--port"@, "8000"@]
}

/// Builds the argument vector, exactly as `backend_arg_views` states it.
pub fn backend_args() -> (r: Vec<String>)
    ensures
        arg_views(r@) == backend_arg_views(),
{
    let mut args: Vec<String> = Vec::new();
    args.push(String::from_str("-m"));
    args.push(String::from_str("uvicorn"));
    args.push(String::from_str("main:app"));
    args.push(String::from_str("--host"));
    args.push(String::from_str("127.0.0.1"));
    args.push(String::from_str("--port"));
    args.push(String::from_str("8000"));
    proof {
        assert(arg_views(args@) =~= backend_arg_views());
    }
    args
}

/// Everything the host must know to launch the backend: the interpreter to
/// invoke, its arguments, the working directory, the two log destinations,
/// and the console-window suppression flag.
pub struct LaunchPlan {
    /// Working directory for the child, so relative module lookup succeeds.
    pub backend_dir: String,
    /// The interpreter binary to invoke.
    pub interpreter: String,
    /// Argument vector handed to the interpreter.
    pub args: Vec<String>,
    /// Destination for the child's standard output.
    pub out_log: String,
    /// Destination for the child's standard error.
    pub err_log: String,
    /// Both logs are opened create-if-absent and append, never truncated.
    pub logs_append: bool,
    /// Process-creation flags: the hidden-console-window flag alone.
    pub creation_flags: u32,
}

impl LaunchPlan {
    /// The plan that a given build directory determines, field by field.
    pub open spec fn derived_from(self, manifest_dir: Seq<char>) -> bool {
        &&& self.backend_dir@ == backend_dir_of(manifest_dir)
        &&& self.interpreter@ == interpreter_of(backend_dir_of(manifest_dir))
        &&& self.out_log@ == out_log_of(backend_dir_of(manifest_dir))
        &&& self.err_log@ == err_log_of(backend_dir_of(manifest_dir))
        &&& arg_views(self.args@) == backend_arg_views()
        &&& self.logs_append
        &&& self.creation_flags == HIDE_CONSOLE_WINDOW
    }
}

/// Decides the whole launch. On the supported family the result is the full
/// plan derived from the host's build directory; on any other family there
/// is no plan, and the host starts with no backend at all.
pub fn plan_launch(os: OsFamily, manifest_dir: &str) -> (r: Option<LaunchPlan>)
    ensures
        r is Some <==> spawn_supported(os),
        r matches Some(p) ==> p.derived_from(manifest_dir@),
{
    match os {
        OsFamily::Windows => {
            let backend_dir = join(manifest_dir, "\\..\\..\\backend");
            let interpreter = join(backend_dir.as_str(), "\\.venv\\Scripts\\python.exe");
            let out_log = join(backend_dir.as_str(), "\\backend_out.log");
            let err_log = join(backend_dir.as_str(), "\\backend_err.log");
            Some(
                LaunchPlan {
                    backend_dir,
                    interpreter,
                    args: backend_args(),
                    out_log,
                    err_log,
                    logs_append: true,
                    creation_flags: HIDE_CONSOLE_WINDOW,
                },
            )
        },
        OsFamily::Other => None,
    }
}

/// The two log destinations never coincide, whatever the build directory:
/// standard output and standard error are captured separately.
pub proof fn lemma_log_paths_distinct(backend_dir: Seq<char>)
    ensures
        out_log_of(backend_dir) != err_log_of(backend_dir),
{
    reveal_strlit("\\backend_out.log");
    reveal_strlit("\\backend_err.log");
    let i = backend_dir.len() as int + 9;
    assert(out_log_of(backend_dir)[i] == 'o');
    assert(err_log_of(backend_dir)[i] == 'e');
}

/// Two launches planned from the same build directory aim at the same two
/// log files, both in append mode: a second run extends the logs rather
/// than replacing them, and each run spawns its own child.
pub proof fn lemma_repeat_launch_same_logs(
    first: LaunchPlan,
    second: LaunchPlan,
    manifest_dir: Seq<char>,
)
    requires
        first.derived_from(manifest_dir),
        second.derived_from(manifest_dir),
    ensures
        first.out_log@ == second.out_log@,
        first.err_log@ == second.err_log@,
        first.logs_append && second.logs_append,
{
}

} // verus!
