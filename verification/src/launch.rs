//! Choosing and describing the backend launch.
//!
//! Exactly one of two launch modes runs at startup: a bundled launch, when
//! the locator found an executable, or a development-tree fallback, when it
//! did not. Both are described here as plain launch commands — program,
//! working directory, arguments, environment — which the host then hands to
//! the operating system.

use vstd::prelude::*;

use crate::path::FsPath;

verus! {

/// The launch mode chosen at startup: mutually exclusive by construction,
/// chosen once, never re-evaluated.
pub enum LaunchPlan {
    /// Run the located executable directly.
    Bundled { binary: FsPath },
    /// Run the backend from a local development tree through its
    /// virtual-environment interpreter.
    DevFallback,
}

/// The launch mode a locator result calls for: bundled when a path was
/// found, the development fallback otherwise.
pub open spec fn spec_choose_launch_plan(located: Option<FsPath>) -> LaunchPlan {
    match located {
        Some(binary) => LaunchPlan::Bundled { binary },
        None => LaunchPlan::DevFallback,
    }
}

/// Choose the launch mode from the locator's result.
pub fn choose_launch_plan(located: Option<FsPath>) -> (r: LaunchPlan)
    ensures
        r == spec_choose_launch_plan(located),
{
    match located {
        Some(binary) => LaunchPlan::Bundled { binary },
        None => LaunchPlan::DevFallback,
    }
}

/// Law: the two launch modes are mutually exclusive and exhaustive —
/// bundled launch is chosen if and only if the locator reported a path,
/// and the development fallback if and only if it did not, so the two are
/// never chosen together.
pub proof fn lemma_launch_modes_exclusive(located: Option<FsPath>)
    ensures
        spec_choose_launch_plan(located) is Bundled <==> located is Some,
        spec_choose_launch_plan(located) is DevFallback <==> located is None,
        !(spec_choose_launch_plan(located) is Bundled && spec_choose_launch_plan(located)
            is DevFallback),
{
}

/// One environment-variable assignment handed to the child process.
pub struct EnvAssign {
    pub name: String,
    pub value: String,
}

impl View for EnvAssign {
    type V = (Seq<char>, Seq<char>);

    open spec fn view(&self) -> (Seq<char>, Seq<char>) {
        (self.name@, self.value@)
    }
}

impl DeepView for EnvAssign {
    type V = (Seq<char>, Seq<char>);

    open spec fn deep_view(&self) -> (Seq<char>, Seq<char>) {
        self.view()
    }
}

/// Everything the host needs to spawn the backend: the program, its working
/// directory, its arguments, its extra environment, and whether a console
/// window must be suppressed on platforms that would otherwise open one.
pub struct LaunchCommand {
    pub program: FsPath,
    pub working_dir: FsPath,
    pub args: Vec<String>,
    pub env: Vec<EnvAssign>,
    pub hide_console: bool,
}

/// The fixed environment of a bundled launch: the port and the loopback
/// address the backend must bind.
pub open spec fn backend_env() -> Seq<(Seq<char>, Seq<char>)> {
    seq![("PORT"@, "8000"@), ("HOST"@, "127.0.0.1"@)]
}

/// The fixed arguments of a development-fallback launch: the interpreter
/// runs the backend's entry module through a standard ASGI server, bound to
/// the loopback address and the fixed port.
pub open spec fn dev_args() -> Seq<Seq<char>> {
    seq!["-m"@, "uvicorn"@, "main:app"@, "--host"@, "127.0.0.1"@, "--port"@, "8000"@]
}

/// Describe the bundled launch of a located executable: the program is the
/// executable itself, run from its containing directory, with no arguments,
/// the fixed bind environment, and no console window on Windows. An
/// executable path without a containing directory cannot be launched.
pub fn bundled_command(binary: &FsPath, windows: bool) -> (r: Option<LaunchCommand>)
    ensures
        match r {
            Some(c) => binary@.len() > 0 && c.program@ == binary@ && c.working_dir@
                == binary@.drop_last() && c.args.deep_view() == Seq::<Seq<char>>::empty()
                && c.env.deep_view() == backend_env() && c.hide_console == windows,
            None => binary@.len() == 0,
        },
{
    match binary.parent() {
        Some(working_dir) => {
            let args: Vec<String> = Vec::new();
            let mut env: Vec<EnvAssign> = Vec::new();
            env.push(EnvAssign { name: "PORT".to_string(), value: "8000".to_string() });
            env.push(EnvAssign { name: "HOST".to_string(), value: "127.0.0.1".to_string() });
            proof {
                assert(args.deep_view() =~= Seq::<Seq<char>>::empty());
                assert(env.deep_view() =~= backend_env());
            }
            Some(
                LaunchCommand {
                    program: binary.duplicate(),
                    working_dir,
                    args,
                    env,
                    hide_console: windows,
                },
            )
        },
        None => None,
    }
}

/// The two paths a development-fallback launch rests on.
pub struct DevPaths {
    /// The `backend` subdirectory of the development project root.
    pub backend_dir: FsPath,
    /// The interpreter inside the virtual environment under `backend_dir`.
    pub interpreter: FsPath,
}

/// The development project root: a fixed five parent-directory steps up
/// from the running executable, or nothing when the path is too short.
pub open spec fn spec_project_root(exe_path: Seq<Seq<char>>) -> Option<Seq<Seq<char>>> {
    if exe_path.len() >= 5 {
        Some(exe_path.take(exe_path.len() - 5))
    } else {
        None
    }
}

/// The platform's location of the interpreter inside a virtual
/// environment, relative to the directory that holds the environment.
pub open spec fn venv_interpreter_suffix(windows: bool) -> Seq<Seq<char>> {
    if windows {
        seq![".venv"@, "Scripts"@, "python.exe"@]
    } else {
        seq![".venv"@, "bin"@, "python"@]
    }
}

/// Resolve the development-tree paths from the running executable's path:
/// the project root lies a fixed five parent steps up, the backend in its
/// `backend` subdirectory, the interpreter in the virtual environment
/// there. Reports nothing when the executable path is too shallow for the
/// walk up.
pub fn dev_paths(exe_path: &FsPath, windows: bool) -> (r: Option<DevPaths>)
    ensures
        match r {
            Some(dp) => {
                &&& spec_project_root(exe_path@) is Some
                &&& dp.backend_dir@ == spec_project_root(exe_path@).unwrap().push("backend"@)
                &&& dp.interpreter@ == dp.backend_dir@ + venv_interpreter_suffix(windows)
            },
            None => spec_project_root(exe_path@) is None,
        },
{
    let mut root = exe_path.duplicate();
    let mut steps: usize = 0;
    while steps < 5
        invariant
            steps <= 5,
            exe_path@.len() >= steps,
            root@ == exe_path@.take(exe_path@.len() - steps),
        decreases 5 - steps,
    {
        match root.parent() {
            Some(p) => {
                proof {
                    assert(p@ =~= exe_path@.take(exe_path@.len() - (steps + 1)));
                }
                root = p;
            },
            None => {
                return None;
            },
        }
        steps += 1;
    }
    let backend_dir = root.child("backend");
    let interpreter = if windows {
        backend_dir.child(".venv").child("Scripts").child("python.exe")
    } else {
        backend_dir.child(".venv").child("bin").child("python")
    };
    proof {
        assert(interpreter@ =~= backend_dir@ + venv_interpreter_suffix(windows));
    }
    Some(DevPaths { backend_dir, interpreter })
}

/// Describe the development-fallback launch, given the host's answer to
/// whether the backend directory and the interpreter exist. The fallback
/// runs only when both exist: the interpreter is the program, run from the
/// backend directory, with the fixed ASGI-server arguments and no extra
/// environment. When either is missing the fallback itself fails — there
/// is no further fallback.
pub fn dev_command(dp: &DevPaths, backend_dir_exists: bool, interpreter_exists: bool) -> (r:
    Option<LaunchCommand>)
    ensures
        match r {
            Some(c) => backend_dir_exists && interpreter_exists && c.program@ == dp.interpreter@
                && c.working_dir@ == dp.backend_dir@ && c.args.deep_view() == dev_args()
                && c.env.deep_view() == Seq::<(Seq<char>, Seq<char>)>::empty() && !c.hide_console,
            None => !(backend_dir_exists && interpreter_exists),
        },
{
    if !backend_dir_exists || !interpreter_exists {
        return None;
    }
    let mut args: Vec<String> = Vec::new();
    args.push("-m".to_string());
    args.push("uvicorn".to_string());
    args.push("main:app".to_string());
    args.push("--host".to_string());
    args.push("127.0.0.1".to_string());
    args.push("--port".to_string());
    args.push("8000".to_string());
    let env: Vec<EnvAssign> = Vec::new();
    proof {
        assert(args.deep_view() =~= dev_args());
        assert(env.deep_view() =~= Seq::<(Seq<char>, Seq<char>)>::empty());
    }
    Some(
        LaunchCommand {
            program: dp.interpreter.duplicate(),
            working_dir: dp.backend_dir.duplicate(),
            args,
            env,
            hide_console: false,
        },
    )
}

} // verus!
