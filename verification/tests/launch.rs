use nexa_supervisor::launch::{
    bundled_command, choose_launch_plan, dev_command, dev_paths, LaunchPlan,
};
use nexa_supervisor::path::FsPath;

fn p(components: &[&str]) -> FsPath {
    FsPath::from_components(components.iter().map(|s| s.to_string()).collect())
}

fn owned(components: &[&str]) -> Vec<String> {
    components.iter().map(|s| s.to_string()).collect()
}

#[test]
fn bundled_is_chosen_exactly_when_a_path_was_located() {
    let located = p(&["res", "nexa-backend", "nexa-backend"]);
    match choose_launch_plan(Some(located)) {
        LaunchPlan::Bundled { binary } => {
            assert_eq!(binary.components, owned(&["res", "nexa-backend", "nexa-backend"]));
        }
        LaunchPlan::DevFallback => panic!("a located path must launch bundled"),
    }
    match choose_launch_plan(None) {
        LaunchPlan::Bundled { .. } => panic!("no located path, no bundled launch"),
        LaunchPlan::DevFallback => {}
    }
}

#[test]
fn bundled_command_runs_from_the_containing_directory() {
    let binary = p(&["res", "binaries", "nexa-backend", "nexa-backend"]);
    let cmd = bundled_command(&binary, false).expect("the path has a containing directory");
    assert_eq!(cmd.program.components, binary.components);
    assert_eq!(cmd.working_dir.components, owned(&["res", "binaries", "nexa-backend"]));
    assert!(cmd.args.is_empty());
    assert_eq!(cmd.env.len(), 2);
    assert_eq!(cmd.env[0].name, "PORT");
    assert_eq!(cmd.env[0].value, "8000");
    assert_eq!(cmd.env[1].name, "HOST");
    assert_eq!(cmd.env[1].value, "127.0.0.1");
    assert!(!cmd.hide_console);
}

#[test]
fn bundled_command_hides_the_console_on_windows() {
    let binary = p(&["c", "app", "nexa-backend.exe"]);
    let cmd = bundled_command(&binary, true).expect("the path has a containing directory");
    assert!(cmd.hide_console);
}

#[test]
fn bundled_command_needs_a_containing_directory() {
    let rootless = p(&[]);
    assert!(bundled_command(&rootless, false).is_none());
}

#[test]
fn dev_paths_walk_five_levels_up() {
    let exe = p(&["home", "proj", "frontend", "target", "debug", "host"]);
    let dp = dev_paths(&exe, false).expect("the path is deep enough");
    assert_eq!(dp.backend_dir.components, owned(&["home", "backend"]));
    assert_eq!(
        dp.interpreter.components,
        owned(&["home", "backend", ".venv", "bin", "python"])
    );
}

#[test]
fn dev_paths_use_the_windows_interpreter_layout() {
    let exe = p(&["c", "proj", "frontend", "target", "debug", "host.exe"]);
    let dp = dev_paths(&exe, true).expect("the path is deep enough");
    assert_eq!(
        dp.interpreter.components,
        owned(&["c", "backend", ".venv", "Scripts", "python.exe"])
    );
}

#[test]
fn dev_paths_fail_on_a_shallow_executable_path() {
    let exe = p(&["target", "debug", "host"]);
    assert!(dev_paths(&exe, false).is_none());
}

#[test]
fn dev_command_needs_both_directory_and_interpreter() {
    let exe = p(&["home", "proj", "frontend", "target", "debug", "host"]);
    let dp = dev_paths(&exe, false).unwrap();
    assert!(dev_command(&dp, false, false).is_none());
    assert!(dev_command(&dp, true, false).is_none());
    assert!(dev_command(&dp, false, true).is_none());
    assert!(dev_command(&dp, true, true).is_some());
}

#[test]
fn dev_fallback_invokes_the_asgi_entry_point() {
    // no anchor resolves, but <exeDir>/../../../../backend/.venv/bin/python
    // exists: the fallback launches the ASGI server on port 8000
    let exe = p(&["home", "proj", "frontend", "target", "debug", "host"]);
    match choose_launch_plan(None) {
        LaunchPlan::Bundled { .. } => panic!("nothing was located"),
        LaunchPlan::DevFallback => {}
    }
    let dp = dev_paths(&exe, false).expect("the path is deep enough");
    let cmd = dev_command(&dp, true, true).expect("directory and interpreter exist");
    assert_eq!(
        cmd.program.components,
        owned(&["home", "backend", ".venv", "bin", "python"])
    );
    assert_eq!(cmd.working_dir.components, owned(&["home", "backend"]));
    assert_eq!(
        cmd.args,
        owned(&["-m", "uvicorn", "main:app", "--host", "127.0.0.1", "--port", "8000"])
    );
    assert!(cmd.env.is_empty());
    assert!(!cmd.hide_console);
}
