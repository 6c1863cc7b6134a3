use genc::cmake_helpers::{check_tool_outcome, cmake_invocation, ToolOutcome};
use genc::error::ScaffoldError;
use genc::scaffolder::{NewStrategy, Scaffolder, ScaffolderStrategy};

#[test]
fn cmake_helpers_test_run_cmake_command_success() {
    let invocation = cmake_invocation("/tmp/x/scaffolder.cmake", "test_project");
    assert_eq!(invocation.program, "cmake");
    assert_eq!(
        invocation.args,
        vec!["-D", "PROJECT_NAME=test_project", "-P", "/tmp/x/scaffolder.cmake"]
    );
    assert!(check_tool_outcome(&ToolOutcome::Exited(Some(0))).is_ok(), "CMake command should succeed");
}

#[test]
fn cmake_helpers_test_run_cmake_command_failure() {
    let result = check_tool_outcome(&ToolOutcome::Exited(Some(1)));
    assert!(result.is_err(), "CMake command should fail");
    assert_eq!(result, Err(ScaffoldError::ToolFailure(Some(1))));
}

#[test]
fn tool_killed_without_code_fails() {
    assert_eq!(check_tool_outcome(&ToolOutcome::Exited(None)), Err(ScaffoldError::ToolFailure(None)));
    assert_eq!(
        check_tool_outcome(&ToolOutcome::Exited(Some(-3))),
        Err(ScaffoldError::ToolFailure(Some(-3)))
    );
}

#[test]
fn tool_not_launched_is_spawn_error() {
    let result = check_tool_outcome(&ToolOutcome::NotLaunched("not found".to_string()));
    assert_eq!(result, Err(ScaffoldError::SpawnError("not found".to_string())));
}

#[test]
fn new_strategy_runs_cmake_in_script_mode() {
    let strategy = NewStrategy;
    let invocation = strategy.run("s.cmake", "demo");
    assert_eq!(invocation.program, "cmake");
    assert_eq!(invocation.args, vec!["-D", "PROJECT_NAME=demo", "-P", "s.cmake"]);
}

#[test]
fn scaffolder_runs_strategy_on_its_script() {
    let scaffolder = Scaffolder::new("/d/GenC/scaffolder.cmake".to_string(), "my app".to_string());
    assert_eq!(scaffolder.scaffolder_file_path(), "/d/GenC/scaffolder.cmake");
    assert_eq!(scaffolder.project_name(), "my app");
    let invocation = scaffolder.run(&NewStrategy);
    assert_eq!(
        invocation.args,
        vec!["-D", "PROJECT_NAME=my app", "-P", "/d/GenC/scaffolder.cmake"]
    );
}
