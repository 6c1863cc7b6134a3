//! The CMake invocation that generates a project, and how its outcome maps
//! to success or failure. Launching the process is the caller's part.
use vstd::prelude::*;
use crate::error::ScaffoldError;

verus! {

/// A program to launch and the arguments to hand it.
#[derive(Debug, Clone, PartialEq, Eq)]
pub struct Invocation {
    pub program: String,
    pub args: Vec<String>,
}

/// The arguments as texts.
pub open spec fn arg_views(args: Seq<String>) -> Seq<Seq<char>> {
    args.map_values(|a: String| a@)
}

/// The arguments that run `script` in CMake's script mode with the variable
/// `PROJECT_NAME` set to `name`.
pub open spec fn cmake_args(script: Seq<char>, name: Seq<char>) -> Seq<Seq<char>> {
    seq!["-D"@, "PROJECT_NAME="@ + name, "-P"@, script]
}

/// What became of an attempt to run the build tool.
#[derive(Debug, Clone, PartialEq, Eq)]
pub enum ToolOutcome {
    /// The tool could not be launched; holds the reason.
    NotLaunched(String),
    /// The tool ran to its end; holds its exit code, if it had one.
    Exited(Option<i32>),
}

/// The CMake invocation that runs the script at `scaffolder_path` for a
/// project called `project_name`.
pub fn cmake_invocation(scaffolder_path: &str, project_name: &str) -> (r: Invocation)
    ensures
        r.program@ == "cmake"@,
        arg_views(r.args@) == cmake_args(scaffolder_path@, project_name@),
{
    let mut define = String::from_str("PROJECT_NAME=");
    define.append(project_name);
    let mut args: Vec<String> = Vec::new();
    args.push(String::from_str("-D"));
    args.push(define);
    args.push(String::from_str("-P"));
    args.push(String::from_str(scaffolder_path));
    assert(arg_views(args@) =~= cmake_args(scaffolder_path@, project_name@));
    Invocation { program: String::from_str("cmake"), args }
}

/// Success exactly when the tool ran and exited with code zero.
pub fn check_tool_outcome(outcome: &ToolOutcome) -> (r: Result<(), ScaffoldError>)
    ensures
        match outcome {
            ToolOutcome::NotLaunched(m) => r == Err::<(), ScaffoldError>(
                ScaffoldError::SpawnError(*m),
            ),
            ToolOutcome::Exited(code) => if *code == Some(0i32) {
                r == Ok::<(), ScaffoldError>(())
            } else {
                r == Err::<(), ScaffoldError>(ScaffoldError::ToolFailure(*code))
            },
        },
{
    match outcome {
        ToolOutcome::NotLaunched(m) => Err(ScaffoldError::SpawnError(m.clone())),
        ToolOutcome::Exited(code) => match code {
            Some(c) => if *c == 0 {
                Ok(())
            } else {
                Err(ScaffoldError::ToolFailure(Some(*c)))
            },
            None => Err(ScaffoldError::ToolFailure(None)),
        },
    }
}

} // verus!
