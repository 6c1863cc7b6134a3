//! A prepared scaffolder and the strategies that say what running it means.
use vstd::prelude::*;
use crate::cmake_helpers::{arg_views, cmake_args, cmake_invocation, Invocation};

verus! {

/// What running the scaffolder does, given the installed script and the
/// project name.
pub trait ScaffolderStrategy {
    /// The program and the arguments that `run` gives.
    spec fn invocation_spec(&self, script: Seq<char>, name: Seq<char>) -> (Seq<char>, Seq<Seq<char>>);

    fn run(&self, scaffolder_file_path: &str, project_name: &str) -> (r: Invocation)
        ensures
            (r.program@, arg_views(r.args@)) == self.invocation_spec(
                scaffolder_file_path@,
                project_name@,
            ),
    ;
}

/// Generates a new project by running the script with CMake.
#[derive(Debug, Clone, Copy, PartialEq, Eq, Structural)]
pub struct NewStrategy;

impl ScaffolderStrategy for NewStrategy {
    open spec fn invocation_spec(&self, script: Seq<char>, name: Seq<char>) -> (Seq<char>, Seq<Seq<char>>) {
        ("cmake"@, cmake_args(script, name))
    }

    fn run(&self, scaffolder_file_path: &str, project_name: &str) -> (r: Invocation) {
        cmake_invocation(scaffolder_file_path, project_name)
    }
}

/// The installed script and the name of the project to generate.
#[derive(Debug, Clone, PartialEq, Eq)]
pub struct Scaffolder {
    scaffolder_file_path: String,
    project_name: String,
}

impl View for Scaffolder {
    type V = (Seq<char>, Seq<char>);

    closed spec fn view(&self) -> (Seq<char>, Seq<char>) {
        (self.scaffolder_file_path@, self.project_name@)
    }
}

impl Scaffolder {
    pub fn new(scaffolder_file_path: String, project_name: String) -> (r: Self)
        ensures
            r@ == (scaffolder_file_path@, project_name@),
    {
        Scaffolder { scaffolder_file_path, project_name }
    }

    /// What `strategy` does with this script and project name.
    pub fn run<S: ScaffolderStrategy>(&self, strategy: &S) -> (r: Invocation)
        ensures
            (r.program@, arg_views(r.args@)) == strategy.invocation_spec(self@.0, self@.1),
    {
        strategy.run(self.scaffolder_file_path.as_str(), self.project_name.as_str())
    }

    pub fn scaffolder_file_path(&self) -> (r: &str)
        ensures
            r@ == self@.0,
    {
        self.scaffolder_file_path.as_str()
    }

    pub fn project_name(&self) -> (r: &str)
        ensures
            r@ == self@.1,
    {
        self.project_name.as_str()
    }
}

} // verus!
