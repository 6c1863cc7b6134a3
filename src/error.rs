//! The ways in which preparing or running the scaffolder can fail.
use vstd::prelude::*;

verus! {

/// Every failure ends the run; none is retried.
#[derive(Debug, Clone, PartialEq, Eq)]
pub enum ScaffoldError {
    /// None of the named environment variables is set.
    MissingEnvironmentVariable(String),
    /// The host system has no known per-user data directory.
    UnsupportedPlatform,
    /// No project name was given; holds the usage line.
    UsageError(String),
    /// Creating, writing or removing a file or directory failed.
    IoError(String),
    /// A setup stage was reached without what it needs.
    BuilderStateError(String),
    /// The build tool could not be launched.
    SpawnError(String),
    /// The build tool ran and did not exit with code zero; holds its code.
    ToolFailure(Option<i32>),
}

} // verus!
