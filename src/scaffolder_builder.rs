//! The staged setup that prepares a `Scaffolder`, written as a state machine.
//!
//! The builder never touches the file system or the environment itself. Each
//! call returns an `Action` for the caller to carry out; the caller hands the
//! result back as an `Event` to `resume`, until an `Action::Finish` comes.
use vstd::prelude::*;
use crate::env_helpers::{
    add_to_path, get_project_name, get_user_data_dir_path, joined, join_path, list_sep,
    path_with, path_without, remove_from_path, usage_text, user_data_dir, Platform, UserDirVars,
};
use crate::error::ScaffoldError;
use crate::scaffolder::Scaffolder;
use crate::{CMAKE_SCAFFOLDER_DIR, SCAFFOLDER_FILE_NAME};

verus! {

/// Where the setup stands: the stage names what the builder waits for.
#[derive(Debug, Clone, Copy, PartialEq, Eq, Structural)]
pub enum Stage {
    Start,
    AwaitUserDirVars,
    AwaitDirExistsForRemoval,
    AwaitDirRemoved,
    AwaitFileExistsForRemoval,
    AwaitFileRemoved,
    AwaitSearchPathForRemoval,
    AwaitSearchPathRemoved,
    AwaitDirExists,
    AwaitDirCreated,
    AwaitFileExists,
    AwaitFileInstalled,
    AwaitSearchPath,
    AwaitSearchPathAdded,
    AwaitArgs,
    Finished,
}

/// What the builder asks of its caller.
#[derive(Debug)]
pub enum Action {
    /// Read the variables that locate the per-user data directory.
    ReadUserDirVars,
    /// Tell whether something exists at the path.
    CheckExists(String),
    /// Remove the directory and all it holds.
    RemoveDir(String),
    /// Remove the file.
    RemoveFile(String),
    /// Create the directory and any missing ancestors.
    CreateDir(String),
    /// Write the scaffolder script to the path.
    InstallFile(String),
    /// Read the search-path variable.
    ReadSearchPath,
    /// Set the search-path variable to the text.
    WriteSearchPath(String),
    /// Read the command-line arguments, program name first.
    ReadArgs,
    /// The setup is over, with this outcome.
    Finish(Result<Scaffolder, ScaffoldError>),
}

/// The caller's answer to the last `Action`.
#[derive(Debug)]
pub enum Event {
    /// Answers `ReadUserDirVars`.
    UserDirVars(UserDirVars),
    /// Answers `CheckExists`.
    Exists(bool),
    /// Answers the actions that change something; an error holds its reason.
    Done(Result<(), String>),
    /// Answers `ReadSearchPath`; `None` where the variable is not set.
    SearchPath(Option<String>),
    /// Answers `ReadArgs`.
    Args(Vec<String>),
}

/// The builder as a value: its stage and the paths it has resolved.
pub struct BuilderModel {
    pub platform: Platform,
    pub from_scratch: bool,
    pub stage: Stage,
    pub user_dir: Seq<char>,
    pub dir: Seq<char>,
    pub file: Seq<char>,
}

/// Whether the three paths have been resolved at `s`.
pub open spec fn is_resolved(s: Stage) -> bool {
    !(s == Stage::Start || s == Stage::AwaitUserDirVars || s == Stage::Finished)
}

/// The scaffolder directory under the per-user data directory `user_dir`.
pub open spec fn scaffolder_dir(user_dir: Seq<char>, platform: Platform) -> Seq<char> {
    joined(user_dir, CMAKE_SCAFFOLDER_DIR@, platform)
}

/// The script's path in the scaffolder directory `dir`.
pub open spec fn scaffolder_file(dir: Seq<char>, platform: Platform) -> Seq<char> {
    joined(dir, SCAFFOLDER_FILE_NAME@, platform)
}

/// Once resolved, the paths lie one under the other.
pub open spec fn model_wf(m: BuilderModel) -> bool {
    is_resolved(m.stage) ==> m.dir == scaffolder_dir(m.user_dir, m.platform) && m.file
        == scaffolder_file(m.dir, m.platform)
}

pub open spec fn keeps_paths(m: BuilderModel, m2: BuilderModel) -> bool {
    &&& m2.platform == m.platform
    &&& m2.from_scratch == m.from_scratch
    &&& m2.user_dir == m.user_dir
    &&& m2.dir == m.dir
    &&& m2.file == m.file
}

pub open spec fn moves_to(m: BuilderModel, m2: BuilderModel, s: Stage) -> bool {
    keeps_paths(m, m2) && m2.stage == s
}

/// The setup ends with the error `e`.
pub open spec fn fails_with(m: BuilderModel, m2: BuilderModel, a: Action, e: ScaffoldError) -> bool {
    moves_to(m, m2, Stage::Finished) && a == Action::Finish(Err(e))
}

/// The setup ends because a stage was reached out of turn.
pub open spec fn fails_in_state(m: BuilderModel, m2: BuilderModel, a: Action) -> bool {
    moves_to(m, m2, Stage::Finished) && a is Finish && a->Finish_0 is Err
        && a->Finish_0->Err_0 is BuilderStateError
}

pub open spec fn asks_exists(a: Action, p: Seq<char>) -> bool {
    a is CheckExists && a->CheckExists_0@ == p
}

/// The answer to an action that changes something: on success the builder
/// goes on to `next` and asks what `asks_next` says; on failure it ends with
/// an `IoError` that holds the reason.
pub open spec fn after_done(
    m: BuilderModel,
    e: Event,
    m2: BuilderModel,
    a: Action,
    next: Stage,
    asks_next: bool,
) -> bool {
    match e {
        Event::Done(Ok(())) => moves_to(m, m2, next) && asks_next,
        Event::Done(Err(msg)) => fails_with(m, m2, a, ScaffoldError::IoError(msg)),
        _ => fails_in_state(m, m2, a),
    }
}

/// The answer to `ReadUserDirVars`: the paths are resolved and the builder
/// asks whether the scaffolder directory exists.
pub open spec fn resolves(m: BuilderModel, vars: UserDirVars, m2: BuilderModel, a: Action) -> bool {
    if m.platform == Platform::Other {
        fails_with(m, m2, a, ScaffoldError::UnsupportedPlatform)
    } else {
        match user_data_dir(m.platform, vars) {
            None => moves_to(m, m2, Stage::Finished) && a is Finish && a->Finish_0 is Err
                && a->Finish_0->Err_0 is MissingEnvironmentVariable,
            Some(u) => {
                &&& m2.platform == m.platform
                &&& m2.from_scratch == m.from_scratch
                &&& m2.user_dir == u
                &&& m2.dir == scaffolder_dir(u, m.platform)
                &&& m2.file == scaffolder_file(m2.dir, m.platform)
                &&& m2.stage == if m.from_scratch {
                    Stage::AwaitDirExistsForRemoval
                } else {
                    Stage::AwaitDirExists
                }
                &&& asks_exists(a, m2.dir)
            },
        }
    }
}

/// The answer to `ReadArgs`: the setup ends with the scaffolder for the
/// installed script and the first argument, or with a usage error.
pub open spec fn finishes(m: BuilderModel, args: Seq<String>, m2: BuilderModel, a: Action) -> bool {
    &&& moves_to(m, m2, Stage::Finished)
    &&& a is Finish
    &&& args.len() >= 2 ==> a->Finish_0 is Ok && a->Finish_0->Ok_0@ == (m.file, args[1]@)
    &&& args.len() < 2 ==> a->Finish_0 is Err && a->Finish_0->Err_0 is UsageError
        && a->Finish_0->Err_0->UsageError_0@ == usage_text(
        if args.len() == 0 {
            Seq::<char>::empty()
        } else {
            args[0]@
        },
    )
}

/// The step from `m` on the answer `e`: the next state `m2` and request `a`.
/// Teardown steps (only from scratch) take out the scaffolder directory, the
/// script and the search-path entry where present; setup steps then create
/// what is missing, register the directory and read the project name.
pub open spec fn transition(m: BuilderModel, e: Event, m2: BuilderModel, a: Action) -> bool {
    match m.stage {
        Stage::AwaitUserDirVars => match e {
            Event::UserDirVars(vars) => resolves(m, vars, m2, a),
            _ => fails_in_state(m, m2, a),
        },
        Stage::AwaitDirExistsForRemoval => match e {
            Event::Exists(b) => if b {
                moves_to(m, m2, Stage::AwaitDirRemoved) && a is RemoveDir && a->RemoveDir_0@
                    == m.dir
            } else {
                moves_to(m, m2, Stage::AwaitFileExistsForRemoval) && asks_exists(a, m.file)
            },
            _ => fails_in_state(m, m2, a),
        },
        Stage::AwaitDirRemoved => after_done(
            m,
            e,
            m2,
            a,
            Stage::AwaitFileExistsForRemoval,
            asks_exists(a, m.file),
        ),
        Stage::AwaitFileExistsForRemoval => match e {
            Event::Exists(b) => if b {
                moves_to(m, m2, Stage::AwaitFileRemoved) && a is RemoveFile && a->RemoveFile_0@
                    == m.file
            } else {
                moves_to(m, m2, Stage::AwaitSearchPathForRemoval) && a is ReadSearchPath
            },
            _ => fails_in_state(m, m2, a),
        },
        Stage::AwaitFileRemoved => after_done(
            m,
            e,
            m2,
            a,
            Stage::AwaitSearchPathForRemoval,
            a is ReadSearchPath,
        ),
        Stage::AwaitSearchPathForRemoval => match e {
            Event::SearchPath(Some(p)) => moves_to(m, m2, Stage::AwaitSearchPathRemoved)
                && a is WriteSearchPath && a->WriteSearchPath_0@ == path_without(
                p@,
                m.dir,
                list_sep(m.platform),
            ),
            Event::SearchPath(None) => moves_to(m, m2, Stage::Finished) && a is Finish
                && a->Finish_0 is Err && a->Finish_0->Err_0 is MissingEnvironmentVariable,
            _ => fails_in_state(m, m2, a),
        },
        Stage::AwaitSearchPathRemoved => after_done(
            m,
            e,
            m2,
            a,
            Stage::AwaitDirExists,
            asks_exists(a, m.dir),
        ),
        Stage::AwaitDirExists => match e {
            Event::Exists(b) => if b {
                moves_to(m, m2, Stage::AwaitFileExists) && asks_exists(a, m.file)
            } else {
                moves_to(m, m2, Stage::AwaitDirCreated) && a is CreateDir && a->CreateDir_0@
                    == m.dir
            },
            _ => fails_in_state(m, m2, a),
        },
        Stage::AwaitDirCreated => after_done(
            m,
            e,
            m2,
            a,
            Stage::AwaitFileExists,
            asks_exists(a, m.file),
        ),
        Stage::AwaitFileExists => match e {
            Event::Exists(b) => if b {
                moves_to(m, m2, Stage::AwaitSearchPath) && a is ReadSearchPath
            } else {
                moves_to(m, m2, Stage::AwaitFileInstalled) && a is InstallFile
                    && a->InstallFile_0@ == m.file
            },
            _ => fails_in_state(m, m2, a),
        },
        Stage::AwaitFileInstalled => after_done(
            m,
            e,
            m2,
            a,
            Stage::AwaitSearchPath,
            a is ReadSearchPath,
        ),
        Stage::AwaitSearchPath => match e {
            Event::SearchPath(Some(p)) => moves_to(m, m2, Stage::AwaitSearchPathAdded)
                && a is WriteSearchPath && a->WriteSearchPath_0@ == path_with(
                p@,
                m.dir,
                list_sep(m.platform),
            ),
            Event::SearchPath(None) => moves_to(m, m2, Stage::Finished) && a is Finish
                && a->Finish_0 is Err && a->Finish_0->Err_0 is MissingEnvironmentVariable,
            _ => fails_in_state(m, m2, a),
        },
        Stage::AwaitSearchPathAdded => after_done(
            m,
            e,
            m2,
            a,
            Stage::AwaitArgs,
            a is ReadArgs,
        ),
        Stage::AwaitArgs => match e {
            Event::Args(args) => finishes(m, args@, m2, a),
            _ => fails_in_state(m, m2, a),
        },
        Stage::Start => fails_in_state(m, m2, a),
        Stage::Finished => fails_in_state(m, m2, a),
    }
}

/// Setups that read the same variables on the same platform resolve the same
/// scaffolder directory and script path, and ask first about the same
/// directory: what earlier runs created does not change the paths.
pub proof fn lemma_paths_depend_on_vars_alone(
    m: BuilderModel,
    n: BuilderModel,
    vars: UserDirVars,
    m2: BuilderModel,
    n2: BuilderModel,
    a: Action,
    b: Action,
)
    requires
        m.stage == Stage::AwaitUserDirVars,
        n.stage == Stage::AwaitUserDirVars,
        m.platform == n.platform,
        transition(m, Event::UserDirVars(vars), m2, a),
        transition(n, Event::UserDirVars(vars), n2, b),
        m2.stage != Stage::Finished,
    ensures
        n2.stage != Stage::Finished,
        m2.dir == n2.dir,
        m2.file == n2.file,
        a is CheckExists && b is CheckExists && a->CheckExists_0@ == b->CheckExists_0@,
{
}

/// From scratch, a scaffolder directory that is there is removed first, and
/// the search-path entry is taken out; when the host then reports the
/// directory and the script missing, the directory is created again and a
/// fresh script is asked for at the same path.
pub proof fn lemma_from_scratch_reinstalls(
    m0: BuilderModel,
    m1: BuilderModel,
    m2: BuilderModel,
    m3: BuilderModel,
    m4: BuilderModel,
    m5: BuilderModel,
    m6: BuilderModel,
    m7: BuilderModel,
    m8: BuilderModel,
    a1: Action,
    a2: Action,
    a3: Action,
    a4: Action,
    a5: Action,
    a6: Action,
    a7: Action,
    a8: Action,
    search_path: String,
)
    requires
        m0.stage == Stage::AwaitDirExistsForRemoval,
        transition(m0, Event::Exists(true), m1, a1),
        transition(m1, Event::Done(Ok(())), m2, a2),
        transition(m2, Event::Exists(false), m3, a3),
        transition(m3, Event::SearchPath(Some(search_path)), m4, a4),
        transition(m4, Event::Done(Ok(())), m5, a5),
        transition(m5, Event::Exists(false), m6, a6),
        transition(m6, Event::Done(Ok(())), m7, a7),
        transition(m7, Event::Exists(false), m8, a8),
    ensures
        a1 is RemoveDir && a1->RemoveDir_0@ == m0.dir,
        a2 is CheckExists && a2->CheckExists_0@ == m0.file,
        a4 is WriteSearchPath && a4->WriteSearchPath_0@ == path_without(
            search_path@,
            m0.dir,
            list_sep(m0.platform),
        ),
        a6 is CreateDir && a6->CreateDir_0@ == m0.dir,
        a8 is InstallFile && a8->InstallFile_0@ == m0.file,
        m8.stage == Stage::AwaitFileInstalled,
        m8.dir == m0.dir && m8.file == m0.file,
{
}

/// Prepares the scaffolder: finds the paths, installs the script where
/// missing and registers its directory on the search path.
pub struct ScaffolderBuilder {
    platform: Platform,
    from_scratch: bool,
    stage: Stage,
    user_data_dir_path: Option<String>,
    scaffolder_dir_path: Option<String>,
    scaffolder_file_path: Option<String>,
}

pub open spec fn text_or_empty(o: Option<String>) -> Seq<char> {
    match o {
        Some(s) => s@,
        None => Seq::<char>::empty(),
    }
}

impl View for ScaffolderBuilder {
    type V = BuilderModel;

    closed spec fn view(&self) -> BuilderModel {
        BuilderModel {
            platform: self.platform,
            from_scratch: self.from_scratch,
            stage: self.stage,
            user_dir: text_or_empty(self.user_data_dir_path),
            dir: text_or_empty(self.scaffolder_dir_path),
            file: text_or_empty(self.scaffolder_file_path),
        }
    }
}

impl ScaffolderBuilder {
    /// The paths are present and lie one under the other once resolved.
    pub closed spec fn wf(&self) -> bool {
        &&& model_wf(self@)
        &&& is_resolved(self.stage) ==> self.user_data_dir_path is Some
            && self.scaffolder_dir_path is Some && self.scaffolder_file_path is Some
    }

    pub fn new(platform: Platform) -> (r: Self)
        ensures
            r.wf(),
            r@.platform == platform,
            r@.stage == Stage::Start,
            !r@.from_scratch,
    {
        ScaffolderBuilder {
            platform,
            from_scratch: false,
            stage: Stage::Start,
            user_data_dir_path: None,
            scaffolder_dir_path: None,
            scaffolder_file_path: None,
        }
    }

    fn state_error(&mut self, msg: &str) -> (r: Action)
        requires
            old(self).wf(),
        ensures
            final(self).wf(),
            fails_in_state(old(self)@, final(self)@, r),
    {
        self.stage = Stage::Finished;
        Action::Finish(Err(ScaffoldError::BuilderStateError(String::from_str(msg))))
    }

    fn fail(&mut self, e: ScaffoldError) -> (r: Action)
        requires
            old(self).wf(),
        ensures
            final(self).wf(),
            fails_with(old(self)@, final(self)@, r, e),
    {
        self.stage = Stage::Finished;
        Action::Finish(Err(e))
    }

    fn dir_path(&self) -> (r: String)
        requires
            self.wf(),
            is_resolved(self@.stage),
        ensures
            r@ == self@.dir,
    {
        match &self.scaffolder_dir_path {
            Some(d) => d.clone(),
            None => String::new(),
        }
    }

    fn file_path(&self) -> (r: String)
        requires
            self.wf(),
            is_resolved(self@.stage),
        ensures
            r@ == self@.file,
    {
        match &self.scaffolder_file_path {
            Some(f) => f.clone(),
            None => String::new(),
        }
    }

    fn start(&mut self, from_scratch: bool) -> (r: Action)
        requires
            old(self).wf(),
        ensures
            final(self).wf(),
            old(self)@.stage == Stage::Start ==> r is ReadUserDirVars && final(self)@
                == (BuilderModel {
                from_scratch,
                stage: Stage::AwaitUserDirVars,
                ..old(self)@
            }),
            old(self)@.stage != Stage::Start ==> fails_in_state(old(self)@, final(self)@, r),
    {
        if self.stage == Stage::Start {
            self.from_scratch = from_scratch;
            self.stage = Stage::AwaitUserDirVars;
            Action::ReadUserDirVars
        } else {
            self.state_error("the setup has already been started")
        }
    }

    /// Starts the setup: the paths are resolved, then what is missing is
    /// created and the directory is registered on the search path.
    pub fn build(&mut self) -> (r: Action)
        requires
            old(self).wf(),
        ensures
            final(self).wf(),
            old(self)@.stage == Stage::Start ==> r is ReadUserDirVars && final(self)@
                == (BuilderModel {
                from_scratch: false,
                stage: Stage::AwaitUserDirVars,
                ..old(self)@
            }),
            old(self)@.stage != Stage::Start ==> fails_in_state(old(self)@, final(self)@, r),
    {
        self.start(false)
    }

    /// Starts the setup from scratch: after the paths are resolved, the
    /// scaffolder directory, the script and the search-path entry are taken
    /// out first, then everything is set up as by `build`.
    pub fn build_from_scratch(&mut self) -> (r: Action)
        requires
            old(self).wf(),
        ensures
            final(self).wf(),
            old(self)@.stage == Stage::Start ==> r is ReadUserDirVars && final(self)@
                == (BuilderModel {
                from_scratch: true,
                stage: Stage::AwaitUserDirVars,
                ..old(self)@
            }),
            old(self)@.stage != Stage::Start ==> fails_in_state(old(self)@, final(self)@, r),
    {
        self.start(true)
    }

    /// Resolves the per-user data directory from the variables.
    fn with_user_data_dir_path(&mut self, vars: &UserDirVars) -> (r: Result<(), ScaffoldError>)
        requires
            old(self).wf(),
            old(self)@.stage == Stage::AwaitUserDirVars,
        ensures
            final(self).wf(),
            final(self).scaffolder_dir_path == old(self).scaffolder_dir_path,
            final(self).scaffolder_file_path == old(self).scaffolder_file_path,
            final(self)@.stage == old(self)@.stage,
            final(self)@.platform == old(self)@.platform,
            final(self)@.from_scratch == old(self)@.from_scratch,
            old(self)@.platform == Platform::Other ==> r == Err::<(), ScaffoldError>(
                ScaffoldError::UnsupportedPlatform,
            ) && final(self)@ == old(self)@,
            old(self)@.platform != Platform::Other ==> match user_data_dir(
                old(self)@.platform,
                *vars,
            ) {
                Some(u) => r is Ok && final(self).user_data_dir_path is Some && final(self)@.user_dir
                    == u,
                None => r is Err && r->Err_0 is MissingEnvironmentVariable && final(self)@
                    == old(self)@,
            },
    {
        let u = get_user_data_dir_path(self.platform, vars)?;
        self.user_data_dir_path = Some(u);
        Ok(())
    }

    /// Places the scaffolder directory under the per-user data directory.
    fn with_scaffolder_dir_path(&mut self) -> (r: Result<(), ScaffoldError>)
        requires
            old(self).wf(),
            old(self)@.stage == Stage::AwaitUserDirVars,
        ensures
            final(self).wf(),
            final(self).user_data_dir_path == old(self).user_data_dir_path,
            final(self).scaffolder_file_path == old(self).scaffolder_file_path,
            final(self)@.stage == old(self)@.stage,
            final(self)@.platform == old(self)@.platform,
            final(self)@.from_scratch == old(self)@.from_scratch,
            old(self).user_data_dir_path is Some ==> r is Ok && final(self).scaffolder_dir_path is Some
                && final(self)@.dir == scaffolder_dir(old(self)@.user_dir, old(self)@.platform),
            old(self).user_data_dir_path is None ==> r is Err && r->Err_0 is BuilderStateError,
    {
        match &self.user_data_dir_path {
            Some(u) => {
                let d = join_path(u.as_str(), CMAKE_SCAFFOLDER_DIR, self.platform);
                self.scaffolder_dir_path = Some(d);
                Ok(())
            },
            None => Err(
                ScaffoldError::BuilderStateError(
                    String::from_str("the per-user data directory is not resolved"),
                ),
            ),
        }
    }

    /// Places the script in the scaffolder directory.
    fn with_scaffolder_file_path(&mut self) -> (r: Result<(), ScaffoldError>)
        requires
            old(self).wf(),
            old(self)@.stage == Stage::AwaitUserDirVars,
        ensures
            final(self).wf(),
            final(self).user_data_dir_path == old(self).user_data_dir_path,
            final(self).scaffolder_dir_path == old(self).scaffolder_dir_path,
            final(self)@.stage == old(self)@.stage,
            final(self)@.platform == old(self)@.platform,
            final(self)@.from_scratch == old(self)@.from_scratch,
            old(self).scaffolder_dir_path is Some ==> r is Ok && final(self).scaffolder_file_path is Some
                && final(self)@.file == scaffolder_file(old(self)@.dir, old(self)@.platform),
            old(self).scaffolder_dir_path is None ==> r is Err && r->Err_0 is BuilderStateError,
    {
        match &self.scaffolder_dir_path {
            Some(d) => {
                let f = join_path(d.as_str(), SCAFFOLDER_FILE_NAME, self.platform);
                self.scaffolder_file_path = Some(f);
                Ok(())
            },
            None => Err(
                ScaffoldError::BuilderStateError(
                    String::from_str("the scaffolder directory is not resolved"),
                ),
            ),
        }
    }

    /// Handles the variables that locate the per-user data directory.
    pub fn resolve_paths(&mut self, event: Event) -> (r: Action)
        requires
            old(self).wf(),
        ensures
            final(self).wf(),
            old(self)@.stage == Stage::AwaitUserDirVars ==> transition(
                old(self)@,
                event,
                final(self)@,
                r,
            ),
            old(self)@.stage != Stage::AwaitUserDirVars ==> fails_in_state(
                old(self)@,
                final(self)@,
                r,
            ),
    {
        if self.stage != Stage::AwaitUserDirVars {
            return self.state_error("the per-user data directory was not asked for");
        }
        match event {
            Event::UserDirVars(vars) => {
                match self.with_user_data_dir_path(&vars) {
                    Ok(()) => {},
                    Err(e) => {
                        return self.fail(e);
                    },
                }
                match self.with_scaffolder_dir_path() {
                    Ok(()) => {},
                    Err(e) => {
                        return self.fail(e);
                    },
                }
                match self.with_scaffolder_file_path() {
                    Ok(()) => {},
                    Err(e) => {
                        return self.fail(e);
                    },
                }
                self.stage = if self.from_scratch {
                    Stage::AwaitDirExistsForRemoval
                } else {
                    Stage::AwaitDirExists
                };
                Action::CheckExists(self.dir_path())
            },
            _ => self.state_error("expected the per-user data directory variables"),
        }
    }
    /// The answer to an action that changes something: on success the setup
    /// goes on to `next` with the request `ask`.
    fn after_done_step(&mut self, event: Event, next: Stage, ask: Action) -> (r: Action)
        requires
            old(self).wf(),
            is_resolved(old(self)@.stage),
            is_resolved(next),
        ensures
            final(self).wf(),
            match event {
                Event::Done(Ok(())) => moves_to(old(self)@, final(self)@, next) && r == ask,
                Event::Done(Err(msg)) => fails_with(
                    old(self)@,
                    final(self)@,
                    r,
                    ScaffoldError::IoError(msg),
                ),
                _ => fails_in_state(old(self)@, final(self)@, r),
            },
    {
        match event {
            Event::Done(Ok(())) => {
                self.stage = next;
                ask
            },
            Event::Done(Err(msg)) => self.fail(ScaffoldError::IoError(msg)),
            _ => self.state_error("expected the outcome of a change"),
        }
    }

    /// Takes out the scaffolder directory, where it exists.
    pub fn remove_scaffolder_dir_if_exists(&mut self, event: Event) -> (r: Action)
        requires
            old(self).wf(),
        ensures
            final(self).wf(),
            old(self)@.stage == Stage::AwaitDirExistsForRemoval || old(self)@.stage
                == Stage::AwaitDirRemoved ==> transition(old(self)@, event, final(self)@, r),
            !(old(self)@.stage == Stage::AwaitDirExistsForRemoval || old(self)@.stage
                == Stage::AwaitDirRemoved) ==> fails_in_state(old(self)@, final(self)@, r),
    {
        match self.stage {
            Stage::AwaitDirExistsForRemoval => match event {
                Event::Exists(true) => {
                    self.stage = Stage::AwaitDirRemoved;
                    Action::RemoveDir(self.dir_path())
                },
                Event::Exists(false) => {
                    self.stage = Stage::AwaitFileExistsForRemoval;
                    Action::CheckExists(self.file_path())
                },
                _ => self.state_error("expected whether the scaffolder directory exists"),
            },
            Stage::AwaitDirRemoved => {
                let ask = Action::CheckExists(self.file_path());
                self.after_done_step(event, Stage::AwaitFileExistsForRemoval, ask)
            },
            _ => self.state_error("the scaffolder directory is not being removed"),
        }
    }

    /// Takes out the script, where it exists.
    pub fn remove_scaffolder_file_if_exists(&mut self, event: Event) -> (r: Action)
        requires
            old(self).wf(),
        ensures
            final(self).wf(),
            old(self)@.stage == Stage::AwaitFileExistsForRemoval || old(self)@.stage
                == Stage::AwaitFileRemoved ==> transition(old(self)@, event, final(self)@, r),
            !(old(self)@.stage == Stage::AwaitFileExistsForRemoval || old(self)@.stage
                == Stage::AwaitFileRemoved) ==> fails_in_state(old(self)@, final(self)@, r),
    {
        match self.stage {
            Stage::AwaitFileExistsForRemoval => match event {
                Event::Exists(true) => {
                    self.stage = Stage::AwaitFileRemoved;
                    Action::RemoveFile(self.file_path())
                },
                Event::Exists(false) => {
                    self.stage = Stage::AwaitSearchPathForRemoval;
                    Action::ReadSearchPath
                },
                _ => self.state_error("expected whether the script exists"),
            },
            Stage::AwaitFileRemoved => self.after_done_step(
                event,
                Stage::AwaitSearchPathForRemoval,
                Action::ReadSearchPath,
            ),
            _ => self.state_error("the script is not being removed"),
        }
    }

    /// Takes the scaffolder directory out of the search path.
    pub fn remove_scaffolder_dir_from_path(&mut self, event: Event) -> (r: Action)
        requires
            old(self).wf(),
        ensures
            final(self).wf(),
            old(self)@.stage == Stage::AwaitSearchPathForRemoval || old(self)@.stage
                == Stage::AwaitSearchPathRemoved ==> transition(
                old(self)@,
                event,
                final(self)@,
                r,
            ),
            !(old(self)@.stage == Stage::AwaitSearchPathForRemoval || old(self)@.stage
                == Stage::AwaitSearchPathRemoved) ==> fails_in_state(
                old(self)@,
                final(self)@,
                r,
            ),
    {
        match self.stage {
            Stage::AwaitSearchPathForRemoval => match event {
                Event::SearchPath(Some(p)) => {
                    let d = self.dir_path();
                    self.stage = Stage::AwaitSearchPathRemoved;
                    Action::WriteSearchPath(remove_from_path(p.as_str(), d.as_str(), self.platform))
                },
                Event::SearchPath(None) => self.fail(
                    ScaffoldError::MissingEnvironmentVariable(String::from_str("PATH")),
                ),
                _ => self.state_error("expected the search path"),
            },
            Stage::AwaitSearchPathRemoved => {
                let ask = Action::CheckExists(self.dir_path());
                self.after_done_step(event, Stage::AwaitDirExists, ask)
            },
            _ => self.state_error("the search path is not being cleaned"),
        }
    }

    /// Creates the scaffolder directory, where it is missing.
    pub fn create_scaffolder_dir_if_not_exists(&mut self, event: Event) -> (r: Action)
        requires
            old(self).wf(),
        ensures
            final(self).wf(),
            old(self)@.stage == Stage::AwaitDirExists || old(self)@.stage
                == Stage::AwaitDirCreated ==> transition(old(self)@, event, final(self)@, r),
            !(old(self)@.stage == Stage::AwaitDirExists || old(self)@.stage
                == Stage::AwaitDirCreated) ==> fails_in_state(old(self)@, final(self)@, r),
    {
        match self.stage {
            Stage::AwaitDirExists => match event {
                Event::Exists(true) => {
                    self.stage = Stage::AwaitFileExists;
                    Action::CheckExists(self.file_path())
                },
                Event::Exists(false) => {
                    self.stage = Stage::AwaitDirCreated;
                    Action::CreateDir(self.dir_path())
                },
                _ => self.state_error("expected whether the scaffolder directory exists"),
            },
            Stage::AwaitDirCreated => {
                let ask = Action::CheckExists(self.file_path());
                self.after_done_step(event, Stage::AwaitFileExists, ask)
            },
            _ => self.state_error("the scaffolder directory is not being created"),
        }
    }

    /// Installs the script, where it is missing.
    pub fn install_scaffolder_file_if_not_exists(&mut self, event: Event) -> (r: Action)
        requires
            old(self).wf(),
        ensures
            final(self).wf(),
            old(self)@.stage == Stage::AwaitFileExists || old(self)@.stage
                == Stage::AwaitFileInstalled ==> transition(old(self)@, event, final(self)@, r),
            !(old(self)@.stage == Stage::AwaitFileExists || old(self)@.stage
                == Stage::AwaitFileInstalled) ==> fails_in_state(old(self)@, final(self)@, r),
    {
        match self.stage {
            Stage::AwaitFileExists => match event {
                Event::Exists(true) => {
                    self.stage = Stage::AwaitSearchPath;
                    Action::ReadSearchPath
                },
                Event::Exists(false) => {
                    self.stage = Stage::AwaitFileInstalled;
                    Action::InstallFile(self.file_path())
                },
                _ => self.state_error("expected whether the script exists"),
            },
            Stage::AwaitFileInstalled => self.after_done_step(
                event,
                Stage::AwaitSearchPath,
                Action::ReadSearchPath,
            ),
            _ => self.state_error("the script is not being installed"),
        }
    }

    /// Registers the scaffolder directory on the search path.
    pub fn add_scaffolder_dir_to_path(&mut self, event: Event) -> (r: Action)
        requires
            old(self).wf(),
        ensures
            final(self).wf(),
            old(self)@.stage == Stage::AwaitSearchPath || old(self)@.stage
                == Stage::AwaitSearchPathAdded ==> transition(old(self)@, event, final(self)@, r),
            !(old(self)@.stage == Stage::AwaitSearchPath || old(self)@.stage
                == Stage::AwaitSearchPathAdded) ==> fails_in_state(old(self)@, final(self)@, r),
    {
        match self.stage {
            Stage::AwaitSearchPath => match event {
                Event::SearchPath(Some(p)) => {
                    let d = self.dir_path();
                    self.stage = Stage::AwaitSearchPathAdded;
                    Action::WriteSearchPath(add_to_path(p.as_str(), d.as_str(), self.platform))
                },
                Event::SearchPath(None) => self.fail(
                    ScaffoldError::MissingEnvironmentVariable(String::from_str("PATH")),
                ),
                _ => self.state_error("expected the search path"),
            },
            Stage::AwaitSearchPathAdded => self.after_done_step(
                event,
                Stage::AwaitArgs,
                Action::ReadArgs,
            ),
            _ => self.state_error("the search path is not being extended"),
        }
    }

    /// Ends the setup with the project name from the arguments.
    pub fn read_project_name(&mut self, event: Event) -> (r: Action)
        requires
            old(self).wf(),
        ensures
            final(self).wf(),
            old(self)@.stage == Stage::AwaitArgs ==> transition(old(self)@, event, final(self)@, r),
            old(self)@.stage != Stage::AwaitArgs ==> fails_in_state(old(self)@, final(self)@, r),
    {
        if self.stage != Stage::AwaitArgs {
            return self.state_error("the arguments were not asked for");
        }
        match event {
            Event::Args(args) => {
                let f = self.file_path();
                self.stage = Stage::Finished;
                match get_project_name(&args) {
                    Ok(name) => Action::Finish(Ok(Scaffolder::new(f, name))),
                    Err(e) => Action::Finish(Err(e)),
                }
            },
            _ => self.state_error("expected the arguments"),
        }
    }

    /// Hands the answer to the last action to the stage that waits for it,
    /// and returns the next action.
    pub fn resume(&mut self, event: Event) -> (r: Action)
        requires
            old(self).wf(),
        ensures
            final(self).wf(),
            transition(old(self)@, event, final(self)@, r),
    {
        match self.stage {
            Stage::AwaitUserDirVars => self.resolve_paths(event),
            Stage::AwaitDirExistsForRemoval => self.remove_scaffolder_dir_if_exists(event),
            Stage::AwaitDirRemoved => self.remove_scaffolder_dir_if_exists(event),
            Stage::AwaitFileExistsForRemoval => self.remove_scaffolder_file_if_exists(event),
            Stage::AwaitFileRemoved => self.remove_scaffolder_file_if_exists(event),
            Stage::AwaitSearchPathForRemoval => self.remove_scaffolder_dir_from_path(event),
            Stage::AwaitSearchPathRemoved => self.remove_scaffolder_dir_from_path(event),
            Stage::AwaitDirExists => self.create_scaffolder_dir_if_not_exists(event),
            Stage::AwaitDirCreated => self.create_scaffolder_dir_if_not_exists(event),
            Stage::AwaitFileExists => self.install_scaffolder_file_if_not_exists(event),
            Stage::AwaitFileInstalled => self.install_scaffolder_file_if_not_exists(event),
            Stage::AwaitSearchPath => self.add_scaffolder_dir_to_path(event),
            Stage::AwaitSearchPathAdded => self.add_scaffolder_dir_to_path(event),
            Stage::AwaitArgs => self.read_project_name(event),
            Stage::Start => self.state_error("the setup has not been started"),
            Stage::Finished => self.state_error("the setup is over"),
        }
    }

}

} // verus!
