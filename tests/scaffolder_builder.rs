use std::collections::{BTreeMap, BTreeSet};

use genc::cmake_helpers::{check_tool_outcome, ToolOutcome};
use genc::env_helpers::{Platform, UserDirVars};
use genc::error::ScaffoldError;
use genc::scaffolder::{NewStrategy, Scaffolder};
use genc::scaffolder_builder::{Action, Event, ScaffolderBuilder};
use genc::{CMAKE_SCAFFOLDER_DIR, SCAFFOLDER_FILE_NAME, SCAFFOLDER_SCRIPT};

/// A file system and environment held in memory.
struct Host {
    vars: UserDirVars,
    dirs: BTreeSet<String>,
    files: BTreeMap<String, String>,
    search_path: Option<String>,
    args: Vec<String>,
    fail_create: bool,
    log: Vec<String>,
}

impl Host {
    fn new(data_dir: &str) -> Host {
        let mut dirs = BTreeSet::new();
        dirs.insert(data_dir.to_string());
        Host {
            vars: UserDirVars {
                local_app_data: None,
                app_data: None,
                home: None,
                xdg_data_home: Some(data_dir.to_string()),
            },
            dirs,
            files: BTreeMap::new(),
            search_path: Some("/usr/bin:/bin".to_string()),
            args: vec!["genc".to_string(), "demo".to_string()],
            fail_create: false,
            log: Vec::new(),
        }
    }

    fn answer(&mut self, action: Action) -> Result<Event, Result<Scaffolder, ScaffoldError>> {
        let event = match action {
            Action::ReadUserDirVars => Event::UserDirVars(self.vars.clone()),
            Action::CheckExists(p) => {
                Event::Exists(self.dirs.contains(&p) || self.files.contains_key(&p))
            }
            Action::RemoveDir(p) => {
                self.log.push(format!("rmdir {}", p));
                let prefix = format!("{}/", p);
                self.dirs.retain(|d| d != &p && !d.starts_with(&prefix));
                self.files.retain(|f, _| !f.starts_with(&prefix));
                Event::Done(Ok(()))
            }
            Action::RemoveFile(p) => {
                self.log.push(format!("rm {}", p));
                self.files.remove(&p);
                Event::Done(Ok(()))
            }
            Action::CreateDir(p) => {
                self.log.push(format!("mkdir {}", p));
                if self.fail_create {
                    Event::Done(Err("permission denied".to_string()))
                } else {
                    self.dirs.insert(p);
                    Event::Done(Ok(()))
                }
            }
            Action::InstallFile(p) => {
                self.log.push(format!("write {}", p));
                self.files.insert(p, SCAFFOLDER_SCRIPT.to_string());
                Event::Done(Ok(()))
            }
            Action::ReadSearchPath => Event::SearchPath(self.search_path.clone()),
            Action::WriteSearchPath(p) => {
                self.search_path = Some(p);
                Event::Done(Ok(()))
            }
            Action::ReadArgs => Event::Args(self.args.clone()),
            Action::Finish(outcome) => return Err(outcome),
        };
        Ok(event)
    }

    fn drive(&mut self, builder: &mut ScaffolderBuilder, first: Action) -> Result<Scaffolder, ScaffoldError> {
        let mut action = first;
        loop {
            match self.answer(action) {
                Ok(event) => action = builder.resume(event),
                Err(outcome) => return outcome,
            }
        }
    }

    fn build(&mut self) -> Result<Scaffolder, ScaffoldError> {
        let mut builder = ScaffolderBuilder::new(Platform::Linux);
        let first = builder.build();
        self.drive(&mut builder, first)
    }

    fn build_from_scratch(&mut self) -> Result<Scaffolder, ScaffoldError> {
        let mut builder = ScaffolderBuilder::new(Platform::Linux);
        let first = builder.build_from_scratch();
        self.drive(&mut builder, first)
    }
}

#[test]
fn test_main_integration() {
    let mut host = Host::new("/tmp/data");
    let scaffolder_dir_path = format!("/tmp/data/{}", CMAKE_SCAFFOLDER_DIR);
    let scaffolder_file_path = format!("{}/{}", scaffolder_dir_path, SCAFFOLDER_FILE_NAME);
    assert!(!host.dirs.contains(&scaffolder_dir_path));

    let scaffolder = host.build().unwrap();
    assert!(host.dirs.contains(&scaffolder_dir_path));
    assert_eq!(host.files.get(&scaffolder_file_path).map(|s| s.as_str()), Some(SCAFFOLDER_SCRIPT));
    assert_eq!(scaffolder.scaffolder_file_path(), scaffolder_file_path);
    assert_eq!(scaffolder.project_name(), "demo");
    assert_eq!(host.search_path.as_deref(), Some("/usr/bin:/bin:/tmp/data/GenC"));

    let invocation = scaffolder.run(&NewStrategy);
    assert_eq!(invocation.program, "cmake");
    assert_eq!(invocation.args, vec!["-D".to_string(), "PROJECT_NAME=demo".to_string(), "-P".to_string(), scaffolder_file_path]);
    // A stub tool that always exits with code zero.
    assert_eq!(check_tool_outcome(&ToolOutcome::Exited(Some(0))), Ok(()));
}

#[test]
fn build_from_scratch_replaces_stale_script() {
    let mut host = Host::new("/tmp/data");
    host.dirs.insert("/tmp/data/GenC".to_string());
    host.files.insert("/tmp/data/GenC/scaffolder.cmake".to_string(), "stale".to_string());
    host.search_path = Some("/usr/bin:/tmp/data/GenC:/bin".to_string());

    let scaffolder = host.build_from_scratch().unwrap();
    assert_eq!(
        host.log,
        vec![
            "rmdir /tmp/data/GenC",
            "mkdir /tmp/data/GenC",
            "write /tmp/data/GenC/scaffolder.cmake",
        ]
    );
    assert_eq!(
        host.files.get("/tmp/data/GenC/scaffolder.cmake").map(|s| s.as_str()),
        Some(SCAFFOLDER_SCRIPT)
    );
    assert_eq!(host.files.len(), 1);
    assert_eq!(host.search_path.as_deref(), Some("/usr/bin:/bin:/tmp/data/GenC"));
    assert_eq!(scaffolder.scaffolder_file_path(), "/tmp/data/GenC/scaffolder.cmake");
}

#[test]
fn build_from_scratch_removes_a_lone_stale_script() {
    // The script is there, the directory check says no: the script goes too.
    let mut host = Host::new("/tmp/data");
    host.files.insert("/tmp/data/GenC/scaffolder.cmake".to_string(), "stale".to_string());
    host.build_from_scratch().unwrap();
    assert_eq!(
        host.log,
        vec![
            "rm /tmp/data/GenC/scaffolder.cmake",
            "mkdir /tmp/data/GenC",
            "write /tmp/data/GenC/scaffolder.cmake",
        ]
    );
}

#[test]
fn build_keeps_an_installed_script() {
    let mut host = Host::new("/tmp/data");
    host.dirs.insert("/tmp/data/GenC".to_string());
    host.files.insert("/tmp/data/GenC/scaffolder.cmake".to_string(), "old".to_string());
    host.build().unwrap();
    assert!(host.log.is_empty());
    assert_eq!(host.files.get("/tmp/data/GenC/scaffolder.cmake").map(|s| s.as_str()), Some("old"));
}

#[test]
fn repeated_builds_leave_the_same_script_and_path() {
    let mut host = Host::new("/tmp/data");
    let first = host.build().unwrap();
    let files_after_first = host.files.clone();
    let path_after_first = host.search_path.clone();
    let second = host.build().unwrap();
    assert_eq!(first, second);
    assert_eq!(host.files, files_after_first);
    assert_eq!(host.search_path, path_after_first);
    assert_eq!(host.log.len(), 2);
    for content in host.files.values() {
        assert_eq!(content.as_bytes(), SCAFFOLDER_SCRIPT.as_bytes());
    }
}

#[test]
fn build_without_project_name_is_usage_error() {
    let mut host = Host::new("/tmp/data");
    host.args = vec!["prog".to_string()];
    assert_eq!(host.build(), Err(ScaffoldError::UsageError("Usage: prog <PROJECT_NAME>".to_string())));
}

#[test]
fn build_without_search_path_fails() {
    let mut host = Host::new("/tmp/data");
    host.search_path = None;
    assert!(matches!(host.build(), Err(ScaffoldError::MissingEnvironmentVariable(_))));
}

#[test]
fn build_without_data_dir_variables_fails() {
    let mut host = Host::new("/tmp/data");
    host.vars.xdg_data_home = None;
    assert!(matches!(host.build(), Err(ScaffoldError::MissingEnvironmentVariable(_))));
    assert!(host.log.is_empty());
}

#[test]
fn build_falls_back_to_home() {
    let mut host = Host::new("/home/u/.local/share");
    host.vars.xdg_data_home = None;
    host.vars.home = Some("/home/u".to_string());
    let scaffolder = host.build().unwrap();
    assert_eq!(scaffolder.scaffolder_file_path(), "/home/u/.local/share/GenC/scaffolder.cmake");
}

#[test]
fn failed_create_is_io_error() {
    let mut host = Host::new("/tmp/data");
    host.fail_create = true;
    assert_eq!(host.build(), Err(ScaffoldError::IoError("permission denied".to_string())));
    assert!(host.files.is_empty());
}

#[test]
fn unsupported_platform_stops_at_once() {
    let mut builder = ScaffolderBuilder::new(Platform::Other);
    let first = builder.build();
    assert!(matches!(first, Action::ReadUserDirVars));
    let mut host = Host::new("/tmp/data");
    assert_eq!(host.drive(&mut builder, first), Err(ScaffoldError::UnsupportedPlatform));
}

#[test]
fn windows_paths_use_backslash() {
    let mut builder = ScaffolderBuilder::new(Platform::Windows);
    builder.build();
    let vars = UserDirVars {
        local_app_data: Some("C:\\Users\\u\\AppData\\Local".to_string()),
        app_data: None,
        home: None,
        xdg_data_home: None,
    };
    match builder.resume(Event::UserDirVars(vars)) {
        Action::CheckExists(p) => assert_eq!(p, "C:\\Users\\u\\AppData\\Local\\GenC"),
        other => panic!("unexpected {:?}", other),
    }
    match builder.resume(Event::Exists(true)) {
        Action::CheckExists(p) => assert_eq!(p, "C:\\Users\\u\\AppData\\Local\\GenC\\scaffolder.cmake"),
        other => panic!("unexpected {:?}", other),
    }
    assert!(matches!(builder.resume(Event::Exists(true)), Action::ReadSearchPath));
    match builder.resume(Event::SearchPath(Some("C:\\Windows".to_string()))) {
        Action::WriteSearchPath(p) => assert_eq!(p, "C:\\Windows;C:\\Users\\u\\AppData\\Local\\GenC"),
        other => panic!("unexpected {:?}", other),
    }
}

#[test]
fn steps_out_of_turn_are_state_errors() {
    let mut builder = ScaffolderBuilder::new(Platform::Linux);
    assert!(matches!(
        builder.resume(Event::Exists(true)),
        Action::Finish(Err(ScaffoldError::BuilderStateError(_)))
    ));

    let mut builder = ScaffolderBuilder::new(Platform::Linux);
    builder.build();
    assert!(matches!(
        builder.build_from_scratch(),
        Action::Finish(Err(ScaffoldError::BuilderStateError(_)))
    ));

    let mut builder = ScaffolderBuilder::new(Platform::Linux);
    builder.build();
    assert!(matches!(
        builder.resume(Event::Args(vec!["p".to_string(), "n".to_string()])),
        Action::Finish(Err(ScaffoldError::BuilderStateError(_)))
    ));
    assert!(matches!(
        builder.resume(Event::Exists(false)),
        Action::Finish(Err(ScaffoldError::BuilderStateError(_)))
    ));
}
