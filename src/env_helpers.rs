//! What the setup reads from and writes to the process environment, as
//! functions on plain values: the caller reads the variables and writes back
//! what these functions return.
use vstd::prelude::*;
use crate::error::ScaffoldError;
use crate::path_list::{
    chars_of, contains_run, join_with, lemma_join_push, lemma_join_split, lemma_split_append,
    lemma_without_absent, lemma_without_push, occurs_in, run_equals, split_on, without,
};

verus! {

/// The operating system whose conventions apply.
#[derive(Debug, Clone, Copy, PartialEq, Eq, Structural)]
pub enum Platform {
    Windows,
    MacOs,
    Linux,
    Other,
}

/// The separator between entries of the search-path variable.
pub open spec fn list_sep(platform: Platform) -> char {
    if platform == Platform::Windows {
        ';'
    } else {
        ':'
    }
}

/// The separator that `join_path` puts between directory and name.
pub open spec fn dir_sep(platform: Platform) -> char {
    if platform == Platform::Windows {
        '\\'
    } else {
        '/'
    }
}

/// Whether `c` ends a directory name on `platform`.
pub open spec fn is_dir_sep(c: char, platform: Platform) -> bool {
    c == '/' || (platform == Platform::Windows && c == '\\')
}

/// `name` placed under the directory `base`.
pub open spec fn joined(base: Seq<char>, name: Seq<char>, platform: Platform) -> Seq<char> {
    if base.len() == 0 || is_dir_sep(base.last(), platform) {
        base + name
    } else {
        base.push(dir_sep(platform)) + name
    }
}

/// The search path after registering `dir`: unchanged where `dir` already
/// occurs in it anywhere, even inside a longer entry; else `dir` is appended
/// as a new last entry.
pub open spec fn path_with(s: Seq<char>, dir: Seq<char>, sep: char) -> Seq<char> {
    if occurs_in(dir, s) {
        s
    } else {
        s.push(sep) + dir
    }
}

/// The search path with every entry equal to `dir` taken out.
pub open spec fn path_without(s: Seq<char>, dir: Seq<char>, sep: char) -> Seq<char> {
    join_with(without(split_on(s, sep), dir), sep)
}

/// The usage line shown when no project name is given.
pub open spec fn usage_text(program: Seq<char>) -> Seq<char> {
    "Usage: "@ + program + " <PROJECT_NAME>"@
}

/// The environment variables from which the per-user data directory is found;
/// `None` where a variable is not set.
#[derive(Debug, Clone, PartialEq, Eq)]
pub struct UserDirVars {
    pub local_app_data: Option<String>,
    pub app_data: Option<String>,
    pub home: Option<String>,
    pub xdg_data_home: Option<String>,
}

/// The per-user data directory, or `None` where no variable that `platform`
/// consults is set.
pub open spec fn user_data_dir(platform: Platform, vars: UserDirVars) -> Option<Seq<char>> {
    match platform {
        Platform::Windows => match vars.local_app_data {
            Some(v) => Some(v@),
            None => match vars.app_data {
                Some(v) => Some(v@),
                None => None,
            },
        },
        Platform::MacOs => match vars.home {
            Some(h) => Some(joined(h@, "Library/Application Support"@, platform)),
            None => None,
        },
        Platform::Linux => match vars.xdg_data_home {
            Some(v) => Some(v@),
            None => match vars.home {
                Some(h) => Some(joined(h@, ".local/share"@, platform)),
                None => None,
            },
        },
        Platform::Other => None,
    }
}

/// The entry separator of the search-path variable, as text.
pub fn list_separator(platform: Platform) -> (r: &'static str)
    ensures
        r@ == seq![list_sep(platform)],
{
    if platform == Platform::Windows {
        proof {
            reveal_strlit(";");
        }
        ";"
    } else {
        proof {
            reveal_strlit(":");
        }
        ":"
    }
}

/// `name` placed under the directory `base`, with one separator between them.
pub fn join_path(base: &str, name: &str, platform: Platform) -> (r: String)
    ensures
        r@ == joined(base@, name@, platform),
{
    let n = base.unicode_len();
    let mut r = String::from_str(base);
    let needs_sep = if n == 0 {
        false
    } else {
        let c = base.get_char(n - 1);
        !(c == '/' || (platform == Platform::Windows && c == '\\'))
    };
    if needs_sep {
        if platform == Platform::Windows {
            proof {
                reveal_strlit("\\");
            }
            r.append("\\");
        } else {
            proof {
                reveal_strlit("/");
            }
            r.append("/");
        }
    }
    r.append(name);
    proof {
        if n > 0 {
            assert(base@.last() == base@[n - 1]);
        }
        if needs_sep {
            assert(r@ =~= base@.push(dir_sep(platform)) + name@);
        }
    }
    r
}

/// The per-user data directory for `platform`, from the variables it
/// consults: `LOCALAPPDATA`, then `APPDATA` on Windows; `HOME` with
/// `Library/Application Support` on macOS; `XDG_DATA_HOME`, then `HOME` with
/// `.local/share` on Linux.
pub fn get_user_data_dir_path(platform: Platform, vars: &UserDirVars) -> (r: Result<
    String,
    ScaffoldError,
>)
    ensures
        platform == Platform::Other ==> r == Err::<String, ScaffoldError>(
            ScaffoldError::UnsupportedPlatform,
        ),
        platform != Platform::Other ==> match user_data_dir(platform, *vars) {
            Some(d) => r is Ok && r->Ok_0@ == d,
            None => r is Err && r->Err_0 is MissingEnvironmentVariable,
        },
{
    match platform {
        Platform::Windows => match &vars.local_app_data {
            Some(v) => Ok(v.clone()),
            None => match &vars.app_data {
                Some(v) => Ok(v.clone()),
                None => Err(
                    ScaffoldError::MissingEnvironmentVariable(
                        String::from_str("LOCALAPPDATA or APPDATA"),
                    ),
                ),
            },
        },
        Platform::MacOs => match &vars.home {
            Some(h) => Ok(join_path(h.as_str(), "Library/Application Support", platform)),
            None => Err(ScaffoldError::MissingEnvironmentVariable(String::from_str("HOME"))),
        },
        Platform::Linux => match &vars.xdg_data_home {
            Some(v) => Ok(v.clone()),
            None => match &vars.home {
                Some(h) => Ok(join_path(h.as_str(), ".local/share", platform)),
                None => Err(
                    ScaffoldError::MissingEnvironmentVariable(
                        String::from_str("XDG_DATA_HOME or HOME"),
                    ),
                ),
            },
        },
        Platform::Other => Err(ScaffoldError::UnsupportedPlatform),
    }
}

/// The legacy install root, from the `PROGRAMFILES` variable.
pub fn get_root_programs_path(program_files: Option<String>) -> (r: Result<String, ScaffoldError>)
    ensures
        match program_files {
            Some(p) => r == Ok::<String, ScaffoldError>(p),
            None => r is Err && r->Err_0 is MissingEnvironmentVariable,
        },
{
    match program_files {
        Some(p) => Ok(p),
        None => Err(ScaffoldError::MissingEnvironmentVariable(String::from_str("PROGRAMFILES"))),
    }
}

/// The search path with `dir` registered: where `dir` does not occur in it,
/// a separator and `dir` are appended.
pub fn add_to_path(search_path: &str, dir: &str, platform: Platform) -> (r: String)
    ensures
        r@ == path_with(search_path@, dir@, list_sep(platform)),
{
    let s = chars_of(search_path);
    let d = chars_of(dir);
    let mut r = String::from_str(search_path);
    if !contains_run(&s, &d) {
        r.append(list_separator(platform));
        r.append(dir);
    }
    r
}

/// The search path with every entry equal to `dir` taken out; the other
/// entries keep their order and separators.
pub fn remove_from_path(search_path: &str, dir: &str, platform: Platform) -> (r: String)
    ensures
        r@ == path_without(search_path@, dir@, list_sep(platform)),
{
    let sep_text = list_separator(platform);
    let sep = if platform == Platform::Windows {
        ';'
    } else {
        ':'
    };
    let v = chars_of(search_path);
    let d = chars_of(dir);
    let n = v.len();
    let mut out = String::new();
    let mut any = false;
    let mut start: usize = 0;
    let mut i: usize = 0;
    let ghost mut done: Seq<Seq<char>> = Seq::empty();
    assert(v@.take(0) =~= Seq::<char>::empty());
    assert(v@.subrange(0, 0) =~= Seq::<char>::empty());
    assert(done.push(Seq::<char>::empty()) =~= seq![Seq::<char>::empty()]);
    while i < n
        invariant
            v@ == search_path@,
            d@ == dir@,
            n == v@.len(),
            sep == list_sep(platform),
            sep_text@ == seq![sep],
            start <= i <= n,
            split_on(v@.take(i as int), sep) == done.push(v@.subrange(start as int, i as int)),
            out@ == join_with(without(done, d@), sep),
            any == (without(done, d@).len() > 0),
        decreases n - i,
    {
        let ghost cur = v@.subrange(start as int, i as int);
        proof {
            assert(v@.take(i + 1).drop_last() =~= v@.take(i as int));
            assert(v@.take(i + 1).last() == v@[i as int]);
        }
        if v[i] == sep {
            let keep = !run_equals(&v, start, i, &d);
            if keep {
                if any {
                    out.append(sep_text);
                }
                out.append(search_path.substring_char(start, i));
            }
            proof {
                lemma_without_push(done, cur, d@);
                lemma_join_push(without(done, d@), cur, sep);
                done = done.push(cur);
                assert(v@.subrange(i + 1, i + 1) =~= Seq::<char>::empty());
            }
            if keep {
                any = true;
            }
            start = i + 1;
        } else {
            proof {
                assert(v@.subrange(start as int, i + 1) =~= cur.push(v@[i as int]));
                assert(done.push(cur).update(done.len() as int, cur.push(v@[i as int]))
                    =~= done.push(cur.push(v@[i as int])));
            }
        }
        i = i + 1;
    }
    let ghost cur = v@.subrange(start as int, n as int);
    if !run_equals(&v, start, n, &d) {
        if any {
            out.append(sep_text);
        }
        out.append(search_path.substring_char(start, n));
    }
    proof {
        lemma_without_push(done, cur, d@);
        lemma_join_push(without(done, d@), cur, sep);
        assert(v@.take(n as int) =~= v@);
    }
    out
}

/// Registering a directory on the search path and then taking it out again
/// gives back the search path as it was. This needs that the directory was
/// not an entry before, and that a directory holding a separator already
/// occurred in the path: else its pieces would stay behind as entries.
pub proof fn lemma_add_then_remove_restores(s: Seq<char>, dir: Seq<char>, platform: Platform)
    requires
        !split_on(s, list_sep(platform)).contains(dir),
        dir.contains(list_sep(platform)) ==> occurs_in(dir, s),
    ensures
        path_without(path_with(s, dir, list_sep(platform)), dir, list_sep(platform)) == s,
{
    let sep = list_sep(platform);
    lemma_join_split(s, sep);
    lemma_without_absent(split_on(s, sep), dir);
    if !occurs_in(dir, s) {
        lemma_split_append(s, dir, sep);
        lemma_without_push(split_on(s, sep), dir, dir);
    }
}

/// The project name: the first argument after the program name.
pub fn get_project_name(args: &Vec<String>) -> (r: Result<String, ScaffoldError>)
    ensures
        args@.len() >= 2 ==> r == Ok::<String, ScaffoldError>(args@[1]),
        args@.len() < 2 ==> r is Err && r->Err_0 is UsageError && r->Err_0->UsageError_0@
            == usage_text(if args@.len() == 0 {
            Seq::<char>::empty()
        } else {
            args@[0]@
        }),
{
    if args.len() >= 2 {
        Ok(args[1].clone())
    } else {
        let mut msg = String::from_str("Usage: ");
        if args.len() == 1 {
            msg.append(args[0].as_str());
        }
        msg.append(" <PROJECT_NAME>");
        Err(ScaffoldError::UsageError(msg))
    }
}

} // verus!
