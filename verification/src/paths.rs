//! Where the configuration and the data of the application live.
//!
//! A directory is decided in three steps, and the first that gives one wins:
//! the override from the environment, the per-user local directory of the
//! operating system, a directory below the working directory. Nothing here
//! reads the environment, and nothing creates a directory. Directories are
//! kept as text, with `/` between a directory and what lies in it.

use vstd::prelude::*;
use vstd::string::*;
use crate::text::text_view;

verus! {

/// The handle of `directories` on the per-user directories of a project.
#[verifier::external_type_specification]
#[verifier::external_body]
pub struct ExProjectDirs(directories::ProjectDirs);

/// `directories::ProjectDirs::from` looks up the per-user directories of the
/// project in the operating system. Whether it finds them depends on the
/// machine and the user, so nothing is claimed of what it returns.
pub assume_specification[ directories::ProjectDirs::from ](
    qualifier: &str,
    organization: &str,
    application: &str,
) -> (dirs: Option<directories::ProjectDirs>)
;

/// What `str::to_uppercase` makes of a text.
pub uninterp spec fn uppercase(text: Seq<char>) -> Seq<char>;

/// `str::to_uppercase` gives the upper-case form of a text, as Unicode
/// defines it. The contract only names the outcome.
pub assume_specification[ str::to_uppercase ](text: &str) -> (upper: String)
    ensures
        upper@ == uppercase(text@),
;

/// The local configuration directory that a handle holds, as text; `None`
/// where it is not valid Unicode.
pub uninterp spec fn config_local_text(dirs: directories::ProjectDirs) -> Option<Seq<char>>;

/// The local data directory that a handle holds, as text; `None` where it is
/// not valid Unicode.
pub uninterp spec fn data_local_text(dirs: directories::ProjectDirs) -> Option<Seq<char>>;

/// Calls `ProjectDirs::config_local_dir`, which returns a field of the handle,
/// and hands the directory out as text, `None` where it is not valid Unicode.
/// Which directory the handle holds was decided by the machine and the user
/// when the handle was made; the contract only names it.
#[verifier::external_body]
fn config_local_dir(dirs: &directories::ProjectDirs) -> (dir: Option<String>)
    ensures
        text_view(dir) == config_local_text(*dirs),
{
    dirs.config_local_dir().to_str().map(String::from)
}

/// Calls `ProjectDirs::data_local_dir`, which returns a field of the handle,
/// and hands the directory out as text, `None` where it is not valid Unicode.
/// Which directory the handle holds was decided by the machine and the user
/// when the handle was made; the contract only names it.
#[verifier::external_body]
fn data_local_dir(dirs: &directories::ProjectDirs) -> (dir: Option<String>)
    ensures
        text_view(dir) == data_local_text(*dirs),
{
    dirs.data_local_dir().to_str().map(String::from)
}

/// A directory that some handle holds as its local configuration directory.
pub open spec fn is_config_local_dir(dir: Seq<char>) -> bool {
    exists|dirs: directories::ProjectDirs| config_local_text(dirs) == Some(dir)
}

/// A directory that some handle holds as its local data directory.
pub open spec fn is_data_local_dir(dir: Seq<char>) -> bool {
    exists|dirs: directories::ProjectDirs| data_local_text(dirs) == Some(dir)
}

/// The path of what is called `name` in the directory `dir`: the empty
/// directory is the working directory, and a directory that ends in `/`
/// gets no second one.
pub open spec fn child_of(dir: Seq<char>, name: Seq<char>) -> Seq<char> {
    if dir.len() == 0 {
        name
    } else if dir.last() == '/' {
        dir + name
    } else {
        dir + seq!['/'] + name
    }
}

/// The directory that is used: the override where there is one, else the
/// directory of the operating system where there is one, else the fallback.
pub open spec fn chosen_dir(
    override_dir: Option<Seq<char>>,
    os_dir: Option<Seq<char>>,
    fallback: Seq<char>,
) -> Seq<char> {
    match override_dir {
        Some(dir) => dir,
        None => match os_dir {
            Some(dir) => dir,
            None => fallback,
        },
    }
}

/// The name under which the environment speaks of the project: the name of
/// the crate in upper case.
pub fn project_name(crate_name: &str) -> (project: String)
    ensures
        project@ == uppercase(crate_name@),
{
    crate_name.to_uppercase()
}

/// The environment variable that overrides the configuration directory of
/// `project`.
pub fn config_var(project: &str) -> (var: String)
    ensures
        var@ == project@ + "_CONFIG"@,
{
    let mut var = String::from_str(project);
    var.append("_CONFIG");
    var
}

/// The environment variable that overrides the data directory of `project`.
pub fn data_var(project: &str) -> (var: String)
    ensures
        var@ == project@ + "_DATA"@,
{
    let mut var = String::from_str(project);
    var.append("_DATA");
    var
}

/// The path of what is called `name` in the directory `dir`. `name` is taken
/// as it is and put behind the directory.
pub fn child_path(dir: &str, name: &str) -> (path: String)
    ensures
        path@ == child_of(dir@, name@),
{
    let len = dir.unicode_len();
    if len == 0 {
        String::from_str(name)
    } else {
        let mut path = String::from_str(dir);
        if dir.get_char(len - 1) != '/' {
            proof {
                reveal_strlit("/");
                assert("/"@ =~= seq!['/']);
            }
            path.append("/");
        }
        path.append(name);
        path
    }
}

/// The state file of a configuration directory.
pub fn state_file(config_dir: &str) -> (path: String)
    ensures
        path@ == child_of(config_dir@, "state.json"@),
{
    child_path(config_dir, "state.json")
}

/// The directory of theme files of a data directory, which is the one that
/// is watched for changes.
pub fn themes_dir(data_dir: &str) -> (path: String)
    ensures
        path@ == child_of(data_dir@, "themes"@),
{
    child_path(data_dir, "themes")
}

/// The configuration directory of last resort: `.config` in the working
/// directory.
pub fn fallback_config_dir() -> (dir: String)
    ensures
        dir@ == "./.config"@,
{
    let dir = child_path(".", ".config");
    proof {
        reveal_strlit(".");
        reveal_strlit(".config");
        reveal_strlit("./.config");
        assert(child_of("."@, ".config"@) =~= "./.config"@);
    }
    dir
}

/// The data directory of last resort: `.data` in the working directory.
pub fn fallback_data_dir() -> (dir: String)
    ensures
        dir@ == "./.data"@,
{
    let dir = child_path(".", ".data");
    proof {
        reveal_strlit(".");
        reveal_strlit(".data");
        reveal_strlit("./.data");
        assert(child_of("."@, ".data"@) =~= "./.data"@);
    }
    dir
}

/// Decides between the three sources of a directory: the first that is there
/// wins.
pub fn choose_dir(override_dir: Option<String>, os_dir: Option<String>, fallback: String) -> (dir:
    String)
    ensures
        dir@ == chosen_dir(text_view(override_dir), text_view(os_dir), fallback@),
{
    match override_dir {
        Some(dir) => dir,
        None => match os_dir {
            Some(dir) => dir,
            None => fallback,
        },
    }
}

/// The qualifier under which the operating system is asked for the
/// directories of the application.
pub fn project_qualifier() -> (qualifier: &'static str)
    ensures
        qualifier@ == "cn"@,
{
    "cn"
}

/// The organization under which the operating system is asked for the
/// directories of the application.
pub fn project_organization() -> (organization: &'static str)
    ensures
        organization@ == "o0x0o"@,
{
    "o0x0o"
}

/// Looks up the per-user directories of the application in the operating
/// system, under [`project_qualifier`] and [`project_organization`].
fn project_directory(application: &str) -> Option<directories::ProjectDirs> {
    directories::ProjectDirs::from(project_qualifier(), project_organization(), application)
}

/// The local configuration directory that the operating system has for the
/// application, if it has one that is valid Unicode.
fn lookup_config_dir(application: &str) -> (dir: Option<String>)
    ensures
        dir matches Some(found) ==> is_config_local_dir(found@),
{
    match project_directory(application) {
        Some(dirs) => {
            let dir = config_local_dir(&dirs);
            assert(dir matches Some(found) ==> config_local_text(dirs) == Some(found@));
            dir
        },
        None => None,
    }
}

/// The local data directory that the operating system has for the
/// application, if it has one that is valid Unicode.
fn lookup_data_dir(application: &str) -> (dir: Option<String>)
    ensures
        dir matches Some(found) ==> is_data_local_dir(found@),
{
    match project_directory(application) {
        Some(dirs) => {
            let dir = data_local_dir(&dirs);
            assert(dir matches Some(found) ==> data_local_text(dirs) == Some(found@));
            dir
        },
        None => None,
    }
}

/// The configuration directory: `override_dir` where the environment gave
/// one, else the per-user local configuration directory of `application`,
/// else `./.config`. The operating system is asked only where there is no
/// override; whether it has a directory is for the machine to say, so without
/// an override the result is one of the two.
pub fn get_config_dir(override_dir: Option<String>, application: &str) -> (dir: String)
    ensures
        override_dir matches Some(given) ==> dir@ == given@,
        override_dir is None ==> dir@ == "./.config"@ || is_config_local_dir(dir@),
{
    let os_dir = match override_dir {
        Some(_) => None,
        None => lookup_config_dir(application),
    };
    choose_dir(override_dir, os_dir, fallback_config_dir())
}

/// The data directory: `override_dir` where the environment gave one, else
/// the per-user local data directory of `application`, else `./.data`. The
/// operating system is asked only where there is no override; whether it has
/// a directory is for the machine to say, so without an override the result
/// is one of the two.
pub fn get_data_dir(override_dir: Option<String>, application: &str) -> (dir: String)
    ensures
        override_dir matches Some(given) ==> dir@ == given@,
        override_dir is None ==> dir@ == "./.data"@ || is_data_local_dir(dir@),
{
    let os_dir = match override_dir {
        Some(_) => None,
        None => lookup_data_dir(application),
    };
    choose_dir(override_dir, os_dir, fallback_data_dir())
}

/// The two directories of the application.
#[derive(Debug, Clone, PartialEq, Eq)]
pub struct PathSet {
    /// The directory that holds the state file.
    pub config_dir: String,
    /// The directory that holds the directory of theme files.
    pub data_dir: String,
}

impl PathSet {
    /// Decides both directories, each as [`get_config_dir`] and
    /// [`get_data_dir`] do.
    pub fn resolve(
        config_override: Option<String>,
        data_override: Option<String>,
        application: &str,
    ) -> (paths: PathSet)
        ensures
            config_override matches Some(given) ==> paths.config_dir@ == given@,
            data_override matches Some(given) ==> paths.data_dir@ == given@,
            config_override is None ==> paths.config_dir@ == "./.config"@ || is_config_local_dir(
                paths.config_dir@,
            ),
            data_override is None ==> paths.data_dir@ == "./.data"@ || is_data_local_dir(
                paths.data_dir@,
            ),
    {
        let config_dir = get_config_dir(config_override, application);
        let data_dir = get_data_dir(data_override, application);
        PathSet { config_dir, data_dir }
    }
}

} // verus!
