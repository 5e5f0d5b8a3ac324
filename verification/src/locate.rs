//! Locating the external transcription binary.
//!
//! The search order is fixed: a development build looks in the project's
//! bundled tool directory; a packaged build on Windows looks in the
//! application's resource directory; a packaged build elsewhere prefers the
//! resource directory, then two names searched on the system PATH, then a
//! bare name left for the operating system to resolve at spawn time.
//! The caller observes the filesystem and the PATH and hands the
//! observations in; the choice itself is a pure, fully specified function.

use vstd::prelude::*;

verus! {

/// The binary's file name on the given platform.
pub open spec fn cli_name_of(windows: bool) -> Seq<char> {
    if windows {
        "whisper-cli.exe"@
    } else {
        "whisper-cli"@
    }
}

/// The candidate path inside a tool directory: `<dir>/whisher/<binary>`.
pub open spec fn tool_path_of(dir: Seq<char>, windows: bool) -> Seq<char> {
    dir + "/whisher/"@ + cli_name_of(windows)
}

/// The binary's file name on the given platform.
pub fn cli_binary_name(windows: bool) -> (r: String)
    ensures
        r@ == cli_name_of(windows),
{
    if windows {
        String::from_str("whisper-cli.exe")
    } else {
        String::from_str("whisper-cli")
    }
}

/// `<dir>/whisher/<binary>` for the given platform.
pub fn tool_path(dir: &str, windows: bool) -> (r: String)
    ensures
        r@ == tool_path_of(dir@, windows),
{
    let mut s = String::from_str(dir);
    s.append("/whisher/");
    let name = cli_binary_name(windows);
    s.append(name.as_str());
    s
}

/// Chooses the path of the transcription binary.
///
/// `resource_candidate_exists` reports whether
/// `<resource_dir>/whisher/whisper-cli` is present on disk, and
/// `path_hit_main` / `path_hit_whisper_cli` report what a PATH search found
/// for the names `main` and `whisper-cli`; all three matter only for a
/// packaged build on a non-Windows platform.
pub fn locate_whisper_cli(
    development: bool,
    windows: bool,
    project_root: &str,
    resource_dir: &str,
    resource_candidate_exists: bool,
    path_hit_main: Option<String>,
    path_hit_whisper_cli: Option<String>,
) -> (r: String)
    ensures
        development ==> r@ == tool_path_of(project_root@, windows),
        !development && windows ==> r@ == tool_path_of(resource_dir@, true),
        !development && !windows && resource_candidate_exists ==> r@ == tool_path_of(
            resource_dir@,
            false,
        ),
        !development && !windows && !resource_candidate_exists ==> (match path_hit_main {
            Some(p) => r@ == p@,
            None => match path_hit_whisper_cli {
                Some(p) => r@ == p@,
                None => r@ == "main"@,
            },
        }),
{
    if development {
        tool_path(project_root, windows)
    } else if windows {
        tool_path(resource_dir, true)
    } else if resource_candidate_exists {
        tool_path(resource_dir, false)
    } else {
        match path_hit_main {
            Some(p) => p,
            None => match path_hit_whisper_cli {
                Some(p) => p,
                None => String::from_str("main"),
            },
        }
    }
}

} // verus!
