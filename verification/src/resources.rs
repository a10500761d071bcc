//! Where an executable that the program starts is looked for.

use crate::text::{contains, spec_contains};
use vstd::prelude::*;

verus! {

/// Where an executable lies when the program was installed from a package.
pub open spec fn spec_packaged_path(path: Seq<char>) -> Seq<char> {
    "/usr/lib/system-bridge/"@ + path
}

/// Where an executable lies next to the program's own executable.
pub open spec fn spec_sibling_path(directory: Seq<char>, path: Seq<char>) -> Seq<char> {
    directory + "/"@ + path
}

/// Where to start an executable from: the packaged place where the system is Linux
/// and the executable is there, the place next to the program's own executable in
/// every other case.
pub open spec fn spec_application_path(
    path: Seq<char>,
    linux: bool,
    packaged_exists: bool,
    directory: Seq<char>,
) -> Seq<char> {
    if linux && packaged_exists {
        spec_packaged_path(path)
    } else {
        spec_sibling_path(directory, path)
    }
}

/// Where an executable lies when the program was installed from a package.
pub fn packaged_path(path: &str) -> (r: String)
    ensures
        r@ == spec_packaged_path(path@),
{
    let mut full = "/usr/lib/system-bridge/".to_owned();
    full.append(path);
    full
}

/// Picks the place to start an executable from. `linux` says whether the system is
/// Linux, `packaged_exists` whether there is a file at `packaged_path(path)`, and
/// `directory` is the directory of the program's own executable.
pub fn start_application(path: &str, linux: bool, packaged_exists: bool, directory: &str) -> (r:
    String)
    ensures
        r@ == spec_application_path(path@, linux, packaged_exists, directory@),
{
    if linux && packaged_exists {
        packaged_path(path)
    } else {
        let mut full = directory.to_owned();
        full.append("/");
        full.append(path);
        full
    }
}

/// Whether the start of an executable is worth a line in the log: the command line
/// tool is started too often for that.
pub fn announces_start(path: &str) -> (r: bool)
    ensures
        r == !spec_contains(path@, "systembridgecli"@),
{
    !contains(path, "systembridgecli")
}

} // verus!
