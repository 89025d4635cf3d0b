//! The application's well-known file locations, derived from its data root.
//! Finding the root itself (an environment concern) happens at the edge.

use crate::strutil::string_push_char;
use vstd::prelude::*;
use vstd::string::{StrSliceExecFns, StringExecFns};

verus! {

/// `root` extended by one path component.
pub open spec fn joined(root: Seq<char>, name: Seq<char>) -> Seq<char> {
    root + seq!['/'] + name
}

/// Joins one component onto a directory path.
fn join_path(root: &str, name: &str) -> (r: String)
    ensures
        r@ == joined(root@, name@),
{
    let mut out = root.to_owned();
    string_push_char(&mut out, '/');
    out.append(name);
    proof {
        assert(out@ =~= joined(root@, name@));
    }
    out
}

/// The database file under the data root.
pub fn database_path(root: &str) -> (r: String)
    ensures
        r@ == joined(root@, "lyricvault_v2.db"@),
{
    join_path(root, "lyricvault_v2.db")
}

/// The cached-media directory under the data root.
pub fn downloads_dir(root: &str) -> (r: String)
    ensures
        r@ == joined(root@, "downloads"@),
{
    join_path(root, "downloads")
}

/// The log directory under the data root.
pub fn logs_dir(root: &str) -> (r: String)
    ensures
        r@ == joined(root@, "logs"@),
{
    join_path(root, "logs")
}

/// The settings file under the settings directory.
pub fn settings_path(dir: &str) -> (r: String)
    ensures
        r@ == joined(dir@, "settings.json"@),
{
    join_path(dir, "settings.json")
}

} // verus!
