//! Where the backend executable is looked for.

use vstd::prelude::*;
use vstd::string::StrSliceExecFns;
use vstd::string::StringExecFns;
use crate::platform::Platform;
use crate::platform::is_separator;
use crate::platform::main_separator;
use crate::platform::primary_file_name;
use crate::platform::fallback_subdir;
use crate::platform::fallback_file_name;

verus! {

/// `name` appended to `base` as one more path component: a separator is put
/// between them unless `base` is empty or already ends in one.
pub open spec fn join(p: Platform, base: Seq<char>, name: Seq<char>) -> Seq<char> {
    if base.len() == 0 || is_separator(p, base.last()) {
        base + name
    } else {
        base + seq![main_separator(p)] + name
    }
}

/// The backend in the primary packaging layout: `<dir>/backend<ext>`.
pub open spec fn primary_path_of(p: Platform, dir: Seq<char>) -> Seq<char> {
    join(p, dir, primary_file_name(p))
}

/// The directory of the fallback candidate: `<dir>/binaries`.
pub open spec fn fallback_dir_of(p: Platform, dir: Seq<char>) -> Seq<char> {
    join(p, dir, fallback_subdir())
}

/// The backend in the fallback packaging layout: `<dir>/binaries/backend...`.
pub open spec fn fallback_path_of(p: Platform, dir: Seq<char>) -> Seq<char> {
    join(p, fallback_dir_of(p, dir), fallback_file_name(p))
}

/// The executable chosen for launch, with the directory that holds it.
pub struct BackendLocation {
    /// Directory the executable lies in; the backend's working directory.
    pub directory: String,
    /// Full path of the executable.
    pub executable: String,
}

/// Joins `name` onto `base` as one more path component.
pub fn join_path(p: Platform, base: &str, name: &str) -> (r: String)
    ensures
        r@ == join(p, base@, name@),
{
    let n = base.unicode_len();
    let mut s = String::from_str(base);
    if n == 0 || p.is_separator(base.get_char(n - 1)) {
        s.append(name);
    } else {
        s.append(p.main_separator());
        s.append(name);
    }
    s
}

/// The path that is probed first, under resource directory `dir`.
pub fn primary_candidate(p: Platform, dir: &str) -> (r: String)
    ensures
        r@ == primary_path_of(p, dir@),
{
    join_path(p, dir, p.primary_file_name())
}

/// Picks the backend executable under resource directory `dir`. The primary
/// candidate is taken when it exists on disk (`primary_exists`, probed by the
/// caller at `primary_candidate(p, dir)`); otherwise the fallback candidate
/// is taken, whether or not it exists, so that a missing binary surfaces as a
/// spawn failure.
pub fn resolve_backend_path(p: Platform, dir: &str, primary_exists: bool) -> (r: BackendLocation)
    ensures
        primary_exists ==> r.executable@ == primary_path_of(p, dir@)
            && r.directory@ == dir@,
        !primary_exists ==> r.executable@ == fallback_path_of(p, dir@)
            && r.directory@ == fallback_dir_of(p, dir@),
        r.executable@ == join(p, r.directory@, if primary_exists {
            primary_file_name(p)
        } else {
            fallback_file_name(p)
        }),
{
    if primary_exists {
        BackendLocation { directory: String::from_str(dir), executable: primary_candidate(p, dir) }
    } else {
        let sub = join_path(p, dir, Platform::fallback_subdir());
        let exe = join_path(p, sub.as_str(), p.fallback_file_name());
        BackendLocation { directory: sub, executable: exe }
    }
}

} // verus!
