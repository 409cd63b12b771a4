//! What the library asks of the process environment: the user's home
//! directory and the resolution of home-relative and relative paths. Which
//! directories come back depends on the environment, so only the shape of the
//! answer is promised; the functions that take these answers as arguments say
//! what is done with them.

use resolve_path::PathResolveExt;
use vstd::prelude::*;
use crate::paths::resolves_to;

verus! {

/// The user's home directory as `dirs::home_dir` reports it, read as text.
/// Which directory that is, and whether there is one, is up to the
/// environment.
#[verifier::external_body]
pub(crate) fn home_directory() -> (home: Option<String>) {
    dirs::home_dir().map(|p| p.to_string_lossy().into_owned())
}

/// The path that `try_resolve` of `resolve_path` makes of `raw`. Nothing
/// comes back where the environment names no working directory, or no home
/// directory for a path that needs one. A path that starts at the root (on
/// Unix: with `/`) needs no resolving and comes back as it is. A path that
/// starts with `~/` comes back as what follows the `~` and its slashes,
/// appended to the home directory; any other path but `~` itself comes back
/// appended to the working directory. Which directories these are is up to
/// the environment.
#[verifier::external_body]
pub(crate) fn resolve(raw: &str) -> (resolved: Option<String>)
    ensures
        resolved matches Some(path) ==> resolves_to(raw@, path@),
{
    raw.try_resolve().ok().map(|p| p.to_string_lossy().into_owned())
}

} // verus!
