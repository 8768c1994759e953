//! Where everything that is built once and used again is kept.

use vstd::prelude::*;
use crate::path::{join, joined};

verus! {

/// There is no directory for cached files on this machine.
#[derive(Clone, Copy, Debug, PartialEq, Eq)]
pub struct CacheDirError(pub ());

/// The name of this tool's directory among the cached files of the user.
pub open spec fn cache_name() -> Seq<char> {
    "rust-gpu"@
}

/// The directory where all the cache files are located: `rust-gpu` in
/// `user_cache_dir`, the directory that the operating system gives the user for
/// cached files. Fails where the system gives none.
pub fn cache_dir(user_cache_dir: Option<&str>) -> (r: Result<String, CacheDirError>)
    ensures
        match user_cache_dir {
            Some(base) => r matches Ok(dir) && dir@ == joined(base@, cache_name()),
            None => r is Err,
        },
{
    match user_cache_dir {
        Some(base) => Ok(join(base, "rust-gpu")),
        None => Err(CacheDirError(())),
    }
}

} // verus!
