//! The detached worker launcher. Launching a process is done outside the library; the
//! checks on the worker executable are here.
use crate::error::fails_with_text;
use crate::model::{is_absolute_path, path_is_absolute};
use crate::text::chars_of;
use vstd::prelude::*;

verus! {

/// Launches the worker as a detached process (a new session on Unix, a detached process
/// group on Windows).
#[derive(Clone, Copy, Debug, Default)]
pub struct DetachedProcessLauncher;

pub open spec fn relative_worker_message() -> Seq<char> {
    "worker executable path must be absolute"@
}

pub open spec fn nul_worker_message() -> Seq<char> {
    "worker executable path contains a NUL code unit"@
}

/// The Windows launcher's checks on the worker executable: an absolute path, without a NUL
/// character (it is passed as a NUL-terminated wide string).
pub fn check_worker_executable(path: &str) -> (r: Result<(), String>)
    ensures
        !path_is_absolute(path@) ==> fails_with_text(r, relative_worker_message()),
        path_is_absolute(path@) && path@.contains('\0') ==> fails_with_text(r, nul_worker_message()),
        r is Ok <==> path_is_absolute(path@) && !path@.contains('\0'),
{
    if !is_absolute_path(path) {
        return Err(String::from_str("worker executable path must be absolute"));
    }
    let v = chars_of(path);
    let mut i: usize = 0;
    while i < v.len()
        invariant
            v@ == path@,
            i <= v@.len(),
            forall|k: int| 0 <= k < i ==> v@[k] != '\0',
            path_is_absolute(path@),
        decreases v@.len() - i,
    {
        if v[i] == '\0' {
            return Err(String::from_str("worker executable path contains a NUL code unit"));
        }
        i = i + 1;
    }
    Ok(())
}

} // verus!
