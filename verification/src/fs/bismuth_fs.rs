//! The decisions the mounted filesystem takes on a request before asking
//! the store: which modes make a node, which permission bits are kept.
use vstd::prelude::*;

use crate::fs::request::Errno;

verus! {

/// Reads `libc::S_IFMT`, the bits of a mode that give the file type; on
/// Linux the C library defines it as `0o170000`.
#[verifier::external_body]
fn file_type_mask() -> (r: u32)
    ensures
        r == 0o170000u32,
{
    libc::S_IFMT
}

/// Reads `libc::S_IFREG`, the file type bits of a regular file; on Linux
/// the C library defines it as `0o100000`.
#[verifier::external_body]
fn regular_file_type() -> (r: u32)
    ensures
        r == 0o100000u32,
{
    libc::S_IFREG
}

/// The permission bits a new node gets: a mode of a regular file keeps the
/// bits its umask does not clear; any other type is refused (`EINVAL`).
pub fn node_permissions(mode: u32, umask: u32) -> (r: Result<u32, Errno>)
    ensures
        r == if mode & 0o170000u32 == 0o100000u32 {
            Ok::<u32, Errno>(mode & !umask)
        } else {
            Err::<u32, Errno>(Errno::EINVAL)
        },
{
    if mode & file_type_mask() == regular_file_type() {
        Ok(mode & !umask)
    } else {
        Err(Errno::EINVAL)
    }
}

/// The permission bits a change of mode keeps: the low twelve.
pub fn changed_permissions(mode: Option<u32>) -> (r: Option<u32>)
    ensures
        r == match mode {
            Some(m) => Some(m & 0o7777u32),
            None => None,
        },
{
    match mode {
        Some(m) => Some(m & 0o7777u32),
        None => None,
    }
}

} // verus!
