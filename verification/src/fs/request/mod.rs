//! The decisions of the filesystem requests: which error a failed or empty
//! lookup is answered with, what a new node and its address are, what a
//! node reads back as.
use vstd::prelude::*;

use crate::db::entity::FsNodeRow;

pub mod laws;
pub mod mknode;
pub mod readlink;
pub mod rmnode;
pub mod setattr;
pub mod util;

verus! {

/// The error numbers the filesystem answers with.
#[derive(Debug, Clone, Copy, PartialEq, Eq, Structural)]
pub enum Errno {
    EIO,
    ENOENT,
    EPERM,
    EINVAL,
    EBADF,
    ENOSYS,
}

/// A failed request: the error number to answer with, and the store's
/// error that caused it, if one did.
#[derive(Debug)]
pub struct DBFSErr<E>(pub Errno, pub Option<E>);

/// A lookup that failed in the store is an I/O error carrying the cause.
pub fn store_failure<E>(error: E) -> (r: DBFSErr<E>)
    ensures
        r == DBFSErr(Errno::EIO, Some(error)),
{
    DBFSErr(Errno::EIO, Some(error))
}

/// The node a lookup found: a store failure is `EIO` with its cause, no
/// node is `ENOENT`.
pub fn found_node<E>(found: Result<Option<FsNodeRow>, E>) -> (r: Result<FsNodeRow, DBFSErr<E>>)
    ensures
        match found {
            Err(e) => r == Err::<FsNodeRow, DBFSErr<E>>(DBFSErr(Errno::EIO, Some(e))),
            Ok(None) => r == Err::<FsNodeRow, DBFSErr<E>>(DBFSErr(Errno::ENOENT, None)),
            Ok(Some(node)) => r == Ok::<FsNodeRow, DBFSErr<E>>(node),
        },
{
    match found {
        Err(e) => Err(store_failure(e)),
        Ok(None) => Err(DBFSErr(Errno::ENOENT, None)),
        Ok(Some(node)) => Ok(node),
    }
}

} // verus!
