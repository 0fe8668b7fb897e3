//! Reading the target of a link.
use vstd::prelude::*;
use vstd::string::*;
use vstd::utf8::encode_utf8;

use crate::db::entity::FsAddressRow;
use crate::fs::request::{store_failure, DBFSErr, Errno};

verus! {

/// The target a link reads: the link text of the node's address, as bytes;
/// a store failure is `EIO`, a node without an address or without a link
/// text is `ENOENT`.
pub fn readlink_target<E>(found: Result<Option<FsAddressRow>, E>) -> (r: Result<Vec<u8>, DBFSErr<E>>)
    ensures
        match found {
            Err(e) => r == Err::<Vec<u8>, DBFSErr<E>>(DBFSErr(Errno::EIO, Some(e))),
            Ok(Some(FsAddressRow { symlink_path: Some(p), .. })) => r matches Ok(bytes)
                && bytes@ == encode_utf8(p@),
            Ok(_) => r == Err::<Vec<u8>, DBFSErr<E>>(DBFSErr(Errno::ENOENT, None)),
        },
{
    match found {
        Err(e) => Err(store_failure(e)),
        Ok(Some(addr)) => match addr.symlink_path {
            Some(p) => Ok(p.as_str().as_bytes_vec()),
            None => Err(DBFSErr(Errno::ENOENT, None)),
        },
        Ok(None) => Err(DBFSErr(Errno::ENOENT, None)),
    }
}

} // verus!
