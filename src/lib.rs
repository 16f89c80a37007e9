use vstd::prelude::*;

pub mod bind;
pub mod delete;
pub mod error;
pub mod event;
pub mod init;
pub mod list;
pub mod time;
pub mod wide;

use crate::error::{Error, TrashItem};

verus! {

/// Deletes the given trash entries for good. Not provided yet: always fails
/// with `NotImplemented`.
pub fn purge_all(items: Vec<TrashItem>) -> (r: Result<(), Error>)
    ensures
        r == Err::<(), Error>(Error::NotImplemented),
{
    Err(Error::NotImplemented)
}

/// Puts the given trash entries back where they were. Not provided yet:
/// always fails with `NotImplemented`.
pub fn restore_all(items: Vec<TrashItem>) -> (r: Result<(), Error>)
    ensures
        r == Err::<(), Error>(Error::NotImplemented),
{
    Err(Error::NotImplemented)
}

} // verus!
