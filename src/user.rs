//! The signed-in user as the desktop shell shows it.

use vstd::prelude::*;

verus! {

/// The current user's name and the path of their avatar picture, empty where
/// the system offers none.
#[derive(Clone, Debug)]
pub struct SystemUserInfo {
    pub username: String,
    pub avatar_path: String,
}

impl SystemUserInfo {
    /// The record for the user the system calls `username`; no avatar path is
    /// read from system settings, so it stays empty.
    pub fn for_user(username: String) -> (r: SystemUserInfo)
        ensures
            r.username@ == username@,
            r.avatar_path@ == Seq::<char>::empty(),
    {
        SystemUserInfo { username, avatar_path: String::new() }
    }
}

} // verus!
