//! The stored rows and the values handed back to a caller.

use vstd::prelude::*;

verus! {

/// The subject id issued by the identity provider: the primary key of a user.
pub type UserID = i64;

/// The user-facing number by which one user finds another.
pub type FriendCode = i32;

/// The protocol version a client declares.
pub type AppVer = u32;

/// The one protocol version this service answers.
pub const BACKEND_VERSION: AppVer = 4;

/// One row of the user table.
#[derive(Clone, Debug, PartialEq, Eq)]
pub struct User {
    pub id: UserID,
    pub friendcode: FriendCode,
    pub username: String,
    pub main_pet: i32,
    pub revising: bool,
}

/// The two columns a friendcode lookup selects.
#[derive(Clone, Debug, PartialEq, Eq)]
pub struct Profile {
    pub username: String,
    pub main_pet: i32,
}

/// The body of a successful user lookup.
#[derive(Clone, Debug, PartialEq, Eq)]
pub struct UserDetails {
    pub friendcode: FriendCode,
    pub username: String,
    pub main_pet: i32,
}

impl User {
    /// The columns of this row that a friendcode lookup selects.
    pub open spec fn profile(self) -> Profile {
        Profile { username: self.username, main_pet: self.main_pet }
    }

    /// What a lookup of this row by its friendcode tells the caller.
    pub open spec fn details(self) -> UserDetails {
        UserDetails {
            friendcode: self.friendcode,
            username: self.username,
            main_pet: self.main_pet,
        }
    }

    /// A copy of the selected columns.
    pub fn to_profile(&self) -> (p: Profile)
        ensures
            p == self.profile(),
    {
        Profile { username: self.username.clone(), main_pet: self.main_pet }
    }
}

} // verus!
