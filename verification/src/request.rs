//! Requests as they stand once decoded: a value of either type has passed
//! the protocol-version gate.

use vstd::prelude::*;
use crate::error::ApiError;
use crate::model::{AppVer, FriendCode, UserID, BACKEND_VERSION};

verus! {

/// Used to identify a client (with version number for compatibility check)
#[derive(Clone, Copy, Debug, PartialEq, Eq)]
pub struct Client {
    user: UserID,
    client_version: AppVer,
}

/// A request for the basic data of the user who holds a friendcode.
#[derive(Clone, Copy, Debug, PartialEq, Eq)]
pub struct GetUserRequest {
    user: UserID,
    client_version: AppVer,
    friendcode: FriendCode,
}

/// rocket's equality validator, `rocket::form::validate::eq`, which succeeds
/// exactly when its two arguments are equal: here on the version a client
/// declares and the version it is held to.
#[verifier::external_body]
fn version_matches(declared: AppVer, expected: AppVer) -> (accepted: bool)
    ensures
        accepted == (declared == expected),
{
    rocket::form::validate::eq(&declared, expected).is_ok()
}

impl Client {
    #[verifier::type_invariant]
    spec fn version_accepted(self) -> bool {
        self.client_version == BACKEND_VERSION
    }

    /// The acting user's id.
    pub closed spec fn user_id(self) -> UserID {
        self.user
    }

    /// The protocol version the client declared.
    pub closed spec fn version(self) -> AppVer {
        self.client_version
    }

    /// Admits the client if and only if it declares the server's protocol
    /// version, whoever the user is.
    pub fn new(user: UserID, client_version: AppVer) -> (r: Result<Client, ApiError>)
        ensures
            client_version != BACKEND_VERSION ==> r == Err::<Client, ApiError>(ApiError::Invalid),
            client_version == BACKEND_VERSION ==> r is Ok && r->Ok_0.user_id() == user
                && r->Ok_0.version() == client_version,
    {
        if version_matches(client_version, BACKEND_VERSION) {
            Ok(Client { user, client_version })
        } else {
            Err(ApiError::Invalid)
        }
    }

    /// The acting user's id.
    pub fn user(&self) -> (id: UserID)
        ensures
            id == self.user_id(),
    {
        self.user
    }

    /// The protocol version the client declared: always the server's.
    pub fn client_version(&self) -> (v: AppVer)
        ensures
            v == self.version(),
            v == BACKEND_VERSION,
    {
        proof {
            use_type_invariant(self);
        }
        self.client_version
    }
}

impl GetUserRequest {
    #[verifier::type_invariant]
    spec fn version_accepted(self) -> bool {
        self.client_version == BACKEND_VERSION
    }

    /// The acting user's id.
    pub closed spec fn user_id(self) -> UserID {
        self.user
    }

    /// The protocol version the client declared.
    pub closed spec fn version(self) -> AppVer {
        self.client_version
    }

    /// The friendcode whose holder is asked for.
    pub closed spec fn target(self) -> FriendCode {
        self.friendcode
    }

    /// Admits the request if and only if it declares the server's protocol
    /// version, whatever the other fields hold.
    pub fn new(user: UserID, client_version: AppVer, friendcode: FriendCode) -> (r: Result<
        GetUserRequest,
        ApiError,
    >)
        ensures
            client_version != BACKEND_VERSION ==> r == Err::<GetUserRequest, ApiError>(
                ApiError::Invalid,
            ),
            client_version == BACKEND_VERSION ==> r is Ok && r->Ok_0.user_id() == user
                && r->Ok_0.version() == client_version && r->Ok_0.target() == friendcode,
    {
        if version_matches(client_version, BACKEND_VERSION) {
            Ok(GetUserRequest { user, client_version, friendcode })
        } else {
            Err(ApiError::Invalid)
        }
    }

    /// The acting user's id.
    pub fn user(&self) -> (id: UserID)
        ensures
            id == self.user_id(),
    {
        self.user
    }

    /// The protocol version the client declared: always the server's.
    pub fn client_version(&self) -> (v: AppVer)
        ensures
            v == self.version(),
            v == BACKEND_VERSION,
    {
        proof {
            use_type_invariant(self);
        }
        self.client_version
    }

    /// The friendcode whose holder is asked for.
    pub fn friendcode(&self) -> (code: FriendCode)
        ensures
            code == self.target(),
    {
        self.friendcode
    }
}

} // verus!
