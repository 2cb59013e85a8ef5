//! Request handling for a study-tracking service: the caller's identity is
//! confirmed by primary key, the target is resolved by friendcode, and each
//! way the exchange can end has one HTTP status.

pub mod error;
pub mod lookup;
pub mod model;
pub mod request;
pub mod revising;
pub mod table;

pub use error::ApiError;
pub use lookup::{api_get_user, get_user, Action, Answer, LookupState};
pub use model::{AppVer, FriendCode, Profile, User, UserDetails, UserID, BACKEND_VERSION};
pub use request::{Client, GetUserRequest};
pub use revising::{api_start_revising, api_stop_revising, UpdateAnswer};
pub use table::UserTable;
