//! Starting and stopping a study session: one update of the acting user's
//! own row, answered by how many rows it touched.

use vstd::prelude::*;
use crate::error::ApiError;
use crate::model::{User, UserID};
use crate::request::Client;
use crate::table::{has_id, unique_keys, with_revising, UserTable};

verus! {

/// What storage said to an update.
#[derive(Clone, Copy, Debug, PartialEq, Eq, Structural)]
pub enum UpdateAnswer {
    /// The update ran and touched this many rows.
    Touched(usize),
    /// The update could not be run.
    Failed,
}

/// What an update of the acting user's row owes the client.
pub open spec fn update_outcome(answer: UpdateAnswer) -> Result<(), ApiError> {
    match answer {
        UpdateAnswer::Touched(n) => if n == 1 {
            Ok(())
        } else if n == 0 {
            Err(ApiError::CallerNotFound)
        } else {
            Err(ApiError::Storage)
        },
        UpdateAnswer::Failed => Err(ApiError::Storage),
    }
}

/// Maps storage's answer to an update of the acting user's row: served if
/// exactly one row was touched, caller-not-found if none was, a storage
/// failure otherwise.
pub fn respond_to_update(answer: UpdateAnswer) -> (response: Result<(), ApiError>)
    ensures
        response == update_outcome(answer),
{
    match answer {
        UpdateAnswer::Touched(n) => {
            if n == 1 {
                Ok(())
            } else if n == 0 {
                Err(ApiError::CallerNotFound)
            } else {
                Err(ApiError::Storage)
            }
        },
        UpdateAnswer::Failed => Err(ApiError::Storage),
    }
}

/// `response` is what setting the revising flag of `user` owes against the
/// rows as they were: served if a row has the id, caller-not-found if none.
pub open spec fn is_revising_response(
    before: Seq<User>,
    user: UserID,
    response: Result<(), ApiError>,
) -> bool {
    if has_id(before, user) {
        response == Ok::<(), ApiError>(())
    } else {
        response == Err::<(), ApiError>(ApiError::CallerNotFound)
    }
}

/// Marks the acting user as revising. The table afterwards is the table
/// before with that one flag set; an unknown user changes nothing.
pub fn api_start_revising(db: &mut UserTable, user_auth: &Client) -> (response: Result<
    (),
    ApiError,
>)
    ensures
        is_revising_response(old(db)@, user_auth.user_id(), response),
        final(db)@ == with_revising(old(db)@, user_auth.user_id(), true),
        response is Err ==> final(db)@ == old(db)@,
{
    let touched = db.set_revising(user_auth.user(), true);
    proof {
        write_touches_only_the_caller(old(db)@, user_auth.user_id(), true);
    }
    respond_to_update(UpdateAnswer::Touched(touched))
}

/// Marks the acting user as not revising. The table afterwards is the table
/// before with that one flag cleared; an unknown user changes nothing.
pub fn api_stop_revising(db: &mut UserTable, user_auth: &Client) -> (response: Result<
    (),
    ApiError,
>)
    ensures
        is_revising_response(old(db)@, user_auth.user_id(), response),
        final(db)@ == with_revising(old(db)@, user_auth.user_id(), false),
        response is Err ==> final(db)@ == old(db)@,
{
    let touched = db.set_revising(user_auth.user(), false);
    proof {
        write_touches_only_the_caller(old(db)@, user_auth.user_id(), false);
    }
    respond_to_update(UpdateAnswer::Touched(touched))
}

/// Setting the flag keeps the number of rows, every key, name and pet, and
/// every row of another user; the rows with the id hold the flag. Where no
/// row has the id, nothing changes.
pub proof fn write_touches_only_the_caller(users: Seq<User>, id: UserID, flag: bool)
    ensures
        with_revising(users, id, flag).len() == users.len(),
        forall|i: int|
            0 <= i < users.len() ==> {
                let after = #[trigger] with_revising(users, id, flag)[i];
                &&& after.id == users[i].id
                &&& after.friendcode == users[i].friendcode
                &&& after.username == users[i].username
                &&& after.main_pet == users[i].main_pet
                &&& after.revising == (if users[i].id == id {
                    flag
                } else {
                    users[i].revising
                })
            },
        !has_id(users, id) ==> with_revising(users, id, flag) == users,
        unique_keys(users) ==> unique_keys(with_revising(users, id, flag)),
{
    if !has_id(users, id) {
        assert(with_revising(users, id, flag) =~= users);
    }
}

/// A write repeated leaves the rows as the first write left them: the flag
/// is set once, and no row is added or lost.
pub proof fn write_takes_effect_once(users: Seq<User>, id: UserID, flag: bool)
    ensures
        with_revising(with_revising(users, id, flag), id, flag) == with_revising(
            users,
            id,
            flag,
        ),
{
    assert(with_revising(with_revising(users, id, flag), id, flag) =~= with_revising(
        users,
        id,
        flag,
    ));
}

/// A write never adds or removes an id: whoever was known stays known, and
/// nobody else becomes known.
pub proof fn write_keeps_the_ids(users: Seq<User>, id: UserID, flag: bool, other: UserID)
    ensures
        has_id(with_revising(users, id, flag), other) == has_id(users, other),
{
    let after = with_revising(users, id, flag);
    if has_id(users, other) {
        let i = choose|i: int| 0 <= i < users.len() && (#[trigger] users[i]).id == other;
        assert(after[i].id == other);
    }
    if has_id(after, other) {
        let i = choose|i: int| 0 <= i < after.len() && (#[trigger] after[i]).id == other;
        assert(users[i].id == other);
    }
}

} // verus!
