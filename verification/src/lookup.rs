//! The lookup of a user by friendcode as a conversation with storage: the
//! caller is confirmed first, the target is resolved second, and the first
//! question that finds nothing ends it.

use vstd::prelude::*;
use crate::error::{outcome_code, ApiError};
use crate::model::{AppVer, FriendCode, Profile, User, UserDetails, UserID, BACKEND_VERSION};
use crate::request::GetUserRequest;
use crate::table::{
    caller_answer, first_holder_is_unique, has_friendcode, has_id, is_first_holder,
    is_target_answer, UserTable,
};

verus! {

/// Where a lookup stands.
#[derive(Clone, Copy, Debug, PartialEq, Eq, Structural)]
pub enum LookupState {
    /// Storage was asked for the acting user's row.
    AwaitingCaller,
    /// The acting user is confirmed; storage was asked for the target's row.
    AwaitingTarget,
    /// The response was given.
    Done,
}

/// What storage said to the last question.
#[derive(Clone, Debug, PartialEq, Eq)]
pub enum Answer {
    /// The row with the primary key exists.
    CallerFound,
    /// The first row with the friendcode, by its selected columns.
    TargetFound(Profile),
    /// No row matches.
    Absent,
    /// The question could not be answered.
    Failed,
}

/// What is to be done next.
#[derive(Debug, PartialEq, Eq)]
pub enum Action {
    /// Ask storage for the row with this primary key.
    FindCaller(UserID),
    /// Ask storage for the first row with this friendcode.
    FindTarget(FriendCode),
    /// Answer the client.
    Respond(Result<UserDetails, ApiError>),
}

/// The state and the action that follow an answer.
pub open spec fn transition(req: GetUserRequest, state: LookupState, answer: Answer) -> (
    LookupState,
    Action,
) {
    match (state, answer) {
        (LookupState::AwaitingCaller, Answer::CallerFound) => (
            LookupState::AwaitingTarget,
            Action::FindTarget(req.target()),
        ),
        (LookupState::AwaitingCaller, Answer::Absent) => (
            LookupState::Done,
            Action::Respond(Err(ApiError::CallerNotFound)),
        ),
        (LookupState::AwaitingTarget, Answer::TargetFound(profile)) => (
            LookupState::Done,
            Action::Respond(
                Ok(
                    UserDetails {
                        friendcode: req.target(),
                        username: profile.username,
                        main_pet: profile.main_pet,
                    },
                ),
            ),
        ),
        (LookupState::AwaitingTarget, Answer::Absent) => (
            LookupState::Done,
            Action::Respond(Err(ApiError::TargetNotFound)),
        ),
        _ => (LookupState::Done, Action::Respond(Err(ApiError::Storage))),
    }
}

/// Opens a lookup: the acting user's row is asked for.
pub fn begin(req: &GetUserRequest) -> (first: (LookupState, Action))
    ensures
        first == (LookupState::AwaitingCaller, Action::FindCaller(req.user_id())),
{
    (LookupState::AwaitingCaller, Action::FindCaller(req.user()))
}

/// Takes storage's answer to the last question and says what follows. An
/// answer that does not fit the question, or any answer once the response
/// was given, counts as a storage failure.
pub fn step(req: &GetUserRequest, state: LookupState, answer: Answer) -> (next: (
    LookupState,
    Action,
))
    ensures
        next == transition(*req, state, answer),
{
    match state {
        LookupState::AwaitingCaller => match answer {
            Answer::CallerFound => (
                LookupState::AwaitingTarget,
                Action::FindTarget(req.friendcode()),
            ),
            Answer::Absent => (LookupState::Done, Action::Respond(Err(ApiError::CallerNotFound))),
            _ => (LookupState::Done, Action::Respond(Err(ApiError::Storage))),
        },
        LookupState::AwaitingTarget => match answer {
            Answer::TargetFound(profile) => (
                LookupState::Done,
                Action::Respond(
                    Ok(
                        UserDetails {
                            friendcode: req.friendcode(),
                            username: profile.username,
                            main_pet: profile.main_pet,
                        },
                    ),
                ),
            ),
            Answer::Absent => (LookupState::Done, Action::Respond(Err(ApiError::TargetNotFound))),
            _ => (LookupState::Done, Action::Respond(Err(ApiError::Storage))),
        },
        LookupState::Done => (LookupState::Done, Action::Respond(Err(ApiError::Storage))),
    }
}

/// `response` is what a lookup by `user` for `code` owes against these rows:
/// caller-not-found where no row has the id; else target-not-found where no
/// row has the friendcode; else the details of the first row that has it.
pub open spec fn is_get_user_response(
    users: Seq<User>,
    user: UserID,
    code: FriendCode,
    response: Result<UserDetails, ApiError>,
) -> bool {
    if !has_id(users, user) {
        response == Err::<UserDetails, ApiError>(ApiError::CallerNotFound)
    } else if !has_friendcode(users, code) {
        response == Err::<UserDetails, ApiError>(ApiError::TargetNotFound)
    } else {
        exists|i: int|
            is_first_holder(users, code, i) && response == Ok::<UserDetails, ApiError>(
                users[i].details(),
            )
    }
}

/// How many answers a lookup in this state can still take before it is done.
pub open spec fn questions_left(state: LookupState) -> nat {
    match state {
        LookupState::AwaitingCaller => 2,
        LookupState::AwaitingTarget => 1,
        LookupState::Done => 0,
    }
}

/// Looks a user up by friendcode in the table: runs the conversation from
/// its opening to its response, asking the table each question in turn.
pub fn api_get_user(db: &UserTable, user_req: &GetUserRequest) -> (response: Result<
    UserDetails,
    ApiError,
>)
    ensures
        is_get_user_response(db@, user_req.user_id(), user_req.target(), response),
{
    let (mut state, mut action) = begin(user_req);
    loop
        invariant
            state == LookupState::AwaitingCaller ==> action == Action::FindCaller(
                user_req.user_id(),
            ),
            state == LookupState::AwaitingTarget ==> action == Action::FindTarget(
                user_req.target(),
            ) && has_id(db@, user_req.user_id()),
            state == LookupState::Done ==> action is Respond && is_get_user_response(
                db@,
                user_req.user_id(),
                user_req.target(),
                action->Respond_0,
            ),
        decreases questions_left(state),
    {
        let answer = match action {
            Action::FindCaller(id) => db.find(id),
            Action::FindTarget(code) => db.find_by_friendcode(code),
            Action::Respond(response) => {
                return response;
            },
        };
        let next = step(user_req, state, answer);
        state = next.0;
        action = next.1;
    }
}

/// Serves a lookup from its decoded fields: a request that does not declare
/// the server's protocol version is refused before the table is read;
/// any other is answered from the table.
pub fn get_user(
    db: &UserTable,
    user: UserID,
    client_version: AppVer,
    friendcode: FriendCode,
) -> (response: Result<UserDetails, ApiError>)
    ensures
        client_version != BACKEND_VERSION ==> response == Err::<UserDetails, ApiError>(
            ApiError::Invalid,
        ),
        client_version == BACKEND_VERSION ==> is_get_user_response(
            db@,
            user,
            friendcode,
            response,
        ),
{
    match GetUserRequest::new(user, client_version, friendcode) {
        Ok(request) => api_get_user(db, &request),
        Err(e) => Err(e),
    }
}

/// The response of a lookup to which storage gives `caller` as its first
/// answer and, if it is asked again, `target` as its second.
pub open spec fn conclusion(req: GetUserRequest, caller: Answer, target: Answer) -> Result<
    UserDetails,
    ApiError,
> {
    let first = transition(req, LookupState::AwaitingCaller, caller);
    match first.1 {
        Action::Respond(response) => response,
        _ => match transition(req, first.0, target).1 {
            Action::Respond(response) => response,
            _ => Err(ApiError::Storage),
        },
    }
}

/// Whatever holds the rows: if each question is answered truly, the lookup
/// concludes with the response that the rows owe.
pub proof fn true_answers_give_the_owed_response(
    users: Seq<User>,
    req: GetUserRequest,
    target: Answer,
)
    requires
        is_target_answer(users, req.target(), target),
    ensures
        is_get_user_response(
            users,
            req.user_id(),
            req.target(),
            conclusion(req, caller_answer(users, req.user_id()), target),
        ),
{
    if has_id(users, req.user_id()) && has_friendcode(users, req.target()) {
        let i = choose|i: int|
            is_first_holder(users, req.target(), i) && target == Answer::TargetFound(
                users[i].profile(),
            );
        assert(conclusion(req, caller_answer(users, req.user_id()), target) == Ok::<
            UserDetails,
            ApiError,
        >(users[i].details()));
    }
}

/// A storage failure at either question ends the lookup as a failure, and
/// an unknown caller ends it before the second answer is looked at.
pub proof fn failure_and_absence_end_the_lookup(
    req: GetUserRequest,
    caller: Answer,
    target: Answer,
)
    ensures
        caller == Answer::Failed ==> conclusion(req, caller, target) == Err::<
            UserDetails,
            ApiError,
        >(ApiError::Storage),
        caller == Answer::Absent ==> conclusion(req, caller, target) == Err::<
            UserDetails,
            ApiError,
        >(ApiError::CallerNotFound),
        caller == Answer::CallerFound && target == Answer::Failed ==> conclusion(
            req,
            caller,
            target,
        ) == Err::<UserDetails, ApiError>(ApiError::Storage),
{
}

/// The target's row is asked for only in answer to the caller's row being
/// found: a lookup whose caller is unknown never reaches the friendcode.
pub proof fn target_asked_only_of_known_caller(
    req: GetUserRequest,
    state: LookupState,
    answer: Answer,
)
    ensures
        transition(req, state, answer).1 is FindTarget ==> state == LookupState::AwaitingCaller
            && answer == Answer::CallerFound,
        transition(req, state, answer).1 is FindTarget ==> transition(req, state, answer).1
            == Action::FindTarget(req.target()),
        !(transition(req, state, answer).1 is FindCaller),
{
}

/// Every answer brings a lookup nearer its end, and a lookup that is done
/// stays done.
pub proof fn every_answer_advances(req: GetUserRequest, state: LookupState, answer: Answer)
    ensures
        state != LookupState::Done ==> questions_left(transition(req, state, answer).0)
            < questions_left(state),
        transition(req, state, answer).0 == LookupState::Done <==> transition(
            req,
            state,
            answer,
        ).1 is Respond,
{
}

/// A lookup by a user whom no row holds has status 404, whatever the
/// friendcode.
pub proof fn unknown_caller_is_not_found(
    users: Seq<User>,
    user: UserID,
    code: FriendCode,
    response: Result<UserDetails, ApiError>,
)
    requires
        is_get_user_response(users, user, code, response),
        !has_id(users, user),
    ensures
        response == Err::<UserDetails, ApiError>(ApiError::CallerNotFound),
        outcome_code(response) == 404,
{
}

/// A lookup by a known user for a friendcode that no row holds has status 410.
pub proof fn unknown_target_is_gone(
    users: Seq<User>,
    user: UserID,
    code: FriendCode,
    response: Result<UserDetails, ApiError>,
)
    requires
        is_get_user_response(users, user, code, response),
        has_id(users, user),
        !has_friendcode(users, code),
    ensures
        response == Err::<UserDetails, ApiError>(ApiError::TargetNotFound),
        outcome_code(response) == 410,
{
}

/// A lookup by a known user for a friendcode that a row holds has status 200
/// and echoes the friendcode.
pub proof fn known_target_is_served(
    users: Seq<User>,
    user: UserID,
    code: FriendCode,
    response: Result<UserDetails, ApiError>,
)
    requires
        is_get_user_response(users, user, code, response),
        has_id(users, user),
        has_friendcode(users, code),
    ensures
        response is Ok,
        response->Ok_0.friendcode == code,
        outcome_code(response) == 200,
{
}

/// Asked twice against the same rows, a lookup gives the same response.
pub proof fn lookup_is_repeatable(
    users: Seq<User>,
    user: UserID,
    code: FriendCode,
    first: Result<UserDetails, ApiError>,
    second: Result<UserDetails, ApiError>,
)
    requires
        is_get_user_response(users, user, code, first),
        is_get_user_response(users, user, code, second),
    ensures
        first == second,
{
    if has_id(users, user) && has_friendcode(users, code) {
        let i = choose|i: int|
            is_first_holder(users, code, i) && first == Ok::<UserDetails, ApiError>(
                users[i].details(),
            );
        let k = choose|k: int|
            is_first_holder(users, code, k) && second == Ok::<UserDetails, ApiError>(
                users[k].details(),
            );
        first_holder_is_unique(users, code, i, k);
    }
}

} // verus!
