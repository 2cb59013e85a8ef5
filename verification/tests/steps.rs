use revzen_backend::lookup::{begin, step};
use revzen_backend::{
    Action, Answer, ApiError, GetUserRequest, LookupState, Profile, UserDetails,
};

fn request() -> GetUserRequest {
    GetUserRequest::new(301, 4, 2).unwrap()
}

fn alice() -> Answer {
    Answer::TargetFound(Profile { username: String::from("alice"), main_pet: 5 })
}

#[test]
fn lookup_opens_with_the_caller() {
    assert_eq!(begin(&request()), (LookupState::AwaitingCaller, Action::FindCaller(301)));
}

#[test]
fn found_caller_leads_to_the_target() {
    assert_eq!(
        step(&request(), LookupState::AwaitingCaller, Answer::CallerFound),
        (LookupState::AwaitingTarget, Action::FindTarget(2))
    );
}

#[test]
fn absent_caller_ends_the_lookup() {
    assert_eq!(
        step(&request(), LookupState::AwaitingCaller, Answer::Absent),
        (LookupState::Done, Action::Respond(Err(ApiError::CallerNotFound)))
    );
}

#[test]
fn found_target_is_handed_out() {
    assert_eq!(
        step(&request(), LookupState::AwaitingTarget, alice()),
        (
            LookupState::Done,
            Action::Respond(Ok(UserDetails {
                friendcode: 2,
                username: String::from("alice"),
                main_pet: 5
            }))
        )
    );
}

#[test]
fn absent_target_is_gone() {
    assert_eq!(
        step(&request(), LookupState::AwaitingTarget, Answer::Absent),
        (LookupState::Done, Action::Respond(Err(ApiError::TargetNotFound)))
    );
}

#[test]
fn failed_storage_is_a_failure_in_either_state() {
    for state in [LookupState::AwaitingCaller, LookupState::AwaitingTarget, LookupState::Done] {
        assert_eq!(
            step(&request(), state, Answer::Failed),
            (LookupState::Done, Action::Respond(Err(ApiError::Storage)))
        );
    }
}

#[test]
fn answer_to_another_question_is_a_failure() {
    assert_eq!(
        step(&request(), LookupState::AwaitingCaller, alice()),
        (LookupState::Done, Action::Respond(Err(ApiError::Storage)))
    );
    assert_eq!(
        step(&request(), LookupState::AwaitingTarget, Answer::CallerFound),
        (LookupState::Done, Action::Respond(Err(ApiError::Storage)))
    );
}

#[test]
fn finished_lookup_takes_no_answer() {
    for answer in [Answer::CallerFound, alice(), Answer::Absent] {
        assert_eq!(
            step(&request(), LookupState::Done, answer),
            (LookupState::Done, Action::Respond(Err(ApiError::Storage)))
        );
    }
}
