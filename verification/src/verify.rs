//! The verifying step of a login attempt: a candidate answer is held against
//! the outstanding challenge of its address.
//!
//! The step reads and writes stores that this library does not reach. So it
//! is written as a machine: [`verify_step`] takes the state of the step and
//! what the outside world just answered, and gives the next state and the
//! next thing to do. The caller does that thing and comes back with the
//! answer, until the machine says [`VerifyAction::Finish`].
//!
//! A wrong, late or malformed answer is no failure: the step then finishes
//! with `Ok(false)`. Only a store that cannot be reached is a failure.

use vstd::prelude::*;
use vstd::string::*;
use crate::errors::{AuthError, AuthErrorView};
use crate::models::{OTPRecord, UserProfile, UserStatus, VerifyChallengeResponse};
use crate::strmap::StringMap;
use crate::utils::{
    constant_time_eq,
    hash_otp,
    is_otp_format,
    is_six_digits,
    otp_digest,
    verify_spec,
};

verus! {

/// The message of the failure when no address comes with the request.
pub const EMAIL_NOT_FOUND: &'static str = "Email not found in user attributes or client metadata";

/// The message of the failure when no answer comes with the request.
pub const ANSWER_NOT_PROVIDED: &'static str = "Challenge answer not provided";

/// The message of the failure when the caller hands over an answer that the
/// machine did not ask for.
pub const UNEXPECTED_EVENT: &'static str = "Unexpected event for this step";

/// What the identity provider hands to the verifying step.
#[derive(Debug, Clone, PartialEq, Eq)]
pub struct VerifyRequest {
    pub user_attributes: StringMap,
    pub client_metadata: Option<StringMap>,
    pub challenge_answer: Option<String>,
}

/// How far the verifying step has come.
#[derive(Debug, Clone, PartialEq, Eq)]
pub enum VerifyState {
    /// Nothing has been done yet.
    Start,
    /// The outstanding challenge of the address has been asked for.
    AwaitRecord { email: String, answer: String },
    /// The challenge was out of date and is being removed; the answer will be
    /// `false`.
    AwaitPurge,
    /// The answer was right and the challenge is being removed, so that it
    /// cannot be answered twice.
    AwaitConsume { email: String },
    /// The user's record has been asked for, to move the user on.
    AwaitUser { email: String },
    /// The user's new status is being written.
    AwaitStatusUpdate { email: String },
    /// The identity provider is being told that the address is verified.
    AwaitChannel,
    /// The step has finished.
    Done,
}

/// What a [`VerifyState`] holds, as plain values.
pub enum VerifyStateView {
    Start,
    AwaitRecord { email: Seq<char>, answer: Seq<char> },
    AwaitPurge,
    AwaitConsume { email: Seq<char> },
    AwaitUser { email: Seq<char> },
    AwaitStatusUpdate { email: Seq<char> },
    AwaitChannel,
    Done,
}

impl View for VerifyState {
    type V = VerifyStateView;

    open spec fn view(&self) -> VerifyStateView {
        match *self {
            VerifyState::Start => VerifyStateView::Start,
            VerifyState::AwaitRecord { email, answer } => VerifyStateView::AwaitRecord {
                email: email@,
                answer: answer@,
            },
            VerifyState::AwaitPurge => VerifyStateView::AwaitPurge,
            VerifyState::AwaitConsume { email } => VerifyStateView::AwaitConsume { email: email@ },
            VerifyState::AwaitUser { email } => VerifyStateView::AwaitUser { email: email@ },
            VerifyState::AwaitStatusUpdate { email } => VerifyStateView::AwaitStatusUpdate {
                email: email@,
            },
            VerifyState::AwaitChannel => VerifyStateView::AwaitChannel,
            VerifyState::Done => VerifyStateView::Done,
        }
    }
}

/// What the outside world answers.
#[derive(Debug, PartialEq, Eq)]
pub enum VerifyEvent {
    /// The request of the identity provider: it starts the step.
    Request(VerifyRequest),
    /// The outstanding challenge of the address, as the store returned it,
    /// and the time at which it was read.
    Record { found: Result<Option<OTPRecord>, AuthError>, now: i64 },
    /// The challenge was removed, or could not be.
    Deleted(Result<(), AuthError>),
    /// The user's record, as the directory returned it.
    UserFound(Result<Option<UserProfile>, AuthError>),
    /// The user's new status was written, or could not be.
    StatusUpdated(Result<(), AuthError>),
    /// The identity provider marked the address as verified, or could not.
    ChannelMarked(Result<(), AuthError>),
}

/// What the caller is to do next.
#[derive(Debug, PartialEq, Eq)]
pub enum VerifyAction {
    /// Read the outstanding challenge of the address and the clock.
    GetRecord { email: String },
    /// Remove the outstanding challenge of the address.
    DeleteRecord { email: String },
    /// Read the user's record by the address.
    FindUser { email: String },
    /// Write the user's new status.
    UpdateStatus { user_id: String, status: UserStatus },
    /// Tell the identity provider that the address is verified.
    MarkChannelVerified { email: String },
    /// Hand the result to the identity provider.
    Finish(Result<bool, AuthError>),
}

/// What a [`VerifyAction`] holds, as plain values.
pub enum VerifyActionView {
    GetRecord { email: Seq<char> },
    DeleteRecord { email: Seq<char> },
    FindUser { email: Seq<char> },
    UpdateStatus { user_id: Seq<char>, status: UserStatus },
    MarkChannelVerified { email: Seq<char> },
    Finish(Result<bool, AuthErrorView>),
}

impl View for VerifyAction {
    type V = VerifyActionView;

    open spec fn view(&self) -> VerifyActionView {
        match *self {
            VerifyAction::GetRecord { email } => VerifyActionView::GetRecord { email: email@ },
            VerifyAction::DeleteRecord { email } => VerifyActionView::DeleteRecord {
                email: email@,
            },
            VerifyAction::FindUser { email } => VerifyActionView::FindUser { email: email@ },
            VerifyAction::UpdateStatus { user_id, status } => VerifyActionView::UpdateStatus {
                user_id: user_id@,
                status,
            },
            VerifyAction::MarkChannelVerified { email } => VerifyActionView::MarkChannelVerified {
                email: email@,
            },
            VerifyAction::Finish(Ok(b)) => VerifyActionView::Finish(Ok(b)),
            VerifyAction::Finish(Err(e)) => VerifyActionView::Finish(Err(e@)),
        }
    }
}

/// The address that a request is about: the `email` attribute of the user,
/// or else the `email` entry of the client's metadata.
pub open spec fn requested_email(
    user_attributes: Map<Seq<char>, Seq<char>>,
    client_metadata: Option<Map<Seq<char>, Seq<char>>>,
) -> Option<Seq<char>> {
    if user_attributes.contains_key("email"@) {
        Some(user_attributes["email"@])
    } else {
        match client_metadata {
            Some(m) => if m.contains_key("email"@) {
                Some(m["email"@])
            } else {
                None
            },
            None => None,
        }
    }
}

/// The view of an optional map.
pub open spec fn opt_map_view(m: Option<StringMap>) -> Option<Map<Seq<char>, Seq<char>>> {
    match m {
        Some(m) => Some(m@),
        None => None,
    }
}

/// A reader treats a challenge that is past its purge time as absent, even
/// where the store still holds it.
pub open spec fn visible_record(found: Option<OTPRecord>, now: int) -> Option<OTPRecord> {
    match found {
        Some(rec) => if now > rec.ttl {
            None
        } else {
            Some(rec)
        },
        None => None,
    }
}

/// The end of the step with a failure of the machine's own.
pub open spec fn finish_unexpected() -> (VerifyStateView, VerifyActionView) {
    (
        VerifyStateView::Done,
        VerifyActionView::Finish(Err(AuthErrorView::InternalError(UNEXPECTED_EVENT@))),
    )
}

/// The end of the step with an answer.
pub open spec fn finish_with(answer: bool) -> (VerifyStateView, VerifyActionView) {
    (VerifyStateView::Done, VerifyActionView::Finish(Ok(answer)))
}

/// What the machine does on a request.
pub open spec fn on_request(req: VerifyRequest) -> (VerifyStateView, VerifyActionView) {
    match requested_email(req.user_attributes@, opt_map_view(req.client_metadata)) {
        None => (
            VerifyStateView::Done,
            VerifyActionView::Finish(Err(AuthErrorView::ValidationError(EMAIL_NOT_FOUND@))),
        ),
        Some(email) => match req.challenge_answer {
            None => (
                VerifyStateView::Done,
                VerifyActionView::Finish(
                    Err(AuthErrorView::ValidationError(ANSWER_NOT_PROVIDED@)),
                ),
            ),
            Some(answer) => if !is_six_digits(answer@) {
                finish_with(false)
            } else {
                (
                    VerifyStateView::AwaitRecord { email, answer: answer@ },
                    VerifyActionView::GetRecord { email },
                )
            },
        },
    }
}

/// What the machine does once the store has answered for the challenge,
/// given the digest of the candidate. A challenge that the reader does not
/// see is no challenge; one that has expired is removed; one with another
/// digest is left as it is; one with this digest is consumed.
pub open spec fn judge(
    email: Seq<char>,
    candidate_digest: Seq<char>,
    found: Result<Option<OTPRecord>, AuthError>,
    now: int,
) -> (VerifyStateView, VerifyActionView) {
    match found {
        Err(e) => (VerifyStateView::Done, VerifyActionView::Finish(Err(e@))),
        Ok(found) => match visible_record(found, now) {
            None => finish_with(false),
            Some(rec) => if now > rec.expires_at {
                (VerifyStateView::AwaitPurge, VerifyActionView::DeleteRecord { email })
            } else if candidate_digest != rec.otp_hash@ {
                finish_with(false)
            } else {
                (VerifyStateView::AwaitConsume { email }, VerifyActionView::DeleteRecord { email })
            },
        },
    }
}

/// What the machine does once the store has answered for the challenge.
pub open spec fn on_record(
    email: Seq<char>,
    answer: Seq<char>,
    found: Result<Option<OTPRecord>, AuthError>,
    now: int,
) -> (VerifyStateView, VerifyActionView) {
    judge(email, otp_digest(answer), found, now)
}

/// What the machine does once the directory has answered for the user: a
/// user whose address was not verified is moved on; in every other case the
/// directory is left as it is.
pub open spec fn on_user(email: Seq<char>, event: VerifyEvent) -> (
    VerifyStateView,
    VerifyActionView,
) {
    match event {
        VerifyEvent::UserFound(Ok(Some(user))) => if user.status
            == UserStatus::RegistrationEmailNotVerified {
            (
                VerifyStateView::AwaitStatusUpdate { email },
                VerifyActionView::UpdateStatus {
                    user_id: user.user_id@,
                    status: UserStatus::RegistrationNeedUserInfo,
                },
            )
        } else {
            (VerifyStateView::AwaitChannel, VerifyActionView::MarkChannelVerified { email })
        },
        _ => (VerifyStateView::AwaitChannel, VerifyActionView::MarkChannelVerified { email }),
    }
}

/// The machine: from the state of the step and the answer of the outside
/// world to the next state and the next thing to do.
pub open spec fn verify_step_spec(state: VerifyStateView, event: VerifyEvent) -> (
    VerifyStateView,
    VerifyActionView,
) {
    match state {
        VerifyStateView::Start => match event {
            VerifyEvent::Request(req) => on_request(req),
            _ => finish_unexpected(),
        },
        VerifyStateView::AwaitRecord { email, answer } => match event {
            VerifyEvent::Record { found, now } => on_record(email, answer, found, now as int),
            _ => finish_unexpected(),
        },
        VerifyStateView::AwaitPurge => finish_with(false),
        VerifyStateView::AwaitConsume { email } => match event {
            VerifyEvent::Deleted(Ok(_)) => (
                VerifyStateView::AwaitUser { email },
                VerifyActionView::FindUser { email },
            ),
            VerifyEvent::Deleted(Err(e)) => (
                VerifyStateView::Done,
                VerifyActionView::Finish(Err(e@)),
            ),
            _ => finish_unexpected(),
        },
        VerifyStateView::AwaitUser { email } => on_user(email, event),
        VerifyStateView::AwaitStatusUpdate { email } => (
            VerifyStateView::AwaitChannel,
            VerifyActionView::MarkChannelVerified { email },
        ),
        VerifyStateView::AwaitChannel => finish_with(true),
        VerifyStateView::Done => finish_unexpected(),
    }
}

/// The failure of the machine's own.
fn unexpected() -> (r: (VerifyState, VerifyAction))
    ensures
        (r.0@, r.1@) == finish_unexpected(),
{
    (
        VerifyState::Done,
        VerifyAction::Finish(Err(AuthError::InternalError(String::from_str(UNEXPECTED_EVENT)))),
    )
}

/// The address that a request is about.
pub fn request_email(user_attributes: &StringMap, client_metadata: &Option<StringMap>) -> (r:
    Option<String>)
    ensures
        match r {
            Some(e) => requested_email(user_attributes@, opt_map_view(*client_metadata)) == Some(
                e@,
            ),
            None => requested_email(user_attributes@, opt_map_view(*client_metadata)) is None,
        },
{
    match user_attributes.get_cloned("email") {
        Some(e) => Some(e),
        None => match client_metadata {
            Some(m) => m.get_cloned("email"),
            None => None,
        },
    }
}

/// Starts the step on a request.
fn start(req: VerifyRequest) -> (r: (VerifyState, VerifyAction))
    ensures
        (r.0@, r.1@) == on_request(req),
{
    let email = match request_email(&req.user_attributes, &req.client_metadata) {
        Some(e) => e,
        None => {
            return (
                VerifyState::Done,
                VerifyAction::Finish(
                    Err(AuthError::ValidationError(String::from_str(EMAIL_NOT_FOUND))),
                ),
            );
        },
    };
    let answer = match req.challenge_answer {
        Some(a) => a,
        None => {
            return (
                VerifyState::Done,
                VerifyAction::Finish(
                    Err(AuthError::ValidationError(String::from_str(ANSWER_NOT_PROVIDED))),
                ),
            );
        },
    };
    if !is_otp_format(answer.as_str()) {
        return (VerifyState::Done, VerifyAction::Finish(Ok(false)));
    }
    let target = email.clone();
    (VerifyState::AwaitRecord { email, answer }, VerifyAction::GetRecord { email: target })
}

/// Holds the digest of a candidate against the challenge that the store
/// returned. The two digests are compared in constant time.
pub fn judge_record(
    email: String,
    candidate_digest: &str,
    found: Result<Option<OTPRecord>, AuthError>,
    now: i64,
) -> (r: (VerifyState, VerifyAction))
    ensures
        (r.0@, r.1@) == judge(email@, candidate_digest@, found, now as int),
{
    let found = match found {
        Ok(f) => f,
        Err(e) => {
            return (VerifyState::Done, VerifyAction::Finish(Err(e)));
        },
    };
    let rec = match found {
        Some(rec) => rec,
        None => {
            return (VerifyState::Done, VerifyAction::Finish(Ok(false)));
        },
    };
    if now > rec.ttl {
        return (VerifyState::Done, VerifyAction::Finish(Ok(false)));
    }
    if now > rec.expires_at {
        return (VerifyState::AwaitPurge, VerifyAction::DeleteRecord { email });
    }
    if !constant_time_eq(candidate_digest, rec.otp_hash.as_str()) {
        return (VerifyState::Done, VerifyAction::Finish(Ok(false)));
    }
    let target = email.clone();
    (VerifyState::AwaitConsume { email }, VerifyAction::DeleteRecord { email: target })
}

/// Holds the answer against the challenge that the store returned.
fn check_record(
    email: String,
    answer: String,
    found: Result<Option<OTPRecord>, AuthError>,
    now: i64,
) -> (r: (VerifyState, VerifyAction))
    ensures
        (r.0@, r.1@) == on_record(email@, answer@, found, now as int),
{
    let digest = hash_otp(answer.as_str());
    judge_record(email, digest.as_str(), found, now)
}

/// Moves the user on, where the user's address was not verified before.
fn advance_user(email: String, event: VerifyEvent) -> (r: (VerifyState, VerifyAction))
    ensures
        (r.0@, r.1@) == on_user(email@, event),
{
    match event {
        VerifyEvent::UserFound(Ok(Some(user))) => {
            match user.status.after_verification() {
                Some(status) => (
                    VerifyState::AwaitStatusUpdate { email },
                    VerifyAction::UpdateStatus { user_id: user.user_id, status },
                ),
                None => {
                    let target = email.clone();
                    (VerifyState::AwaitChannel, VerifyAction::MarkChannelVerified { email: target })
                },
            }
        },
        _ => {
            let target = email.clone();
            (VerifyState::AwaitChannel, VerifyAction::MarkChannelVerified { email: target })
        },
    }
}

/// One move of the verifying step: from the state of the step and the answer
/// of the outside world to the next state and the next thing to do.
pub fn verify_step(state: VerifyState, event: VerifyEvent) -> (r: (VerifyState, VerifyAction))
    ensures
        (r.0@, r.1@) == verify_step_spec(state@, event),
{
    match state {
        VerifyState::Start => match event {
            VerifyEvent::Request(req) => start(req),
            _ => unexpected(),
        },
        VerifyState::AwaitRecord { email, answer } => match event {
            VerifyEvent::Record { found, now } => check_record(email, answer, found, now),
            _ => unexpected(),
        },
        VerifyState::AwaitPurge => (VerifyState::Done, VerifyAction::Finish(Ok(false))),
        VerifyState::AwaitConsume { email } => match event {
            VerifyEvent::Deleted(Ok(_)) => {
                let target = email.clone();
                (VerifyState::AwaitUser { email }, VerifyAction::FindUser { email: target })
            },
            VerifyEvent::Deleted(Err(e)) => (VerifyState::Done, VerifyAction::Finish(Err(e))),
            _ => unexpected(),
        },
        VerifyState::AwaitUser { email } => advance_user(email, event),
        VerifyState::AwaitStatusUpdate { email } => (
            VerifyState::AwaitChannel,
            VerifyAction::MarkChannelVerified { email },
        ),
        VerifyState::AwaitChannel => (VerifyState::Done, VerifyAction::Finish(Ok(true))),
        VerifyState::Done => unexpected(),
    }
}

/// The answer for the identity provider. A failure of the step is no
/// failure of the login attempt: it is answered as a wrong answer is.
pub fn handle_verify_result(result: &Result<bool, AuthError>) -> (r: VerifyChallengeResponse)
    ensures
        r.answer_correct == (*result == Ok::<bool, AuthError>(true)),
        result is Err ==> !r.answer_correct,
{
    match result {
        Ok(b) => VerifyChallengeResponse { answer_correct: *b },
        Err(_) => VerifyChallengeResponse { answer_correct: false },
    }
}

/// The result of a run of the machine: the events are handed to it one by
/// one, and the run ends with the first `Finish`. `None` tells that the
/// events ran out first.
pub open spec fn verify_run(state: VerifyStateView, events: Seq<VerifyEvent>) -> Option<
    Result<bool, AuthErrorView>,
>
    decreases events.len(),
{
    if events.len() == 0 {
        None
    } else {
        let (next, action) = verify_step_spec(state, events[0]);
        match action {
            VerifyActionView::Finish(r) => Some(r),
            _ => verify_run(next, events.drop_first()),
        }
    }
}

/// A malformed answer is refused at once: the step finishes with `false` and
/// asks nothing of any store.
pub proof fn lemma_malformed_answer_asks_nothing(req: VerifyRequest)
    requires
        requested_email(req.user_attributes@, opt_map_view(req.client_metadata)) is Some,
        req.challenge_answer matches Some(a) && !is_six_digits(a@),
    ensures
        verify_step_spec(VerifyStateView::Start, VerifyEvent::Request(req)) == finish_with(false),
{
}

/// A challenge cannot be answered after it has expired: whatever the
/// answer, and whatever the outside world says afterwards, a run that reads
/// the challenge after its expiry does not end with `true`.
pub proof fn lemma_expired_challenge_fails(
    email: Seq<char>,
    answer: Seq<char>,
    rec: OTPRecord,
    now: i64,
    rest: Seq<VerifyEvent>,
)
    requires
        now > rec.expires_at,
    ensures
        verify_run(
            VerifyStateView::AwaitRecord { email, answer },
            seq![VerifyEvent::Record { found: Ok(Some(rec)), now }] + rest,
        ) != Some(Ok::<bool, AuthErrorView>(true)),
        rest.len() > 0 ==> verify_run(
            VerifyStateView::AwaitRecord { email, answer },
            seq![VerifyEvent::Record { found: Ok(Some(rec)), now }] + rest,
        ) == Some(Ok::<bool, AuthErrorView>(false)),
{
    reveal_with_fuel(verify_run, 3);
    let start = VerifyStateView::AwaitRecord { email, answer };
    let events = seq![VerifyEvent::Record { found: Ok(Some(rec)), now }] + rest;
    assert(events[0] == VerifyEvent::Record { found: Ok(Some(rec)), now });
    assert(events.drop_first() =~= rest);
    assert(verify_step_spec(start, events[0]) == on_record(email, answer, Ok(Some(rec)), now as int));
    if rest.len() > 0 {
        assert(verify_step_spec(VerifyStateView::AwaitPurge, rest[0]) == finish_with(false));
    }
}

/// A challenge can be answered until it expires. Let the right answer come
/// while the challenge has not expired, and let the challenge be removed.
/// Then the step ends with `true`, whatever the directory and the identity
/// provider say afterwards: three more answers of theirs are enough for the
/// run to end, and no run ends otherwise.
pub proof fn lemma_fresh_challenge_succeeds(
    email: Seq<char>,
    answer: Seq<char>,
    rec: OTPRecord,
    now: i64,
    rest: Seq<VerifyEvent>,
)
    requires
        rec@.wf(),
        now <= rec.expires_at,
        verify_spec(answer, rec.otp_hash@),
    ensures
        ({
            let run = verify_run(
                VerifyStateView::AwaitRecord { email, answer },
                seq![
                    VerifyEvent::Record { found: Ok(Some(rec)), now },
                    VerifyEvent::Deleted(Ok(())),
                ] + rest,
            );
            &&& run is Some ==> run == Some(Ok::<bool, AuthErrorView>(true))
            &&& rest.len() >= 3 ==> run is Some
        }),
{
    reveal_with_fuel(verify_run, 3);
    let start = VerifyStateView::AwaitRecord { email, answer };
    let first = VerifyEvent::Record { found: Ok(Some(rec)), now };
    let second = VerifyEvent::Deleted(Ok(()));
    let events = seq![first, second] + rest;
    assert(events[0] == first);
    assert(verify_step_spec(start, first) == on_record(email, answer, Ok(Some(rec)), now as int));
    let e1 = events.drop_first();
    assert(e1 =~= seq![second] + rest);
    assert(e1[0] == second);
    assert(e1.drop_first() =~= rest);
    lemma_success_is_kept(VerifyStateView::AwaitUser { email }, rest);
}

/// The states in which the answer has been found right and the challenge
/// removed: what is left to do is done as well as it can be.
pub open spec fn is_settled(state: VerifyStateView) -> bool {
    state is AwaitUser || state is AwaitStatusUpdate || state is AwaitChannel
}

/// How many more answers a settled state needs at most.
pub open spec fn steps_left(state: VerifyStateView) -> nat {
    match state {
        VerifyStateView::AwaitUser { .. } => 3,
        VerifyStateView::AwaitStatusUpdate { .. } => 2,
        _ => 1,
    }
}

/// Once the answer has been found right and the challenge removed, nothing
/// that the outside world says turns the success into anything else.
pub proof fn lemma_success_is_kept(state: VerifyStateView, events: Seq<VerifyEvent>)
    requires
        is_settled(state),
    ensures
        verify_run(state, events) is Some ==> verify_run(state, events) == Some(
            Ok::<bool, AuthErrorView>(true),
        ),
        events.len() >= steps_left(state) ==> verify_run(state, events) is Some,
    decreases events.len(),
{
    if events.len() > 0 {
        let (next, action) = verify_step_spec(state, events[0]);
        if !(action is Finish) {
            lemma_success_is_kept(next, events.drop_first());
        }
    }
}

/// A user is moved on by nothing but a right answer. The status is written
/// only for a user whose address was not verified, and only in the state that
/// follows the removal of the challenge; that state follows only a removal
/// that succeeded; and the removal is asked for in this way only for the
/// right answer to a challenge that has not expired.
pub proof fn lemma_only_success_moves_the_user(state: VerifyStateView, event: VerifyEvent)
    ensures
        verify_step_spec(state, event).1 matches VerifyActionView::UpdateStatus { user_id, status }
            ==> state is AwaitUser && status == UserStatus::RegistrationNeedUserInfo && (
        event matches VerifyEvent::UserFound(Ok(Some(user))) && user.status
            == UserStatus::RegistrationEmailNotVerified && user.user_id@ == user_id),
        verify_step_spec(state, event).0 is AwaitUser ==> state is AwaitConsume && (
        event matches VerifyEvent::Deleted(Ok(_))),
        verify_step_spec(state, event).0 is AwaitConsume ==> (state matches VerifyStateView::AwaitRecord {
            answer,
            ..
        } && (event matches VerifyEvent::Record { found: Ok(Some(rec)), now } && now
            <= rec.expires_at && verify_spec(answer, rec.otp_hash@))),
{
}

/// Nothing answers a challenge that is not there: without a challenge the
/// step ends with `false`, whatever the answer.
pub proof fn lemma_absent_challenge_fails(email: Seq<char>, answer: Seq<char>, now: i64)
    ensures
        verify_step_spec(
            VerifyStateView::AwaitRecord { email, answer },
            VerifyEvent::Record { found: Ok(None), now },
        ) == finish_with(false),
{
}

/// A challenge is answered once. The step says `true` only from the state in
/// which the identity provider is told; that state follows only those in
/// which the user is moved on; and those follow only the removal of the
/// challenge. So whenever `true` is said, the challenge has been removed
/// before.
pub proof fn lemma_true_only_after_removal(state: VerifyStateView, event: VerifyEvent)
    ensures
        verify_step_spec(state, event).1 == VerifyActionView::Finish(Ok(true)) ==> state
            is AwaitChannel,
        verify_step_spec(state, event).0 is AwaitChannel ==> state is AwaitUser || state
            is AwaitStatusUpdate,
        verify_step_spec(state, event).0 is AwaitStatusUpdate ==> state is AwaitUser,
        verify_step_spec(state, event).0 is AwaitUser ==> state is AwaitConsume && (
        event matches VerifyEvent::Deleted(Ok(_))),
{
}

} // verus!
