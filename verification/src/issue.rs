//! The issuing step of a login attempt: under the control of the rate
//! limiter a one-time secret is minted, its digest stored, and the secret
//! sent to the address.
//!
//! Like the verifying step it is a machine. [`issue_step`] takes the state
//! of the step, what the outside world just answered and the fresh values of
//! this move (a secret, a token, the time), and gives the next state and the
//! next thing to do. [`issue_at`] does the same at any time that a clock may
//! show, and [`issue_next`] draws the fresh values itself.
//!
//! The order of the moves is part of the contract: the rate limiter is asked
//! before anything is written; the request is counted only after the secret
//! was delivered, so that a failed delivery costs the user nothing.

use vstd::prelude::*;
use vstd::string::*;
use crate::errors::{AuthError, AuthErrorView};
use crate::models::{
    CreateChallengeResponse,
    CreateChallengeResponseView,
    OTPRecord,
    OTPRecordView,
    RateLimitRecord,
    RateLimitRecordView,
    UserProfile,
    UserStatus,
};
use crate::rate_limit::{
    check_rate_limit,
    clamp_i64,
    get_rate_limit_reset_time,
    rate_allowed,
    rate_limit_message,
    rate_limit_text,
    record_request,
    request_record,
    reset_eta,
    reset_minutes,
    reset_minutes_spec,
    window_count,
    lemma_three_in_window,
};
use crate::strmap::StringMap;
use crate::text::{clone_opt, concat2, contains_str, has_substring, opt_view};
use crate::utils::{
    current_timestamp,
    generate_challenge_id,
    generate_otp,
    hash_otp,
    is_hyphenated_id,
    is_six_digits,
    is_valid_email,
    is_valid_email_spec,
    otp_digest,
    verify_spec,
};
use crate::verify::{
    lemma_expired_challenge_fails,
    lemma_fresh_challenge_succeeds,
    request_email,
    requested_email,
    verify_run,
    VerifyEvent,
    VerifyStateView,
    UNEXPECTED_EVENT,
};

verus! {

/// The message of the failure when the address has no valid form.
pub const INVALID_EMAIL_FORMAT: &'static str = "Invalid email format";

/// The message of the failure when a new user has no identifier at the
/// identity provider.
pub const USER_NAME_MISSING: &'static str = "Cognito user_name not available";

/// The message of the failure when the directory reports a user as created
/// by someone else and then does not return the user.
pub const USER_LOST: &'static str = "User was created concurrently but could not be read";

/// The message of the failure when the clock is too far from the present to
/// compute with.
pub const CLOCK_OUT_OF_RANGE: &'static str = "System clock out of range";

/// What the identity provider says of an account that it will not confirm
/// again.
pub const ALREADY_CONFIRMED: &'static str = "NotAuthorizedException";

/// The marker of the kind of challenge, shown to the client.
pub const CHALLENGE_TYPE: &'static str = "OTP_EMAIL";

/// The marker of a step that sent a secret.
pub const METADATA_SENT: &'static str = "OTP_EMAIL_SENT";

/// The marker of a step that failed.
pub const METADATA_ERROR: &'static str = "ERROR";

/// How long a challenge may be answered, in seconds.
pub const OTP_LIFETIME_SECONDS: i64 = 300;

/// How long after its expiry a challenge is purged, in seconds.
pub const OTP_PURGE_DELAY_SECONDS: i64 = 3600;

/// What the identity provider hands to the issuing step.
#[derive(Debug, Clone, PartialEq, Eq)]
pub struct IssueRequest {
    pub user_attributes: StringMap,
    pub client_metadata: StringMap,
    /// The identifier under which the identity provider knows the user.
    pub user_name: Option<String>,
    pub user_pool_id: Option<String>,
}

/// The fresh values of one move: a secret, a token and the time.
#[derive(Debug, Clone, PartialEq, Eq)]
pub struct IssueMaterial {
    pub secret: String,
    pub challenge_id: String,
    pub now: i64,
}

/// Whom the step is for.
#[derive(Debug, Clone, PartialEq, Eq)]
pub struct IssueContext {
    pub email: String,
    pub user_name: Option<String>,
    pub user_pool_id: Option<String>,
}

/// What an [`IssueContext`] holds, as plain values.
pub struct IssueContextView {
    pub email: Seq<char>,
    pub user_name: Option<Seq<char>>,
    pub user_pool_id: Option<Seq<char>>,
}

impl View for IssueContext {
    type V = IssueContextView;

    open spec fn view(&self) -> IssueContextView {
        IssueContextView {
            email: self.email@,
            user_name: opt_view(self.user_name),
            user_pool_id: opt_view(self.user_pool_id),
        }
    }
}

/// What the step needs of the user: the identifier and the status.
#[derive(Debug, Clone, PartialEq, Eq)]
pub struct KnownUser {
    pub user_id: String,
    pub status: UserStatus,
}

/// What a [`KnownUser`] holds, as plain values.
pub struct KnownUserView {
    pub user_id: Seq<char>,
    pub status: UserStatus,
}

impl View for KnownUser {
    type V = KnownUserView;

    open spec fn view(&self) -> KnownUserView {
        KnownUserView { user_id: self.user_id@, status: self.status }
    }
}

/// How far the issuing step has come.
#[derive(Debug, Clone, PartialEq, Eq)]
pub enum IssueState {
    /// Nothing has been done yet.
    Start,
    /// The requests of the address have been asked for.
    AwaitRateEntries { ctx: IssueContext },
    /// The user's record has been asked for; `reread` tells that this is the
    /// second time, after the directory reported a concurrent creation.
    AwaitUser { ctx: IssueContext, reread: bool },
    /// The user is being created.
    AwaitCreate { ctx: IssueContext },
    /// The identity provider is being asked to confirm the account.
    AwaitConfirm { ctx: IssueContext, user: KnownUser },
    /// The challenge is being stored.
    AwaitStore { ctx: IssueContext, user: KnownUser, secret: String, challenge_id: String },
    /// The secret is being delivered.
    AwaitDelivery { ctx: IssueContext, user: KnownUser, challenge_id: String },
    /// The request is being counted.
    AwaitRecord { ctx: IssueContext, user: KnownUser, challenge_id: String },
    /// The step has finished.
    Done,
}

/// What an [`IssueState`] holds, as plain values.
pub enum IssueStateView {
    Start,
    AwaitRateEntries { ctx: IssueContextView },
    AwaitUser { ctx: IssueContextView, reread: bool },
    AwaitCreate { ctx: IssueContextView },
    AwaitConfirm { ctx: IssueContextView, user: KnownUserView },
    AwaitStore {
        ctx: IssueContextView,
        user: KnownUserView,
        secret: Seq<char>,
        challenge_id: Seq<char>,
    },
    AwaitDelivery { ctx: IssueContextView, user: KnownUserView, challenge_id: Seq<char> },
    AwaitRecord { ctx: IssueContextView, user: KnownUserView, challenge_id: Seq<char> },
    Done,
}

impl View for IssueState {
    type V = IssueStateView;

    open spec fn view(&self) -> IssueStateView {
        match *self {
            IssueState::Start => IssueStateView::Start,
            IssueState::AwaitRateEntries { ctx } => IssueStateView::AwaitRateEntries { ctx: ctx@ },
            IssueState::AwaitUser { ctx, reread } => IssueStateView::AwaitUser {
                ctx: ctx@,
                reread,
            },
            IssueState::AwaitCreate { ctx } => IssueStateView::AwaitCreate { ctx: ctx@ },
            IssueState::AwaitConfirm { ctx, user } => IssueStateView::AwaitConfirm {
                ctx: ctx@,
                user: user@,
            },
            IssueState::AwaitStore { ctx, user, secret, challenge_id } => IssueStateView::AwaitStore {
                ctx: ctx@,
                user: user@,
                secret: secret@,
                challenge_id: challenge_id@,
            },
            IssueState::AwaitDelivery { ctx, user, challenge_id } => IssueStateView::AwaitDelivery {
                ctx: ctx@,
                user: user@,
                challenge_id: challenge_id@,
            },
            IssueState::AwaitRecord { ctx, user, challenge_id } => IssueStateView::AwaitRecord {
                ctx: ctx@,
                user: user@,
                challenge_id: challenge_id@,
            },
            IssueState::Done => IssueStateView::Done,
        }
    }
}

/// How the creation of a user ended.
#[derive(Debug, Clone, PartialEq, Eq)]
pub enum CreateOutcome {
    /// The user was created.
    Created(UserProfile),
    /// Someone else created the user in the meantime.
    Conflict,
    /// The directory could not be reached.
    Failed(AuthError),
}

/// What the outside world answers.
#[derive(Debug, PartialEq, Eq)]
pub enum IssueEvent {
    /// The request of the identity provider: it starts the step.
    Request(IssueRequest),
    /// The times of the requests that the address has made, as the store
    /// returned them.
    RateEntries(Result<Vec<i64>, AuthError>),
    /// The user's record, as the directory returned it.
    UserFound(Result<Option<UserProfile>, AuthError>),
    /// The user was created, or was not.
    UserCreated(CreateOutcome),
    /// The identity provider confirmed the account, or could not.
    Confirmed(Result<(), AuthError>),
    /// The challenge was stored, or could not be.
    Stored(Result<(), AuthError>),
    /// The secret was delivered, or could not be.
    Delivered(Result<(), AuthError>),
    /// The request was counted, or could not be.
    Recorded(Result<(), AuthError>),
}

/// What the caller is to do next.
#[derive(Debug, PartialEq, Eq)]
pub enum IssueAction {
    /// Read the requests that the address has made since `since`.
    LoadRateEntries { email: String, since: i64 },
    /// Read the user's record by the address.
    FindUser { email: String },
    /// Create the user, unless someone else has done so.
    CreateUser { email: String, user_id: String },
    /// Ask the identity provider to confirm the account.
    ConfirmAccount { email: String, user_pool_id: String },
    /// Store the challenge, in place of any earlier one of the address.
    StoreRecord(OTPRecord),
    /// Send the secret to the address.
    DeliverSecret { email: String, secret: String },
    /// Count the request.
    RecordRequest(RateLimitRecord),
    /// Hand the result to the identity provider.
    Finish(Result<CreateChallengeResponse, AuthError>),
}

/// What an [`IssueAction`] holds, as plain values.
pub enum IssueActionView {
    LoadRateEntries { email: Seq<char>, since: int },
    FindUser { email: Seq<char> },
    CreateUser { email: Seq<char>, user_id: Seq<char> },
    ConfirmAccount { email: Seq<char>, user_pool_id: Seq<char> },
    StoreRecord(OTPRecordView),
    DeliverSecret { email: Seq<char>, secret: Seq<char> },
    RecordRequest(RateLimitRecordView),
    Finish(Result<CreateChallengeResponseView, AuthErrorView>),
}

impl View for IssueAction {
    type V = IssueActionView;

    open spec fn view(&self) -> IssueActionView {
        match *self {
            IssueAction::LoadRateEntries { email, since } => IssueActionView::LoadRateEntries {
                email: email@,
                since: since as int,
            },
            IssueAction::FindUser { email } => IssueActionView::FindUser { email: email@ },
            IssueAction::CreateUser { email, user_id } => IssueActionView::CreateUser {
                email: email@,
                user_id: user_id@,
            },
            IssueAction::ConfirmAccount { email, user_pool_id } => IssueActionView::ConfirmAccount {
                email: email@,
                user_pool_id: user_pool_id@,
            },
            IssueAction::StoreRecord(rec) => IssueActionView::StoreRecord(rec@),
            IssueAction::DeliverSecret { email, secret } => IssueActionView::DeliverSecret {
                email: email@,
                secret: secret@,
            },
            IssueAction::RecordRequest(rec) => IssueActionView::RecordRequest(rec@),
            IssueAction::Finish(Ok(resp)) => IssueActionView::Finish(Ok(resp@)),
            IssueAction::Finish(Err(e)) => IssueActionView::Finish(Err(e@)),
        }
    }
}

/// The times with which the step can compute: the window before them and
/// the purge time after them are still times.
pub open spec fn usable_time(now: int) -> bool {
    i64::MIN + 900 <= now <= i64::MAX - 3900
}

/// The end of the step with a failure.
pub open spec fn fail_with(e: AuthErrorView) -> (IssueStateView, IssueActionView) {
    (IssueStateView::Done, IssueActionView::Finish(Err(e)))
}

/// The end of the step with a failure of the machine's own.
pub open spec fn fail_unexpected() -> (IssueStateView, IssueActionView) {
    fail_with(AuthErrorView::InternalError(UNEXPECTED_EVENT@))
}

/// The challenge that is stored for a secret minted at `now`, given the
/// digest of the secret: it holds the digest and never the secret, may be
/// answered for 300 seconds and is purged an hour after that.
pub open spec fn minted_record(
    email: Seq<char>,
    digest: Seq<char>,
    challenge_id: Seq<char>,
    now: int,
) -> OTPRecordView {
    OTPRecordView {
        email,
        otp_hash: digest,
        created_at: now,
        expires_at: now + 300,
        ttl: now + 300 + 3600,
        challenge_id,
        attempts: 0,
    }
}

/// The answer of a step that sent a secret. The client may see the address
/// and the kind of challenge; the token, the user's identifier and the
/// user's status are for the next step alone. The secret is in neither.
pub open spec fn issued_response(
    email: Seq<char>,
    user: KnownUserView,
    challenge_id: Seq<char>,
) -> CreateChallengeResponseView {
    CreateChallengeResponseView {
        public_challenge_parameters: Map::<Seq<char>, Seq<char>>::empty().insert(
            "email"@,
            email,
        ).insert("challenge_type"@, CHALLENGE_TYPE@),
        private_challenge_parameters: Map::<Seq<char>, Seq<char>>::empty().insert(
            "challenge_id"@,
            challenge_id,
        ).insert("user_id"@, user.user_id).insert("user_status"@, user.status.variant_name()),
        challenge_metadata: METADATA_SENT@,
    }
}

/// The answer of a step that failed: nothing for the client, nothing for the
/// next step.
pub open spec fn failed_response() -> CreateChallengeResponseView {
    CreateChallengeResponseView {
        public_challenge_parameters: Map::<Seq<char>, Seq<char>>::empty(),
        private_challenge_parameters: Map::<Seq<char>, Seq<char>>::empty(),
        challenge_metadata: METADATA_ERROR@,
    }
}

/// What the machine does on a request.
pub open spec fn on_request(req: IssueRequest, now: int) -> (IssueStateView, IssueActionView) {
    match requested_email(req.user_attributes@, Some(req.client_metadata@)) {
        None => fail_with(AuthErrorView::ValidationError(crate::verify::EMAIL_NOT_FOUND@)),
        Some(email) => if !is_valid_email_spec(email) {
            fail_with(AuthErrorView::ValidationError(INVALID_EMAIL_FORMAT@))
        } else {
            (
                IssueStateView::AwaitRateEntries {
                    ctx: IssueContextView {
                        email,
                        user_name: opt_view(req.user_name),
                        user_pool_id: opt_view(req.user_pool_id),
                    },
                },
                IssueActionView::LoadRateEntries { email, since: now - 900 },
            )
        },
    }
}

/// What a user who is refused is told: the wait until the oldest request
/// leaves the window, in whole minutes and never less than one.
pub open spec fn refusal(entries: Seq<i64>, now: int) -> AuthErrorView {
    let eta = match reset_eta(entries, now) {
        Some(s) => Some(clamp_i64(s)),
        None => None,
    };
    AuthErrorView::RateLimitExceeded(rate_limit_message(reset_minutes_spec(eta)))
}

/// What the machine does once the store has answered for the requests of
/// the address.
pub open spec fn on_rate_entries(
    ctx: IssueContextView,
    found: Result<Vec<i64>, AuthError>,
    now: int,
) -> (IssueStateView, IssueActionView) {
    match found {
        Err(e) => fail_with(e@),
        Ok(entries) => if !rate_allowed(entries@, now) {
            fail_with(refusal(entries@, now))
        } else {
            (
                IssueStateView::AwaitUser { ctx, reread: false },
                IssueActionView::FindUser { email: ctx.email },
            )
        },
    }
}

/// What the machine does once the user is known: the account is confirmed
/// where the identity provider can be asked, and else the secret is minted
/// at once.
pub open spec fn with_user(ctx: IssueContextView, user: KnownUserView, m: IssueMaterial) -> (
    IssueStateView,
    IssueActionView,
) {
    match ctx.user_pool_id {
        Some(pool) => (
            IssueStateView::AwaitConfirm { ctx, user },
            IssueActionView::ConfirmAccount { email: ctx.email, user_pool_id: pool },
        ),
        None => mint(ctx, user, m),
    }
}

/// The minting of the secret, given its digest: the challenge of the fresh
/// secret is to be stored, and the secret itself is kept for the delivery.
pub open spec fn mint_with(
    ctx: IssueContextView,
    user: KnownUserView,
    m: IssueMaterial,
    digest: Seq<char>,
) -> (IssueStateView, IssueActionView) {
    (
        IssueStateView::AwaitStore { ctx, user, secret: m.secret@, challenge_id: m.challenge_id@ },
        IssueActionView::StoreRecord(
            minted_record(ctx.email, digest, m.challenge_id@, m.now as int),
        ),
    )
}

/// The minting of the secret: the challenge that is stored holds the digest
/// of the fresh secret.
pub open spec fn mint(ctx: IssueContextView, user: KnownUserView, m: IssueMaterial) -> (
    IssueStateView,
    IssueActionView,
) {
    mint_with(ctx, user, m, otp_digest(m.secret@))
}

/// What the machine does once the directory has answered for the user.
pub open spec fn on_user(
    ctx: IssueContextView,
    reread: bool,
    found: Result<Option<UserProfile>, AuthError>,
    m: IssueMaterial,
) -> (IssueStateView, IssueActionView) {
    match found {
        Err(e) => fail_with(e@),
        Ok(Some(user)) => with_user(
            ctx,
            KnownUserView { user_id: user.user_id@, status: user.status },
            m,
        ),
        Ok(None) => if reread {
            fail_with(AuthErrorView::DynamoDBError(USER_LOST@))
        } else {
            match ctx.user_name {
                None => fail_with(AuthErrorView::InternalError(USER_NAME_MISSING@)),
                Some(id) => (
                    IssueStateView::AwaitCreate { ctx },
                    IssueActionView::CreateUser { email: ctx.email, user_id: id },
                ),
            }
        },
    }
}

/// What the machine does once the creation of the user has ended. A
/// concurrent creation is no failure: the user is read again.
pub open spec fn on_created(ctx: IssueContextView, outcome: CreateOutcome, m: IssueMaterial) -> (
    IssueStateView,
    IssueActionView,
) {
    match outcome {
        CreateOutcome::Created(user) => with_user(
            ctx,
            KnownUserView { user_id: user.user_id@, status: user.status },
            m,
        ),
        CreateOutcome::Conflict => (
            IssueStateView::AwaitUser { ctx, reread: true },
            IssueActionView::FindUser { email: ctx.email },
        ),
        CreateOutcome::Failed(e) => fail_with(e@),
    }
}

/// The machine: from the state of the step, the answer of the outside world
/// and the fresh values of the move to the next state and the next thing to
/// do.
pub open spec fn issue_step_spec(state: IssueStateView, event: IssueEvent, m: IssueMaterial) -> (
    IssueStateView,
    IssueActionView,
) {
    match state {
        IssueStateView::Start => match event {
            IssueEvent::Request(req) => on_request(req, m.now as int),
            _ => fail_unexpected(),
        },
        IssueStateView::AwaitRateEntries { ctx } => match event {
            IssueEvent::RateEntries(found) => on_rate_entries(ctx, found, m.now as int),
            _ => fail_unexpected(),
        },
        IssueStateView::AwaitUser { ctx, reread } => match event {
            IssueEvent::UserFound(found) => on_user(ctx, reread, found, m),
            _ => fail_unexpected(),
        },
        IssueStateView::AwaitCreate { ctx } => match event {
            IssueEvent::UserCreated(outcome) => on_created(ctx, outcome, m),
            _ => fail_unexpected(),
        },
        IssueStateView::AwaitConfirm { ctx, user } => mint(ctx, user, m),
        IssueStateView::AwaitStore { ctx, user, secret, challenge_id } => match event {
            IssueEvent::Stored(Ok(_)) => (
                IssueStateView::AwaitDelivery { ctx, user, challenge_id },
                IssueActionView::DeliverSecret { email: ctx.email, secret },
            ),
            IssueEvent::Stored(Err(e)) => fail_with(e@),
            _ => fail_unexpected(),
        },
        IssueStateView::AwaitDelivery { ctx, user, challenge_id } => match event {
            IssueEvent::Delivered(Ok(_)) => (
                IssueStateView::AwaitRecord { ctx, user, challenge_id },
                IssueActionView::RecordRequest(request_record(ctx.email, m.now as int)),
            ),
            IssueEvent::Delivered(Err(e)) => fail_with(e@),
            _ => fail_unexpected(),
        },
        IssueStateView::AwaitRecord { ctx, user, challenge_id } => match event {
            IssueEvent::Recorded(Ok(_)) => (
                IssueStateView::Done,
                IssueActionView::Finish(Ok(issued_response(ctx.email, user, challenge_id))),
            ),
            IssueEvent::Recorded(Err(e)) => fail_with(e@),
            _ => fail_unexpected(),
        },
        IssueStateView::Done => fail_unexpected(),
    }
}

/// The end of the step with a failure.
fn fail(e: AuthError) -> (r: (IssueState, IssueAction))
    ensures
        (r.0@, r.1@) == fail_with(e@),
{
    (IssueState::Done, IssueAction::Finish(Err(e)))
}

/// The end of the step with a failure of the machine's own.
fn unexpected() -> (r: (IssueState, IssueAction))
    ensures
        (r.0@, r.1@) == fail_unexpected(),
{
    fail(AuthError::InternalError(String::from_str(UNEXPECTED_EVENT)))
}

/// Starts the step on a request.
fn start(req: IssueRequest, now: i64) -> (r: (IssueState, IssueAction))
    requires
        usable_time(now as int),
    ensures
        (r.0@, r.1@) == on_request(req, now as int),
{
    let metadata = Some(req.client_metadata);
    let email = match request_email(&req.user_attributes, &metadata) {
        Some(e) => e,
        None => {
            return fail(
                AuthError::ValidationError(String::from_str(crate::verify::EMAIL_NOT_FOUND)),
            );
        },
    };
    if !is_valid_email(email.as_str()) {
        return fail(AuthError::ValidationError(String::from_str(INVALID_EMAIL_FORMAT)));
    }
    let target = email.clone();
    (
        IssueState::AwaitRateEntries {
            ctx: IssueContext { email, user_name: req.user_name, user_pool_id: req.user_pool_id },
        },
        IssueAction::LoadRateEntries { email: target, since: now - 900 },
    )
}

/// Asks the rate limiter.
fn check_rate(ctx: IssueContext, found: Result<Vec<i64>, AuthError>, now: i64) -> (r: (
    IssueState,
    IssueAction,
))
    ensures
        (r.0@, r.1@) == on_rate_entries(ctx@, found, now as int),
{
    let entries = match found {
        Ok(entries) => entries,
        Err(e) => {
            return fail(e);
        },
    };
    if !check_rate_limit(&entries, now) {
        let eta = get_rate_limit_reset_time(&entries, now);
        let minutes = reset_minutes(eta);
        return fail(AuthError::RateLimitExceeded(rate_limit_text(minutes)));
    }
    let target = ctx.email.clone();
    (IssueState::AwaitUser { ctx, reread: false }, IssueAction::FindUser { email: target })
}

/// Mints the challenge of the fresh secret, given the digest of the secret.
pub fn mint_challenge(ctx: IssueContext, user: KnownUser, m: IssueMaterial, digest: String) -> (r: (
    IssueState,
    IssueAction,
))
    requires
        usable_time(m.now as int),
    ensures
        (r.0@, r.1@) == mint_with(ctx@, user@, m, digest@),
{
    let expires_at = m.now + OTP_LIFETIME_SECONDS;
    let record = OTPRecord {
        email: ctx.email.clone(),
        otp_hash: digest,
        created_at: m.now,
        expires_at,
        ttl: expires_at + OTP_PURGE_DELAY_SECONDS,
        challenge_id: m.challenge_id.clone(),
        attempts: 0,
    };
    (
        IssueState::AwaitStore { ctx, user, secret: m.secret, challenge_id: m.challenge_id },
        IssueAction::StoreRecord(record),
    )
}

/// Mints the challenge of the fresh secret.
fn mint_fresh(ctx: IssueContext, user: KnownUser, m: IssueMaterial) -> (r: (
    IssueState,
    IssueAction,
))
    requires
        usable_time(m.now as int),
    ensures
        (r.0@, r.1@) == mint(ctx@, user@, m),
{
    let digest = hash_otp(m.secret.as_str());
    mint_challenge(ctx, user, m, digest)
}

/// Goes on with a user who is known.
fn proceed(ctx: IssueContext, user: KnownUser, m: IssueMaterial) -> (r: (IssueState, IssueAction))
    requires
        usable_time(m.now as int),
    ensures
        (r.0@, r.1@) == with_user(ctx@, user@, m),
{
    match clone_opt(&ctx.user_pool_id) {
        Some(pool) => {
            let target = ctx.email.clone();
            (
                IssueState::AwaitConfirm { ctx, user },
                IssueAction::ConfirmAccount { email: target, user_pool_id: pool },
            )
        },
        None => mint_fresh(ctx, user, m),
    }
}

/// Takes the answer of the directory for the user.
fn take_user(
    ctx: IssueContext,
    reread: bool,
    found: Result<Option<UserProfile>, AuthError>,
    m: IssueMaterial,
) -> (r: (IssueState, IssueAction))
    requires
        usable_time(m.now as int),
    ensures
        (r.0@, r.1@) == on_user(ctx@, reread, found, m),
{
    match found {
        Err(e) => fail(e),
        Ok(Some(user)) => proceed(ctx, KnownUser { user_id: user.user_id, status: user.status }, m),
        Ok(None) => {
            if reread {
                return fail(AuthError::DynamoDBError(String::from_str(USER_LOST)));
            }
            match clone_opt(&ctx.user_name) {
                None => fail(AuthError::InternalError(String::from_str(USER_NAME_MISSING))),
                Some(id) => {
                    let target = ctx.email.clone();
                    (
                        IssueState::AwaitCreate { ctx },
                        IssueAction::CreateUser { email: target, user_id: id },
                    )
                },
            }
        },
    }
}

/// Takes the outcome of the creation of the user.
fn take_created(ctx: IssueContext, outcome: CreateOutcome, m: IssueMaterial) -> (r: (
    IssueState,
    IssueAction,
))
    requires
        usable_time(m.now as int),
    ensures
        (r.0@, r.1@) == on_created(ctx@, outcome, m),
{
    match outcome {
        CreateOutcome::Created(user) => proceed(
            ctx,
            KnownUser { user_id: user.user_id, status: user.status },
            m,
        ),
        CreateOutcome::Conflict => {
            let target = ctx.email.clone();
            (IssueState::AwaitUser { ctx, reread: true }, IssueAction::FindUser { email: target })
        },
        CreateOutcome::Failed(e) => fail(e),
    }
}

/// The answer of a step that sent a secret.
fn response(email: &String, user: &KnownUser, challenge_id: String) -> (r: CreateChallengeResponse)
    ensures
        r@ == issued_response(email@, user@, challenge_id@),
{
    let mut public_params = StringMap::new();
    public_params.insert(String::from_str("email"), email.clone());
    public_params.insert(String::from_str("challenge_type"), String::from_str(CHALLENGE_TYPE));
    let mut private_params = StringMap::new();
    private_params.insert(String::from_str("challenge_id"), challenge_id);
    private_params.insert(String::from_str("user_id"), user.user_id.clone());
    private_params.insert(
        String::from_str("user_status"),
        String::from_str(user.status.debug_name()),
    );
    CreateChallengeResponse {
        public_challenge_parameters: public_params,
        private_challenge_parameters: private_params,
        challenge_metadata: String::from_str(METADATA_SENT),
    }
}

/// One move of the issuing step, with the fresh values of the move given.
pub fn issue_step(state: IssueState, event: IssueEvent, m: IssueMaterial) -> (r: (
    IssueState,
    IssueAction,
))
    requires
        usable_time(m.now as int),
    ensures
        (r.0@, r.1@) == issue_step_spec(state@, event, m),
{
    match state {
        IssueState::Start => match event {
            IssueEvent::Request(req) => start(req, m.now),
            _ => unexpected(),
        },
        IssueState::AwaitRateEntries { ctx } => match event {
            IssueEvent::RateEntries(found) => check_rate(ctx, found, m.now),
            _ => unexpected(),
        },
        IssueState::AwaitUser { ctx, reread } => match event {
            IssueEvent::UserFound(found) => take_user(ctx, reread, found, m),
            _ => unexpected(),
        },
        IssueState::AwaitCreate { ctx } => match event {
            IssueEvent::UserCreated(outcome) => take_created(ctx, outcome, m),
            _ => unexpected(),
        },
        IssueState::AwaitConfirm { ctx, user } => mint_fresh(ctx, user, m),
        IssueState::AwaitStore { ctx, user, secret, challenge_id } => match event {
            IssueEvent::Stored(Ok(_)) => {
                let target = ctx.email.clone();
                (
                    IssueState::AwaitDelivery { ctx, user, challenge_id },
                    IssueAction::DeliverSecret { email: target, secret },
                )
            },
            IssueEvent::Stored(Err(e)) => fail(e),
            _ => unexpected(),
        },
        IssueState::AwaitDelivery { ctx, user, challenge_id } => match event {
            IssueEvent::Delivered(Ok(_)) => {
                let record = record_request(ctx.email.as_str(), m.now);
                (
                    IssueState::AwaitRecord { ctx, user, challenge_id },
                    IssueAction::RecordRequest(record),
                )
            },
            IssueEvent::Delivered(Err(e)) => fail(e),
            _ => unexpected(),
        },
        IssueState::AwaitRecord { ctx, user, challenge_id } => match event {
            IssueEvent::Recorded(Ok(_)) => {
                let resp = response(&ctx.email, &user, challenge_id);
                (IssueState::Done, IssueAction::Finish(Ok(resp)))
            },
            IssueEvent::Recorded(Err(e)) => fail(e),
            _ => unexpected(),
        },
        IssueState::Done => unexpected(),
    }
}

/// The states from which the next move may mint a secret: those in which the
/// user, or the confirmation of the account, is awaited.
pub open spec fn may_mint(state: IssueStateView) -> bool {
    state is AwaitUser || state is AwaitCreate || state is AwaitConfirm
}

/// Tells whether the next move may mint a secret.
pub fn mints_next(state: &IssueState) -> (r: bool)
    ensures
        r == may_mint(state@),
{
    match state {
        IssueState::AwaitUser { .. } => true,
        IssueState::AwaitCreate { .. } => true,
        IssueState::AwaitConfirm { .. } => true,
        _ => false,
    }
}

/// The fresh values that a move from `state` is drawn with: where the move
/// may mint a secret, a secret of six digits and a token in hyphenated form.
pub open spec fn fresh_for(state: IssueStateView, m: IssueMaterial) -> bool {
    may_mint(state) ==> is_six_digits(m.secret@) && is_hyphenated_id(m.challenge_id@)
}

/// One move of the issuing step at the time that the clock shows, whatever
/// it shows: with a time that can be computed with, the move of the machine;
/// with any other time, the end of the step with a failure.
pub open spec fn issue_at_spec(state: IssueStateView, event: IssueEvent, m: IssueMaterial) -> (
    IssueStateView,
    IssueActionView,
) {
    if usable_time(m.now as int) {
        issue_step_spec(state, event, m)
    } else {
        fail_with(AuthErrorView::InternalError(CLOCK_OUT_OF_RANGE@))
    }
}

/// One move of the issuing step at the time that the clock shows, whatever
/// it shows. A clock that stands less than 900 seconds after the first time
/// that can be written, or less than 3900 seconds before the last, leaves no
/// room for the window before it or for the purge time after it: the step
/// then fails, and nothing is asked of the outside world.
pub fn issue_at(state: IssueState, event: IssueEvent, m: IssueMaterial) -> (r: (
    IssueState,
    IssueAction,
))
    ensures
        (r.0@, r.1@) == issue_at_spec(state@, event, m),
{
    if m.now < i64::MIN + 900 || m.now > i64::MAX - 3900 {
        return fail(AuthError::InternalError(String::from_str(CLOCK_OUT_OF_RANGE)));
    }
    issue_step(state, event, m)
}

/// One move of the issuing step. The time is read from the system clock.
/// Where the move may mint a secret, the secret comes from the generator of
/// the current thread and the token is a fresh random identifier; no secret
/// is drawn for a move that cannot use one. What is done with the values that
/// were drawn is what [`issue_at`] does.
pub fn issue_next(state: IssueState, event: IssueEvent) -> (r: (IssueState, IssueAction))
    ensures
        exists|m: IssueMaterial|
            fresh_for(state@, m) && (r.0@, r.1@) == #[trigger] issue_at_spec(state@, event, m),
{
    let now = current_timestamp();
    let m = if mints_next(&state) {
        IssueMaterial { secret: generate_otp(), challenge_id: generate_challenge_id(), now }
    } else {
        IssueMaterial { secret: String::new(), challenge_id: String::new(), now }
    };
    let ghost witness = m;
    let r = issue_at(state, event, m);
    proof {
        assert((r.0@, r.1@) == issue_at_spec(state@, event, witness));
    }
    r
}

/// A secret is minted only by a move that may mint one: the challenge is
/// stored, and the secret kept for the delivery, only from a state in which
/// the user or the confirmation of the account was awaited. Every other move
/// is the same whatever secret and token it is made with.
pub proof fn lemma_secret_is_minted_where_announced(
    state: IssueStateView,
    event: IssueEvent,
    m: IssueMaterial,
    other: IssueMaterial,
)
    requires
        m.now == other.now,
    ensures
        issue_step_spec(state, event, m).1 is StoreRecord ==> may_mint(state),
        issue_step_spec(state, event, m).0 is AwaitStore ==> may_mint(state),
        !may_mint(state) ==> issue_step_spec(state, event, m) == issue_step_spec(
            state,
            event,
            other,
        ),
{
}

/// The answer for the identity provider. A failure of the step is still
/// answered: with nothing for the client and nothing for the next step.
pub fn handle_create_result(result: Result<CreateChallengeResponse, AuthError>) -> (r:
    CreateChallengeResponse)
    ensures
        r@ == match result {
            Ok(resp) => resp@,
            Err(_) => failed_response(),
        },
{
    match result {
        Ok(resp) => resp,
        Err(_) => CreateChallengeResponse {
            public_challenge_parameters: StringMap::new(),
            private_challenge_parameters: StringMap::new(),
            challenge_metadata: String::from_str(METADATA_ERROR),
        },
    }
}

/// What the answer of the identity provider to a confirmation means. An
/// account that was confirmed before is confirmed: the provider's refusal to
/// confirm it again is no failure. Any other refusal is one, and is reported
/// with the provider's words.
pub fn confirmation_outcome(refusal: Option<&str>) -> (r: Result<(), AuthError>)
    ensures
        match refusal {
            None => r is Ok,
            Some(words) => if has_substring(words@, ALREADY_CONFIRMED@) {
                r is Ok
            } else {
                r matches Err(e) && e@ == AuthErrorView::InternalError(
                    "Failed to confirm user: "@ + words@,
                )
            },
        },
{
    match refusal {
        None => Ok(()),
        Some(words) => {
            if contains_str(words, ALREADY_CONFIRMED) {
                Ok(())
            } else {
                Err(AuthError::InternalError(concat2("Failed to confirm user: ", words)))
            }
        },
    }
}

/// The rate limiter is asked before anything is written: the first thing
/// that the step asks of the outside world is to read the requests of the
/// address.
pub proof fn lemma_limiter_is_asked_first(req: IssueRequest, m: IssueMaterial)
    ensures
        ({
            let action = issue_step_spec(IssueStateView::Start, IssueEvent::Request(req), m).1;
            action is Finish || action is LoadRateEntries
        }),
{
}

/// An address that has made three requests inside the window is refused, and
/// nothing is written for it: the step ends at once, and the user is told of
/// a wait of at least one minute.
pub proof fn lemma_capped_address_is_refused(
    ctx: IssueContextView,
    entries: Vec<i64>,
    m: IssueMaterial,
    i: int,
    j: int,
    k: int,
)
    requires
        0 <= i < j < k < entries@.len(),
        crate::rate_limit::in_window(entries@[i] as int, m.now as int),
        crate::rate_limit::in_window(entries@[j] as int, m.now as int),
        crate::rate_limit::in_window(entries@[k] as int, m.now as int),
    ensures
        issue_step_spec(
            IssueStateView::AwaitRateEntries { ctx },
            IssueEvent::RateEntries(Ok(entries)),
            m,
        ) == fail_with(refusal(entries@, m.now as int)),
        refusal(entries@, m.now as int) matches AuthErrorView::RateLimitExceeded(text)
            && exists|minutes: int| minutes >= 1 && text == rate_limit_message(minutes),
{
    lemma_three_in_window(entries@, m.now as int, i, j, k);
    let eta = match reset_eta(entries@, m.now as int) {
        Some(s) => Some(clamp_i64(s)),
        None => None,
    };
    assert(reset_minutes_spec(eta) >= 1);
}

/// An address with fewer than three requests inside the window is served.
pub proof fn lemma_free_address_is_served(
    ctx: IssueContextView,
    entries: Vec<i64>,
    m: IssueMaterial,
)
    requires
        window_count(entries@, m.now as int) < 3,
    ensures
        issue_step_spec(
            IssueStateView::AwaitRateEntries { ctx },
            IssueEvent::RateEntries(Ok(entries)),
            m,
        ).1 == (IssueActionView::FindUser { email: ctx.email }),
{
}

/// A delivery that failed costs the user nothing: the step ends with the
/// failure and the request is not counted.
pub proof fn lemma_failed_delivery_is_not_counted(
    ctx: IssueContextView,
    user: KnownUserView,
    challenge_id: Seq<char>,
    e: AuthError,
    m: IssueMaterial,
)
    ensures
        issue_step_spec(
            IssueStateView::AwaitDelivery { ctx, user, challenge_id },
            IssueEvent::Delivered(Err(e)),
            m,
        ) == fail_with(e@),
{
}

/// The challenge that is stored answers to the secret that is delivered, and
/// to it alone among the secrets with another digest; it may be answered for
/// 300 seconds and is purged an hour after that.
pub proof fn lemma_minted_record_answers_secret(
    ctx: IssueContextView,
    user: KnownUserView,
    m: IssueMaterial,
)
    ensures
        ({
            let (next, action) = mint(ctx, user, m);
            &&& action matches IssueActionView::StoreRecord(rec)
            &&& next matches IssueStateView::AwaitStore { secret, .. }
            &&& verify_spec(secret, rec.otp_hash)
            &&& rec.wf()
            &&& rec.created_at == m.now
            &&& rec.attempts == 0
        }),
{
}

/// The two steps fit together. Let a challenge be minted at some time and
/// stored as it was minted. Then the secret that was delivered answers it
/// until 300 seconds have passed, and no longer: a run of the verifying step
/// that reads the challenge in time and removes it ends with `true`, and a run
/// that reads it later does not.
pub proof fn lemma_delivered_secret_answers_stored_challenge(
    ctx: IssueContextView,
    user: KnownUserView,
    m: IssueMaterial,
    stored: OTPRecord,
    now: i64,
    rest: Seq<VerifyEvent>,
)
    requires
        mint(ctx, user, m).1 == IssueActionView::StoreRecord(stored@),
    ensures
        ({
            let waiting = VerifyStateView::AwaitRecord { email: ctx.email, answer: m.secret@ };
            let read = VerifyEvent::Record { found: Ok(Some(stored)), now };
            let in_time = verify_run(waiting, seq![read, VerifyEvent::Deleted(Ok(()))] + rest);
            let late = verify_run(waiting, seq![read] + rest);
            &&& now <= m.now + 300 && in_time is Some ==> in_time == Some(
                Ok::<bool, AuthErrorView>(true),
            )
            &&& now <= m.now + 300 && rest.len() >= 3 ==> in_time is Some
            &&& now > m.now + 300 ==> late != Some(Ok::<bool, AuthErrorView>(true))
        }),
{
    if now <= m.now + 300 {
        lemma_fresh_challenge_succeeds(ctx.email, m.secret@, stored, now, rest);
    } else {
        lemma_expired_challenge_fails(ctx.email, m.secret@, stored, now, rest);
    }
}

} // verus!
