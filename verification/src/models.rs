//! The records that the authentication steps read and write, and the answers
//! they give to the identity provider.

use vstd::prelude::*;
use vstd::string::*;
use crate::strmap::StringMap;
use crate::text::{clone_opt, opt_view, str_eq};

verus! {

/// Where a user stands in registration. A status only ever moves forward
/// along the order in which the variants are written, or to `Rejected`, which
/// is final.
#[derive(Debug, Clone, Copy, PartialEq, Eq, Structural)]
pub enum UserStatus {
    RegistrationEmailNotVerified,
    RegistrationNeedUserInfo,
    RegistrationNeedStripe,
    AwaitingReview,
    Active,
    Rejected,
}

impl Default for UserStatus {
    fn default() -> (r: Self)
        ensures
            r == UserStatus::RegistrationEmailNotVerified,
    {
        UserStatus::RegistrationEmailNotVerified
    }
}

impl UserStatus {
    /// The place of a status in the order of registration; `Rejected` has
    /// none.
    pub open spec fn rank(self) -> Option<int> {
        match self {
            UserStatus::RegistrationEmailNotVerified => Some(0),
            UserStatus::RegistrationNeedUserInfo => Some(1),
            UserStatus::RegistrationNeedStripe => Some(2),
            UserStatus::AwaitingReview => Some(3),
            UserStatus::Active => Some(4),
            UserStatus::Rejected => None,
        }
    }

    /// Tells whether a user may move from `self` to `next`: forward in the
    /// order of registration, or out of it to `Rejected`.
    pub open spec fn may_become(self, next: UserStatus) -> bool {
        match (self.rank(), next.rank()) {
            (Some(a), Some(b)) => a < b,
            (Some(_), None) => true,
            (None, _) => false,
        }
    }

    /// The name under which a status is stored.
    pub open spec fn stored_name(self) -> Seq<char> {
        match self {
            UserStatus::RegistrationEmailNotVerified => "REGISTRATION_EMAIL_NOT_VERIFIED"@,
            UserStatus::RegistrationNeedUserInfo => "REGISTRATION_NEED_USER_INFO"@,
            UserStatus::RegistrationNeedStripe => "REGISTRATION_NEED_STRIPE"@,
            UserStatus::AwaitingReview => "AWAITING_REVIEW"@,
            UserStatus::Active => "ACTIVE"@,
            UserStatus::Rejected => "REJECTED"@,
        }
    }

    /// The name of the variant, as it is written in the source.
    pub open spec fn variant_name(self) -> Seq<char> {
        match self {
            UserStatus::RegistrationEmailNotVerified => "RegistrationEmailNotVerified"@,
            UserStatus::RegistrationNeedUserInfo => "RegistrationNeedUserInfo"@,
            UserStatus::RegistrationNeedStripe => "RegistrationNeedStripe"@,
            UserStatus::AwaitingReview => "AwaitingReview"@,
            UserStatus::Active => "Active"@,
            UserStatus::Rejected => "Rejected"@,
        }
    }

    /// The status with the given stored name, if there is one.
    pub open spec fn from_stored_name(name: Seq<char>) -> Option<UserStatus> {
        if name == "REGISTRATION_EMAIL_NOT_VERIFIED"@ {
            Some(UserStatus::RegistrationEmailNotVerified)
        } else if name == "REGISTRATION_NEED_USER_INFO"@ {
            Some(UserStatus::RegistrationNeedUserInfo)
        } else if name == "REGISTRATION_NEED_STRIPE"@ {
            Some(UserStatus::RegistrationNeedStripe)
        } else if name == "AWAITING_REVIEW"@ {
            Some(UserStatus::AwaitingReview)
        } else if name == "ACTIVE"@ {
            Some(UserStatus::Active)
        } else if name == "REJECTED"@ {
            Some(UserStatus::Rejected)
        } else {
            None
        }
    }

    /// Tells whether a user may move from `self` to `next`.
    pub fn can_become(self, next: UserStatus) -> (r: bool)
        ensures
            r == self.may_become(next),
    {
        let a: u8 = match self {
            UserStatus::RegistrationEmailNotVerified => 0,
            UserStatus::RegistrationNeedUserInfo => 1,
            UserStatus::RegistrationNeedStripe => 2,
            UserStatus::AwaitingReview => 3,
            UserStatus::Active => 4,
            UserStatus::Rejected => {
                return false;
            },
        };
        match next {
            UserStatus::RegistrationEmailNotVerified => false,
            UserStatus::RegistrationNeedUserInfo => a < 1,
            UserStatus::RegistrationNeedStripe => a < 2,
            UserStatus::AwaitingReview => a < 3,
            UserStatus::Active => a < 4,
            UserStatus::Rejected => true,
        }
    }

    /// The status after the user has proved control of the address: a user
    /// whose address was not verified now owes the profile; every other
    /// status stays as it is, and `None` says so.
    pub fn after_verification(self) -> (r: Option<UserStatus>)
        ensures
            r == if self == UserStatus::RegistrationEmailNotVerified {
                Some(UserStatus::RegistrationNeedUserInfo)
            } else {
                None::<UserStatus>
            },
            r matches Some(next) ==> self.may_become(next),
    {
        match self {
            UserStatus::RegistrationEmailNotVerified => Some(UserStatus::RegistrationNeedUserInfo),
            _ => None,
        }
    }

    /// The name under which the status is stored.
    pub fn as_str(self) -> (r: &'static str)
        ensures
            r@ == self.stored_name(),
    {
        match self {
            UserStatus::RegistrationEmailNotVerified => "REGISTRATION_EMAIL_NOT_VERIFIED",
            UserStatus::RegistrationNeedUserInfo => "REGISTRATION_NEED_USER_INFO",
            UserStatus::RegistrationNeedStripe => "REGISTRATION_NEED_STRIPE",
            UserStatus::AwaitingReview => "AWAITING_REVIEW",
            UserStatus::Active => "ACTIVE",
            UserStatus::Rejected => "REJECTED",
        }
    }

    /// The name of the variant, as it is written in the source.
    pub fn debug_name(self) -> (r: &'static str)
        ensures
            r@ == self.variant_name(),
    {
        match self {
            UserStatus::RegistrationEmailNotVerified => "RegistrationEmailNotVerified",
            UserStatus::RegistrationNeedUserInfo => "RegistrationNeedUserInfo",
            UserStatus::RegistrationNeedStripe => "RegistrationNeedStripe",
            UserStatus::AwaitingReview => "AwaitingReview",
            UserStatus::Active => "Active",
            UserStatus::Rejected => "Rejected",
        }
    }

    /// The status with the given stored name, if there is one.
    pub fn parse(name: &str) -> (r: Option<UserStatus>)
        ensures
            r == UserStatus::from_stored_name(name@),
    {
        if str_eq(name, "REGISTRATION_EMAIL_NOT_VERIFIED") {
            Some(UserStatus::RegistrationEmailNotVerified)
        } else if str_eq(name, "REGISTRATION_NEED_USER_INFO") {
            Some(UserStatus::RegistrationNeedUserInfo)
        } else if str_eq(name, "REGISTRATION_NEED_STRIPE") {
            Some(UserStatus::RegistrationNeedStripe)
        } else if str_eq(name, "AWAITING_REVIEW") {
            Some(UserStatus::AwaitingReview)
        } else if str_eq(name, "ACTIVE") {
            Some(UserStatus::Active)
        } else if str_eq(name, "REJECTED") {
            Some(UserStatus::Rejected)
        } else {
            None
        }
    }
}

/// The six stored names are distinct, so a status is found again from its
/// stored name.
pub proof fn lemma_status_name_round_trip(status: UserStatus)
    ensures
        UserStatus::from_stored_name(status.stored_name()) == Some(status),
{
    reveal_strlit("REGISTRATION_EMAIL_NOT_VERIFIED");
    reveal_strlit("REGISTRATION_NEED_USER_INFO");
    reveal_strlit("REGISTRATION_NEED_STRIPE");
    reveal_strlit("AWAITING_REVIEW");
    reveal_strlit("ACTIVE");
    reveal_strlit("REJECTED");
    let a = "REGISTRATION_EMAIL_NOT_VERIFIED"@;
    let b = "REGISTRATION_NEED_USER_INFO"@;
    let c = "REGISTRATION_NEED_STRIPE"@;
    let d = "AWAITING_REVIEW"@;
    let e = "ACTIVE"@;
    let f = "REJECTED"@;
    assert(a.len() == 31 && b.len() == 27 && c.len() == 24 && d.len() == 15 && e.len() == 6
        && f.len() == 8);
}

/// The order of registration has no way back: a move and its reverse are
/// never both allowed, and the moves chain.
pub proof fn lemma_status_moves_forward(a: UserStatus, b: UserStatus, c: UserStatus)
    ensures
        !a.may_become(a),
        a.may_become(b) ==> !b.may_become(a),
        a.may_become(b) && b.may_become(c) ==> a.may_become(c),
        !UserStatus::Rejected.may_become(a),
{
}

/// An instant: whole seconds since the Unix epoch, and the nanoseconds past
/// them.
#[derive(Debug, Clone, Copy, PartialEq, Eq, Structural)]
pub struct Timestamp {
    pub secs: i64,
    pub nanos: u32,
}

/// What is known of a user.
#[derive(Debug, PartialEq, Eq)]
pub struct UserProfile {
    pub user_id: String,
    pub email: String,
    pub status: UserStatus,
    pub full_name: Option<String>,
    pub content_description: Option<String>,
    pub content_link: Option<String>,
    pub stripe_account_id: Option<String>,
    pub created_at: Timestamp,
    pub updated_at: Timestamp,
    pub reviewed_by: Option<String>,
    pub reviewed_at: Option<Timestamp>,
    pub rejection_reason: Option<String>,
}

/// What a [`UserProfile`] holds, as plain values.
pub struct UserProfileView {
    pub user_id: Seq<char>,
    pub email: Seq<char>,
    pub status: UserStatus,
    pub full_name: Option<Seq<char>>,
    pub content_description: Option<Seq<char>>,
    pub content_link: Option<Seq<char>>,
    pub stripe_account_id: Option<Seq<char>>,
    pub created_at: Timestamp,
    pub updated_at: Timestamp,
    pub reviewed_by: Option<Seq<char>>,
    pub reviewed_at: Option<Timestamp>,
    pub rejection_reason: Option<Seq<char>>,
}

impl View for UserProfile {
    type V = UserProfileView;

    open spec fn view(&self) -> UserProfileView {
        UserProfileView {
            user_id: self.user_id@,
            email: self.email@,
            status: self.status,
            full_name: opt_view(self.full_name),
            content_description: opt_view(self.content_description),
            content_link: opt_view(self.content_link),
            stripe_account_id: opt_view(self.stripe_account_id),
            created_at: self.created_at,
            updated_at: self.updated_at,
            reviewed_by: opt_view(self.reviewed_by),
            reviewed_at: self.reviewed_at,
            rejection_reason: opt_view(self.rejection_reason),
        }
    }
}

impl Clone for UserProfile {
    fn clone(&self) -> (r: Self)
        ensures
            r@ == self@,
    {
        UserProfile {
            user_id: self.user_id.clone(),
            email: self.email.clone(),
            status: self.status,
            full_name: clone_opt(&self.full_name),
            content_description: clone_opt(&self.content_description),
            content_link: clone_opt(&self.content_link),
            stripe_account_id: clone_opt(&self.stripe_account_id),
            created_at: self.created_at,
            updated_at: self.updated_at,
            reviewed_by: clone_opt(&self.reviewed_by),
            reviewed_at: self.reviewed_at,
            rejection_reason: clone_opt(&self.rejection_reason),
        }
    }
}

impl UserProfileView {
    /// The record of a user at first contact: the given identifier and
    /// address, the address not yet verified, created and updated at `now`,
    /// and nothing else known.
    pub open spec fn first_contact(
        email: Seq<char>,
        user_id: Seq<char>,
        now: Timestamp,
    ) -> UserProfileView {
        UserProfileView {
            user_id,
            email,
            status: UserStatus::RegistrationEmailNotVerified,
            full_name: None,
            content_description: None,
            content_link: None,
            stripe_account_id: None,
            created_at: now,
            updated_at: now,
            reviewed_by: None,
            reviewed_at: None,
            rejection_reason: None,
        }
    }
}

impl UserProfile {
    /// The record of a user at first contact. The identifier is the one under
    /// which the identity provider knows the user, so that both sides speak of
    /// one account.
    pub fn first_contact(email: &str, user_id: &str, now: Timestamp) -> (r: Self)
        ensures
            r@ == UserProfileView::first_contact(email@, user_id@, now),
    {
        UserProfile {
            user_id: String::from_str(user_id),
            email: String::from_str(email),
            status: UserStatus::default(),
            full_name: None,
            content_description: None,
            content_link: None,
            stripe_account_id: None,
            created_at: now,
            updated_at: now,
            reviewed_by: None,
            reviewed_at: None,
            rejection_reason: None,
        }
    }
}

/// One outstanding challenge: the digest of the secret that was sent to an
/// address, and until when it may be answered.
#[derive(Debug, PartialEq, Eq)]
pub struct OTPRecord {
    pub email: String,
    pub otp_hash: String,
    pub created_at: i64,
    pub expires_at: i64,
    pub ttl: i64,
    pub challenge_id: String,
    pub attempts: u8,
}

/// What an [`OTPRecord`] holds, as plain values.
pub struct OTPRecordView {
    pub email: Seq<char>,
    pub otp_hash: Seq<char>,
    pub created_at: int,
    pub expires_at: int,
    pub ttl: int,
    pub challenge_id: Seq<char>,
    pub attempts: int,
}

impl OTPRecordView {
    /// A challenge is worth what was written when it was issued: it may be
    /// answered for 300 seconds and is purged an hour after that.
    pub open spec fn wf(self) -> bool {
        &&& self.expires_at == self.created_at + 300
        &&& self.ttl == self.expires_at + 3600
    }
}

impl View for OTPRecord {
    type V = OTPRecordView;

    open spec fn view(&self) -> OTPRecordView {
        OTPRecordView {
            email: self.email@,
            otp_hash: self.otp_hash@,
            created_at: self.created_at as int,
            expires_at: self.expires_at as int,
            ttl: self.ttl as int,
            challenge_id: self.challenge_id@,
            attempts: self.attempts as int,
        }
    }
}

impl Clone for OTPRecord {
    fn clone(&self) -> (r: Self)
        ensures
            r@ == self@,
    {
        OTPRecord {
            email: self.email.clone(),
            otp_hash: self.otp_hash.clone(),
            created_at: self.created_at,
            expires_at: self.expires_at,
            ttl: self.ttl,
            challenge_id: self.challenge_id.clone(),
            attempts: self.attempts,
        }
    }
}

/// One request for a challenge, kept to limit how many an address may make.
#[derive(Debug, PartialEq, Eq)]
pub struct RateLimitRecord {
    pub email: String,
    pub request_timestamp: i64,
    pub ttl: i64,
}

/// What a [`RateLimitRecord`] holds, as plain values.
pub struct RateLimitRecordView {
    pub email: Seq<char>,
    pub request_timestamp: int,
    pub ttl: int,
}

impl View for RateLimitRecord {
    type V = RateLimitRecordView;

    open spec fn view(&self) -> RateLimitRecordView {
        RateLimitRecordView {
            email: self.email@,
            request_timestamp: self.request_timestamp as int,
            ttl: self.ttl as int,
        }
    }
}

impl Clone for RateLimitRecord {
    fn clone(&self) -> (r: Self)
        ensures
            r@ == self@,
    {
        RateLimitRecord {
            email: self.email.clone(),
            request_timestamp: self.request_timestamp,
            ttl: self.ttl,
        }
    }
}

/// One earlier round of the login attempt, as the identity provider reports
/// it: the kind of challenge, and its outcome as text.
#[derive(Debug, PartialEq, Eq)]
pub struct CognitoSession {
    pub challenge_name: String,
    pub challenge_result: String,
}

impl Clone for CognitoSession {
    fn clone(&self) -> (r: Self)
        ensures
            r.challenge_name@ == self.challenge_name@,
            r.challenge_result@ == self.challenge_result@,
    {
        CognitoSession {
            challenge_name: self.challenge_name.clone(),
            challenge_result: self.challenge_result.clone(),
        }
    }
}

/// What the identity provider hands to a step of the login attempt.
#[derive(Debug, Clone, PartialEq, Eq)]
pub struct CognitoRequest {
    pub user_attributes: StringMap,
    pub challenge_name: Option<String>,
    pub session: Option<Vec<CognitoSession>>,
    pub private_challenge_parameters: Option<StringMap>,
    pub challenge_answer: Option<String>,
}

/// The answer of the issuing step: what the client may see, what only the
/// next step may see, and a marker of how the step ended.
#[derive(Debug, PartialEq, Eq)]
pub struct CreateChallengeResponse {
    pub public_challenge_parameters: StringMap,
    pub private_challenge_parameters: StringMap,
    pub challenge_metadata: String,
}

/// What a [`CreateChallengeResponse`] holds, as plain values.
pub struct CreateChallengeResponseView {
    pub public_challenge_parameters: Map<Seq<char>, Seq<char>>,
    pub private_challenge_parameters: Map<Seq<char>, Seq<char>>,
    pub challenge_metadata: Seq<char>,
}

impl View for CreateChallengeResponse {
    type V = CreateChallengeResponseView;

    open spec fn view(&self) -> CreateChallengeResponseView {
        CreateChallengeResponseView {
            public_challenge_parameters: self.public_challenge_parameters@,
            private_challenge_parameters: self.private_challenge_parameters@,
            challenge_metadata: self.challenge_metadata@,
        }
    }
}

impl Clone for CreateChallengeResponse {
    fn clone(&self) -> (r: Self)
        ensures
            r@ == self@,
    {
        CreateChallengeResponse {
            public_challenge_parameters: self.public_challenge_parameters.clone(),
            private_challenge_parameters: self.private_challenge_parameters.clone(),
            challenge_metadata: self.challenge_metadata.clone(),
        }
    }
}

/// The answer of the verifying step.
#[derive(Debug, Clone, Copy, PartialEq, Eq, Structural)]
pub struct VerifyChallengeResponse {
    pub answer_correct: bool,
}

/// The answer of the deciding step: the challenge to present, if any, and
/// whether the session is accepted or refused.
#[derive(Debug, PartialEq, Eq)]
pub struct DefineChallengeResponse {
    pub challenge_name: Option<String>,
    pub issue_tokens: bool,
    pub fail_authentication: bool,
}

/// What a [`DefineChallengeResponse`] holds, as plain values.
pub struct DefineChallengeResponseView {
    pub challenge_name: Option<Seq<char>>,
    pub issue_tokens: bool,
    pub fail_authentication: bool,
}

impl View for DefineChallengeResponse {
    type V = DefineChallengeResponseView;

    open spec fn view(&self) -> DefineChallengeResponseView {
        DefineChallengeResponseView {
            challenge_name: opt_view(self.challenge_name),
            issue_tokens: self.issue_tokens,
            fail_authentication: self.fail_authentication,
        }
    }
}

impl Clone for DefineChallengeResponse {
    fn clone(&self) -> (r: Self)
        ensures
            r@ == self@,
    {
        DefineChallengeResponse {
            challenge_name: clone_opt(&self.challenge_name),
            issue_tokens: self.issue_tokens,
            fail_authentication: self.fail_authentication,
        }
    }
}

} // verus!
