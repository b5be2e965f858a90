use otp_auth::errors::AuthError;
use otp_auth::issue::{
    confirmation_outcome, handle_create_result, issue_at, issue_next, issue_step,
    mint_challenge,
    CreateOutcome, IssueAction, IssueContext, IssueEvent, IssueMaterial, IssueRequest,
    IssueState, KnownUser,
};
use otp_auth::models::{
    CreateChallengeResponse, OTPRecord, RateLimitRecord, Timestamp, UserProfile, UserStatus,
    VerifyChallengeResponse,
};
use otp_auth::strmap::StringMap;
use otp_auth::utils::{hash_otp, is_otp_format};
use otp_auth::verify::{
    handle_verify_result, judge_record, request_email, verify_step, VerifyAction, VerifyEvent,
    VerifyRequest, VerifyState,
};
use std::collections::HashMap;

/// The outside world of the two steps, kept in memory.
struct World {
    challenges: HashMap<String, OTPRecord>,
    requests: Vec<RateLimitRecord>,
    users: HashMap<String, UserProfile>,
    outbox: Vec<(String, String)>,
    confirmed: Vec<String>,
    verified: Vec<String>,
    delivery_works: bool,
    store_works: bool,
    directory_works: bool,
    provider_works: bool,
    conflict_on_create: bool,
    store_reads: usize,
    store_writes: usize,
}

fn world() -> World {
    World {
        challenges: HashMap::new(),
        requests: Vec::new(),
        users: HashMap::new(),
        outbox: Vec::new(),
        confirmed: Vec::new(),
        verified: Vec::new(),
        delivery_works: true,
        store_works: true,
        directory_works: true,
        provider_works: true,
        conflict_on_create: false,
        store_reads: 0,
        store_writes: 0,
    }
}

fn down() -> AuthError {
    AuthError::DynamoDBError("unreachable".to_string())
}

fn attrs(email: Option<&str>) -> StringMap {
    let mut m = StringMap::new();
    m.insert("sub".to_string(), "sub-1".to_string());
    if let Some(e) = email {
        m.insert("email".to_string(), e.to_string());
    }
    m
}

fn issue_request(email: &str) -> IssueRequest {
    IssueRequest {
        user_attributes: attrs(Some(email)),
        client_metadata: StringMap::new(),
        user_name: Some("sub-1".to_string()),
        user_pool_id: Some("pool-1".to_string()),
    }
}

fn material(secret: &str, now: i64) -> IssueMaterial {
    IssueMaterial { secret: secret.to_string(), challenge_id: "token-1".to_string(), now }
}

fn issue_with(
    w: &mut World,
    request: IssueRequest,
    secret: &str,
    now: i64,
) -> Result<CreateChallengeResponse, AuthError> {
    let mut state = IssueState::Start;
    let mut event = IssueEvent::Request(request);
    loop {
        let (next, action) = issue_step(state, event, material(secret, now));
        state = next;
        event = match action {
            IssueAction::LoadRateEntries { email, since } => {
                w.store_reads += 1;
                IssueEvent::RateEntries(Ok(w
                    .requests
                    .iter()
                    .filter(|r| r.email == email && r.request_timestamp > since)
                    .map(|r| r.request_timestamp)
                    .collect()))
            }
            IssueAction::FindUser { email } => {
                if w.directory_works {
                    IssueEvent::UserFound(Ok(w.users.get(&email).cloned()))
                } else {
                    IssueEvent::UserFound(Err(down()))
                }
            }
            IssueAction::CreateUser { email, user_id } => {
                let user =
                    UserProfile::first_contact(&email, &user_id, Timestamp { secs: now, nanos: 0 });
                if w.conflict_on_create {
                    // Someone else was faster.
                    let mut other = user.clone();
                    other.user_id = "sub-other".to_string();
                    w.users.insert(email, other);
                    IssueEvent::UserCreated(CreateOutcome::Conflict)
                } else {
                    w.users.insert(email, user.clone());
                    IssueEvent::UserCreated(CreateOutcome::Created(user))
                }
            }
            IssueAction::ConfirmAccount { email, user_pool_id } => {
                assert_eq!(user_pool_id, "pool-1");
                if w.provider_works {
                    w.confirmed.push(email);
                    IssueEvent::Confirmed(Ok(()))
                } else {
                    IssueEvent::Confirmed(Err(AuthError::InternalError("no".to_string())))
                }
            }
            IssueAction::StoreRecord(record) => {
                if w.store_works {
                    w.store_writes += 1;
                    w.challenges.insert(record.email.clone(), record);
                    IssueEvent::Stored(Ok(()))
                } else {
                    IssueEvent::Stored(Err(down()))
                }
            }
            IssueAction::DeliverSecret { email, secret } => {
                if w.delivery_works {
                    w.outbox.push((email, secret));
                    IssueEvent::Delivered(Ok(()))
                } else {
                    IssueEvent::Delivered(Err(AuthError::EmailDeliveryFailed(
                        "bounced".to_string(),
                    )))
                }
            }
            IssueAction::RecordRequest(record) => {
                w.requests.push(record);
                IssueEvent::Recorded(Ok(()))
            }
            IssueAction::Finish(result) => {
                assert_eq!(state, IssueState::Done);
                return result;
            }
        };
    }
}

fn issue(w: &mut World, email: &str, secret: &str, now: i64) -> Result<CreateChallengeResponse, AuthError> {
    issue_with(w, issue_request(email), secret, now)
}

fn verify_request(email: Option<&str>, answer: Option<&str>) -> VerifyRequest {
    VerifyRequest {
        user_attributes: attrs(email),
        client_metadata: None,
        challenge_answer: answer.map(|a| a.to_string()),
    }
}

fn verify_with(w: &mut World, request: VerifyRequest, now: i64) -> Result<bool, AuthError> {
    let mut state = VerifyState::Start;
    let mut event = VerifyEvent::Request(request);
    loop {
        let (next, action) = verify_step(state, event);
        state = next;
        event = match action {
            VerifyAction::GetRecord { email } => {
                w.store_reads += 1;
                if w.store_works {
                    VerifyEvent::Record { found: Ok(w.challenges.get(&email).cloned()), now }
                } else {
                    VerifyEvent::Record { found: Err(down()), now }
                }
            }
            VerifyAction::DeleteRecord { email } => {
                if w.store_works {
                    w.store_writes += 1;
                    w.challenges.remove(&email);
                    VerifyEvent::Deleted(Ok(()))
                } else {
                    VerifyEvent::Deleted(Err(down()))
                }
            }
            VerifyAction::FindUser { email } => {
                if w.directory_works {
                    VerifyEvent::UserFound(Ok(w.users.get(&email).cloned()))
                } else {
                    VerifyEvent::UserFound(Err(down()))
                }
            }
            VerifyAction::UpdateStatus { user_id, status } => {
                for u in w.users.values_mut() {
                    if u.user_id == user_id {
                        assert!(u.status.can_become(status));
                        u.status = status;
                    }
                }
                VerifyEvent::StatusUpdated(Ok(()))
            }
            VerifyAction::MarkChannelVerified { email } => {
                if w.provider_works {
                    w.verified.push(email);
                    VerifyEvent::ChannelMarked(Ok(()))
                } else {
                    VerifyEvent::ChannelMarked(Err(AuthError::InternalError("no".to_string())))
                }
            }
            VerifyAction::Finish(result) => {
                assert_eq!(state, VerifyState::Done);
                return result;
            }
        };
    }
}

fn verify(w: &mut World, email: &str, answer: &str, now: i64) -> Result<bool, AuthError> {
    verify_with(w, verify_request(Some(email), Some(answer)), now)
}

const T0: i64 = 1_700_000_000;

#[test]
fn end_to_end_issue_then_verify() {
    let mut w = world();
    assert!(w.challenges.get("a@x.com").is_none());

    let response = issue(&mut w, "a@x.com", "482913", T0).unwrap();
    // A six-digit secret was delivered, and its digest stored.
    assert_eq!(w.outbox, vec![("a@x.com".to_string(), "482913".to_string())]);
    assert!(is_otp_format(&w.outbox[0].1));
    let stored = w.challenges.get("a@x.com").unwrap().clone();
    assert_eq!(
        stored,
        OTPRecord {
            email: "a@x.com".to_string(),
            otp_hash: hash_otp("482913"),
            created_at: T0,
            expires_at: T0 + 300,
            ttl: T0 + 300 + 3600,
            challenge_id: "token-1".to_string(),
            attempts: 0,
        }
    );
    assert_ne!(stored.otp_hash, "482913");
    assert_eq!(w.users.get("a@x.com").unwrap().status, UserStatus::RegistrationEmailNotVerified);
    assert_eq!(w.users.get("a@x.com").unwrap().user_id, "sub-1");
    assert_eq!(w.confirmed, vec!["a@x.com".to_string()]);
    assert_eq!(
        w.requests,
        vec![RateLimitRecord {
            email: "a@x.com".to_string(),
            request_timestamp: T0,
            ttl: T0 + 900
        }]
    );

    // The client sees the address and the kind of challenge, not the secret.
    assert_eq!(response.challenge_metadata, "OTP_EMAIL_SENT");
    assert_eq!(response.public_challenge_parameters.get("email"), Some(&"a@x.com".to_string()));
    assert_eq!(
        response.public_challenge_parameters.get("challenge_type"),
        Some(&"OTP_EMAIL".to_string())
    );
    assert_eq!(response.public_challenge_parameters.entries.len(), 2);
    assert_eq!(
        response.private_challenge_parameters.get("challenge_id"),
        Some(&"token-1".to_string())
    );
    assert_eq!(response.private_challenge_parameters.get("user_id"), Some(&"sub-1".to_string()));
    assert_eq!(
        response.private_challenge_parameters.get("user_status"),
        Some(&"RegistrationEmailNotVerified".to_string())
    );
    assert_eq!(response.private_challenge_parameters.entries.len(), 3);
    for (_, v) in response
        .public_challenge_parameters
        .entries
        .iter()
        .chain(response.private_challenge_parameters.entries.iter())
    {
        assert_ne!(v, "482913");
    }

    // The right answer is accepted; the challenge is gone and the user moved on.
    assert_eq!(verify(&mut w, "a@x.com", "482913", T0 + 10), Ok(true));
    assert!(w.challenges.get("a@x.com").is_none());
    assert_eq!(w.users.get("a@x.com").unwrap().status, UserStatus::RegistrationNeedUserInfo);
    assert_eq!(w.verified, vec!["a@x.com".to_string()]);

    // Nothing answers a challenge that is gone.
    assert_eq!(verify(&mut w, "a@x.com", "482913", T0 + 11), Ok(false));
    assert_eq!(verify(&mut w, "a@x.com", "000000", T0 + 12), Ok(false));
}

#[test]
fn a_malformed_answer_does_not_touch_the_store() {
    let mut w = world();
    issue(&mut w, "a@x.com", "123456", T0).unwrap();
    let reads = w.store_reads;
    let writes = w.store_writes;
    assert_eq!(verify(&mut w, "a@x.com", "12a456", T0 + 1), Ok(false));
    assert_eq!(verify(&mut w, "a@x.com", "12345", T0 + 1), Ok(false));
    assert_eq!(verify(&mut w, "a@x.com", "1234567", T0 + 1), Ok(false));
    assert_eq!(verify(&mut w, "a@x.com", "", T0 + 1), Ok(false));
    assert_eq!(w.store_reads, reads);
    assert_eq!(w.store_writes, writes);
    assert!(w.challenges.contains_key("a@x.com"));
    // The first move already finishes.
    let (state, action) = verify_step(
        VerifyState::Start,
        VerifyEvent::Request(verify_request(Some("a@x.com"), Some("12a456"))),
    );
    assert_eq!(state, VerifyState::Done);
    assert_eq!(action, VerifyAction::Finish(Ok(false)));
}

#[test]
fn three_issuances_succeed_and_the_fourth_is_refused() {
    let mut w = world();
    assert!(issue(&mut w, "a@x.com", "000001", T0).is_ok());
    assert!(issue(&mut w, "a@x.com", "000002", T0 + 300).is_ok());
    assert!(issue(&mut w, "a@x.com", "000003", T0 + 590).is_ok());
    let delivered = w.outbox.len();
    let writes = w.store_writes;
    // Ten minutes after the first: still inside its window.
    let refused = issue(&mut w, "a@x.com", "000004", T0 + 600);
    assert_eq!(
        refused,
        Err(AuthError::RateLimitExceeded(
            "Too many requests. Try again in 5 minutes.".to_string()
        ))
    );
    // Nothing was written or sent for the refused request.
    assert_eq!(w.outbox.len(), delivered);
    assert_eq!(w.store_writes, writes);
    assert_eq!(w.requests.len(), 3);
    assert_eq!(w.challenges.get("a@x.com").unwrap().otp_hash, hash_otp("000003"));
    // Another address is not affected.
    assert!(issue(&mut w, "b@x.com", "000005", T0 + 600).is_ok());
}

#[test]
fn the_fourth_issuance_in_the_window_is_refused_and_the_window_slides() {
    let mut w = world();
    assert!(issue(&mut w, "a@x.com", "000001", T0).is_ok());
    assert!(issue(&mut w, "a@x.com", "000002", T0 + 1).is_ok());
    assert!(issue(&mut w, "a@x.com", "000003", T0 + 2).is_ok());
    assert!(matches!(
        issue(&mut w, "a@x.com", "000004", T0 + 899),
        Err(AuthError::RateLimitExceeded(_))
    ));
    assert_eq!(
        issue(&mut w, "a@x.com", "000004", T0 + 899),
        Err(AuthError::RateLimitExceeded(
            "Too many requests. Try again in 1 minutes.".to_string()
        ))
    );
    // 900 seconds after the first request the first no longer counts.
    assert!(issue(&mut w, "a@x.com", "000004", T0 + 900).is_ok());
    // Now the second, the third and the new one fill the window.
    assert!(matches!(
        issue(&mut w, "a@x.com", "000005", T0 + 900),
        Err(AuthError::RateLimitExceeded(_))
    ));
    assert!(issue(&mut w, "a@x.com", "000005", T0 + 901).is_ok());
}

#[test]
fn a_challenge_expires_after_300_seconds() {
    let mut w = world();
    issue(&mut w, "a@x.com", "123456", T0).unwrap();
    // At the last second the answer is still accepted.
    let mut at_expiry = world();
    at_expiry.challenges = w.challenges.clone();
    assert_eq!(verify(&mut at_expiry, "a@x.com", "123456", T0 + 300), Ok(true));
    // One second later it is not, and the challenge is removed.
    assert_eq!(verify(&mut w, "a@x.com", "123456", T0 + 301), Ok(false));
    assert!(w.challenges.get("a@x.com").is_none());
    assert!(w.verified.is_empty());
}

#[test]
fn a_challenge_past_its_purge_time_counts_as_absent() {
    let mut w = world();
    issue(&mut w, "a@x.com", "123456", T0).unwrap();
    let writes = w.store_writes;
    assert_eq!(verify(&mut w, "a@x.com", "123456", T0 + 3901), Ok(false));
    // It was not even removed: the reader did as if it were not there.
    assert_eq!(w.store_writes, writes);
    assert!(w.challenges.contains_key("a@x.com"));
    // Just before, it is out of date and is removed.
    assert_eq!(verify(&mut w, "a@x.com", "123456", T0 + 3900), Ok(false));
    assert!(!w.challenges.contains_key("a@x.com"));
}

#[test]
fn a_wrong_answer_leaves_the_challenge() {
    let mut w = world();
    issue(&mut w, "a@x.com", "123456", T0).unwrap();
    assert_eq!(verify(&mut w, "a@x.com", "654321", T0 + 1), Ok(false));
    assert!(w.challenges.contains_key("a@x.com"));
    assert_eq!(w.challenges.get("a@x.com").unwrap().attempts, 0);
    assert_eq!(w.users.get("a@x.com").unwrap().status, UserStatus::RegistrationEmailNotVerified);
    assert_eq!(verify(&mut w, "a@x.com", "123456", T0 + 2), Ok(true));
}

#[test]
fn a_new_challenge_supersedes_the_old_one() {
    let mut w = world();
    issue(&mut w, "a@x.com", "111111", T0).unwrap();
    issue(&mut w, "a@x.com", "222222", T0 + 5).unwrap();
    assert_eq!(w.challenges.len(), 1);
    assert_eq!(verify(&mut w, "a@x.com", "111111", T0 + 6), Ok(false));
    assert_eq!(verify(&mut w, "a@x.com", "222222", T0 + 7), Ok(true));
}

#[test]
fn a_failed_delivery_fails_the_step_and_is_not_counted() {
    let mut w = world();
    w.delivery_works = false;
    assert_eq!(
        issue(&mut w, "a@x.com", "123456", T0),
        Err(AuthError::EmailDeliveryFailed("bounced".to_string()))
    );
    assert!(w.requests.is_empty());
    assert!(w.outbox.is_empty());
    // The user may try again at once, as often as the cap allows.
    w.delivery_works = true;
    assert!(issue(&mut w, "a@x.com", "123456", T0 + 1).is_ok());
    assert!(issue(&mut w, "a@x.com", "123456", T0 + 2).is_ok());
    assert!(issue(&mut w, "a@x.com", "123456", T0 + 3).is_ok());
    assert!(issue(&mut w, "a@x.com", "123456", T0 + 4).is_err());
}

#[test]
fn a_failed_confirmation_does_not_stop_the_step() {
    let mut w = world();
    w.provider_works = false;
    assert!(issue(&mut w, "a@x.com", "123456", T0).is_ok());
    assert!(w.confirmed.is_empty());
    assert_eq!(w.outbox.len(), 1);
    // Nor does a failed mark stop the verification.
    assert_eq!(verify(&mut w, "a@x.com", "123456", T0 + 1), Ok(true));
    assert!(w.verified.is_empty());
}

#[test]
fn without_a_pool_nothing_is_confirmed() {
    let mut w = world();
    let mut request = issue_request("a@x.com");
    request.user_pool_id = None;
    assert!(issue_with(&mut w, request, "123456", T0).is_ok());
    assert!(w.confirmed.is_empty());
    assert_eq!(w.outbox.len(), 1);
}

#[test]
fn an_unreachable_store_fails_the_steps() {
    let mut w = world();
    w.store_works = false;
    assert_eq!(issue(&mut w, "a@x.com", "123456", T0), Err(down()));
    assert!(w.outbox.is_empty());
    assert!(w.requests.is_empty());
    assert_eq!(verify(&mut w, "a@x.com", "123456", T0), Err(down()));
    // The right answer with a store that fails at the removal is a failure.
    let mut w = world();
    issue(&mut w, "a@x.com", "123456", T0).unwrap();
    let (state, action) = verify_step(
        VerifyState::AwaitConsume { email: "a@x.com".to_string() },
        VerifyEvent::Deleted(Err(down())),
    );
    assert_eq!(state, VerifyState::Done);
    assert_eq!(action, VerifyAction::Finish(Err(down())));
    // To the identity provider a failure is a wrong answer.
    assert_eq!(
        handle_verify_result(&Err(down())),
        VerifyChallengeResponse { answer_correct: false }
    );
    assert_eq!(handle_verify_result(&Ok(true)), VerifyChallengeResponse { answer_correct: true });
    assert_eq!(handle_verify_result(&Ok(false)), VerifyChallengeResponse { answer_correct: false });
}

#[test]
fn an_unreachable_directory_fails_issuance_only() {
    let mut w = world();
    w.directory_works = false;
    assert_eq!(issue(&mut w, "a@x.com", "123456", T0), Err(down()));
    assert!(w.challenges.is_empty());
    w.directory_works = true;
    issue(&mut w, "a@x.com", "123456", T0).unwrap();
    w.directory_works = false;
    assert_eq!(verify(&mut w, "a@x.com", "123456", T0 + 1), Ok(true));
    assert_eq!(w.users.get("a@x.com").unwrap().status, UserStatus::RegistrationEmailNotVerified);
}

#[test]
fn a_concurrent_creation_is_read_again() {
    let mut w = world();
    w.conflict_on_create = true;
    let response = issue(&mut w, "a@x.com", "123456", T0).unwrap();
    assert_eq!(
        response.private_challenge_parameters.get("user_id"),
        Some(&"sub-other".to_string())
    );
    // A conflict without a record to read is a failure.
    let ctx = IssueContext {
        email: "a@x.com".to_string(),
        user_name: Some("sub-1".to_string()),
        user_pool_id: None,
    };
    let (state, action) = issue_step(
        IssueState::AwaitUser { ctx, reread: true },
        IssueEvent::UserFound(Ok(None)),
        material("123456", T0),
    );
    assert_eq!(state, IssueState::Done);
    assert_eq!(
        action,
        IssueAction::Finish(Err(AuthError::DynamoDBError(
            "User was created concurrently but could not be read".to_string()
        )))
    );
}

#[test]
fn an_existing_user_keeps_identifier_and_status() {
    let mut w = world();
    let mut user = UserProfile::first_contact("a@x.com", "old-id", Timestamp { secs: 1, nanos: 0 });
    user.status = UserStatus::Active;
    w.users.insert("a@x.com".to_string(), user);
    let response = issue(&mut w, "a@x.com", "123456", T0).unwrap();
    assert_eq!(response.private_challenge_parameters.get("user_id"), Some(&"old-id".to_string()));
    assert_eq!(
        response.private_challenge_parameters.get("user_status"),
        Some(&"Active".to_string())
    );
    assert_eq!(verify(&mut w, "a@x.com", "123456", T0 + 1), Ok(true));
    // Only an unverified user is moved on.
    assert_eq!(w.users.get("a@x.com").unwrap().status, UserStatus::Active);
}

#[test]
fn requests_are_validated_first() {
    let mut w = world();
    let mut request = issue_request("a@x.com");
    request.user_attributes = attrs(None);
    assert_eq!(
        issue_with(&mut w, request, "123456", T0),
        Err(AuthError::ValidationError(
            "Email not found in user attributes or client metadata".to_string()
        ))
    );
    assert_eq!(
        issue(&mut w, "a@b.c", "123456", T0),
        Err(AuthError::ValidationError("Invalid email format".to_string()))
    );
    let mut request = issue_request("a@x.com");
    request.user_name = None;
    assert_eq!(
        issue_with(&mut w, request, "123456", T0),
        Err(AuthError::InternalError("Cognito user_name not available".to_string()))
    );
    assert_eq!(w.store_reads, 1);
    assert_eq!(w.store_writes, 0);
    assert_eq!(
        verify_with(&mut w, verify_request(None, Some("123456")), T0),
        Err(AuthError::ValidationError(
            "Email not found in user attributes or client metadata".to_string()
        ))
    );
    assert_eq!(
        verify_with(&mut w, verify_request(Some("a@x.com"), None), T0),
        Err(AuthError::ValidationError("Challenge answer not provided".to_string()))
    );
}

#[test]
fn the_address_may_come_from_the_metadata() {
    let mut meta = StringMap::new();
    meta.insert("email".to_string(), "m@x.com".to_string());
    assert_eq!(request_email(&attrs(None), &Some(meta.clone())), Some("m@x.com".to_string()));
    assert_eq!(
        request_email(&attrs(Some("a@x.com")), &Some(meta.clone())),
        Some("a@x.com".to_string())
    );
    assert_eq!(request_email(&attrs(None), &None), None);
    assert_eq!(request_email(&attrs(None), &Some(StringMap::new())), None);
    let mut w = world();
    let mut request = issue_request("a@x.com");
    request.user_attributes = attrs(None);
    request.client_metadata = meta;
    assert!(issue_with(&mut w, request, "123456", T0).is_ok());
    assert_eq!(w.outbox[0].0, "m@x.com");
}

#[test]
fn an_answer_out_of_turn_ends_the_step() {
    let unexpected = AuthError::InternalError("Unexpected event for this step".to_string());
    let (state, action) = verify_step(VerifyState::Start, VerifyEvent::Deleted(Ok(())));
    assert_eq!(state, VerifyState::Done);
    assert_eq!(action, VerifyAction::Finish(Err(unexpected.clone())));
    let (_, action) = verify_step(VerifyState::Done, VerifyEvent::Deleted(Ok(())));
    assert_eq!(action, VerifyAction::Finish(Err(unexpected.clone())));
    let (state, action) =
        issue_step(IssueState::Start, IssueEvent::Stored(Ok(())), material("123456", T0));
    assert_eq!(state, IssueState::Done);
    assert_eq!(action, IssueAction::Finish(Err(unexpected.clone())));
    let (_, action) =
        issue_step(IssueState::Done, IssueEvent::Stored(Ok(())), material("123456", T0));
    assert_eq!(action, IssueAction::Finish(Err(unexpected)));
}

#[test]
fn a_failed_step_is_still_answered() {
    let failed = handle_create_result(Err(down()));
    assert_eq!(failed.challenge_metadata, "ERROR");
    assert!(failed.public_challenge_parameters.entries.is_empty());
    assert!(failed.private_challenge_parameters.entries.is_empty());
    let mut w = world();
    let ok = issue(&mut w, "a@x.com", "123456", T0).unwrap();
    assert_eq!(handle_create_result(Ok(ok.clone())), ok);
}

#[test]
fn an_account_that_was_confirmed_before_is_confirmed() {
    assert_eq!(confirmation_outcome(None), Ok(()));
    assert_eq!(
        confirmation_outcome(Some(
            "ServiceError(NotAuthorizedException(User cannot be confirmed. Current status is CONFIRMED))"
        )),
        Ok(())
    );
    assert_eq!(
        confirmation_outcome(Some("UserNotFoundException")),
        Err(AuthError::InternalError(
            "Failed to confirm user: UserNotFoundException".to_string()
        ))
    );
}

#[test]
fn the_step_draws_its_own_secret() {
    let (state, action) = issue_next(IssueState::Start, IssueEvent::Request(issue_request("a@x.com")));
    let ctx = match state {
        IssueState::AwaitRateEntries { ctx } => ctx,
        other => panic!("unexpected state {:?}", other),
    };
    assert!(matches!(action, IssueAction::LoadRateEntries { .. }));
    let user = KnownUser {
        user_id: "u".to_string(),
        status: UserStatus::Active,
    };
    let (state, action) =
        issue_next(IssueState::AwaitConfirm { ctx, user }, IssueEvent::Confirmed(Ok(())));
    let secret = match state {
        IssueState::AwaitStore { secret, .. } => secret,
        other => panic!("unexpected state {:?}", other),
    };
    assert!(is_otp_format(&secret));
    match action {
        IssueAction::StoreRecord(record) => {
            assert_eq!(record.otp_hash, hash_otp(&secret));
            assert_eq!(record.expires_at, record.created_at + 300);
            assert_eq!(record.ttl, record.expires_at + 3600);
            assert_eq!(record.challenge_id.len(), 36);
            assert_eq!(record.attempts, 0);
            assert_eq!(record.email, "a@x.com");
        }
        other => panic!("unexpected action {:?}", other),
    }
}

fn challenge(digest: &str) -> OTPRecord {
    OTPRecord {
        email: "a@x.com".to_string(),
        otp_hash: digest.to_string(),
        created_at: 1000,
        expires_at: 1300,
        ttl: 4900,
        challenge_id: "token".to_string(),
        attempts: 0,
    }
}

#[test]
fn a_digest_is_judged_against_the_challenge() {
    let email = || "a@x.com".to_string();
    let consume = (
        VerifyState::AwaitConsume { email: email() },
        VerifyAction::DeleteRecord { email: email() },
    );
    let purge = (VerifyState::AwaitPurge, VerifyAction::DeleteRecord { email: email() });
    let refuse = (VerifyState::Done, VerifyAction::Finish(Ok(false)));
    assert_eq!(judge_record(email(), "d1", Ok(Some(challenge("d1"))), 1000), consume);
    assert_eq!(judge_record(email(), "d1", Ok(Some(challenge("d1"))), 1300), consume);
    assert_eq!(judge_record(email(), "d1", Ok(Some(challenge("d1"))), 1301), purge);
    assert_eq!(judge_record(email(), "d2", Ok(Some(challenge("d1"))), 1301), purge);
    assert_eq!(judge_record(email(), "d1", Ok(Some(challenge("d1"))), 4900), purge);
    assert_eq!(judge_record(email(), "d1", Ok(Some(challenge("d1"))), 4901), refuse);
    assert_eq!(judge_record(email(), "d2", Ok(Some(challenge("d1"))), 1000), refuse);
    assert_eq!(judge_record(email(), "", Ok(Some(challenge("d1"))), 1000), refuse);
    assert_eq!(judge_record(email(), "d1", Ok(None), 1000), refuse);
    assert_eq!(
        judge_record(email(), "d1", Err(down()), 1000),
        (VerifyState::Done, VerifyAction::Finish(Err(down())))
    );
}

#[test]
fn a_challenge_is_minted_around_a_digest() {
    let ctx = IssueContext {
        email: "a@x.com".to_string(),
        user_name: None,
        user_pool_id: None,
    };
    let user = KnownUser { user_id: "u".to_string(), status: UserStatus::Active };
    let (state, action) =
        mint_challenge(ctx.clone(), user.clone(), material("123456", 1000), "d1".to_string());
    assert_eq!(
        state,
        IssueState::AwaitStore {
            ctx,
            user,
            secret: "123456".to_string(),
            challenge_id: "token-1".to_string()
        }
    );
    let mut expected = challenge("d1");
    expected.challenge_id = "token-1".to_string();
    assert_eq!(action, IssueAction::StoreRecord(expected));
}

#[test]
fn a_clock_out_of_range_fails_the_step() {
    let failed = (
        IssueState::Done,
        IssueAction::Finish(Err(AuthError::InternalError(
            "System clock out of range".to_string(),
        ))),
    );
    let start = || IssueEvent::Request(issue_request("a@x.com"));
    for now in [i64::MIN, i64::MIN + 899, i64::MAX - 3899, i64::MAX] {
        assert_eq!(issue_at(IssueState::Start, start(), material("123456", now)), failed);
    }
    // The first and the last time that can be computed with.
    for now in [i64::MIN + 900, i64::MAX - 3900, 0, T0] {
        let (state, action) = issue_at(IssueState::Start, start(), material("123456", now));
        assert!(matches!(state, IssueState::AwaitRateEntries { .. }));
        assert_eq!(
            action,
            IssueAction::LoadRateEntries { email: "a@x.com".to_string(), since: now - 900 }
        );
        assert_eq!(
            issue_step(IssueState::Start, start(), material("123456", now)),
            issue_at(IssueState::Start, start(), material("123456", now))
        );
    }
    // At the last such time the challenge still gets its purge time.
    let ctx = IssueContext { email: "a@x.com".to_string(), user_name: None, user_pool_id: None };
    let user = KnownUser { user_id: "u".to_string(), status: UserStatus::Active };
    let (_, action) = issue_at(
        IssueState::AwaitConfirm { ctx: ctx.clone(), user: user.clone() },
        IssueEvent::Confirmed(Ok(())),
        material("123456", i64::MAX - 3900),
    );
    match action {
        IssueAction::StoreRecord(record) => assert_eq!(record.ttl, i64::MAX),
        other => panic!("unexpected action {:?}", other),
    }
    // Whatever the state, a clock out of range ends the step.
    assert_eq!(
        issue_at(
            IssueState::AwaitConfirm { ctx, user },
            IssueEvent::Confirmed(Ok(())),
            material("123456", i64::MAX - 3899)
        ),
        failed
    );
}
