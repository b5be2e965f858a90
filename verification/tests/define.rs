use otp_auth::define::{
    decide, decision_response, handle_define_challenge, handle_pre_signup, parse_outcome,
    read_session, session_entry, ChallengeDecision, PreSignupResponse, CUSTOM_CHALLENGE,
};
use otp_auth::models::{CognitoSession, DefineChallengeResponse};
use otp_auth::strmap::StringMap;

fn round(name: &str, result: &str) -> CognitoSession {
    CognitoSession { challenge_name: name.to_string(), challenge_result: result.to_string() }
}

#[test]
fn decision_table_all_rows() {
    assert_eq!(decide(false, None), ChallengeDecision::IssueChallenge);
    assert_eq!(decide(false, Some(true)), ChallengeDecision::IssueChallenge);
    assert_eq!(decide(false, Some(false)), ChallengeDecision::IssueChallenge);
    assert_eq!(decide(true, Some(true)), ChallengeDecision::Accept);
    assert_eq!(decide(true, Some(false)), ChallengeDecision::Reject);
    assert_eq!(decide(true, None), ChallengeDecision::Reject);
}

#[test]
fn responses_carry_the_decision() {
    assert_eq!(
        decision_response(ChallengeDecision::IssueChallenge),
        DefineChallengeResponse {
            challenge_name: Some("CUSTOM_CHALLENGE".to_string()),
            issue_tokens: false,
            fail_authentication: false,
        }
    );
    assert_eq!(
        decision_response(ChallengeDecision::Accept),
        DefineChallengeResponse {
            challenge_name: None,
            issue_tokens: true,
            fail_authentication: false
        }
    );
    assert_eq!(
        decision_response(ChallengeDecision::Reject),
        DefineChallengeResponse {
            challenge_name: None,
            issue_tokens: false,
            fail_authentication: true
        }
    );
}

#[test]
fn an_empty_history_issues_a_challenge() {
    let r = handle_define_challenge(&vec![]);
    assert_eq!(r.challenge_name.as_deref(), Some(CUSTOM_CHALLENGE));
    assert!(!r.issue_tokens);
    assert!(!r.fail_authentication);
}

#[test]
fn other_challenges_do_not_count() {
    let session = vec![round("SRP_A", "true"), round("PASSWORD_VERIFIER", "false")];
    assert_eq!(read_session(&session), (false, None));
    let r = handle_define_challenge(&session);
    assert_eq!(r.challenge_name.as_deref(), Some(CUSTOM_CHALLENGE));
}

#[test]
fn a_success_accepts_the_session() {
    let session = vec![round("CUSTOM_CHALLENGE", "true")];
    assert_eq!(read_session(&session), (true, Some(true)));
    let r = handle_define_challenge(&session);
    assert_eq!(r.challenge_name, None);
    assert!(r.issue_tokens);
    assert!(!r.fail_authentication);
}

#[test]
fn a_failure_refuses_the_session() {
    let session = vec![round("CUSTOM_CHALLENGE", "false")];
    assert_eq!(read_session(&session), (true, Some(false)));
    let r = handle_define_challenge(&session);
    assert_eq!(r.challenge_name, None);
    assert!(!r.issue_tokens);
    assert!(r.fail_authentication);
}

#[test]
fn only_the_most_recent_round_counts() {
    let session = vec![
        round("CUSTOM_CHALLENGE", "false"),
        round("CUSTOM_CHALLENGE", "true"),
        round("SRP_A", "false"),
    ];
    assert_eq!(read_session(&session), (true, Some(true)));
    let session = vec![
        round("CUSTOM_CHALLENGE", "true"),
        round("SRP_A", "true"),
        round("CUSTOM_CHALLENGE", "false"),
    ];
    assert_eq!(read_session(&session), (true, Some(false)));
    assert!(handle_define_challenge(&session).fail_authentication);
}

#[test]
fn a_malformed_history_refuses_the_session() {
    // The challenge is reported as having occurred, and no outcome with it.
    let session = vec![round("CUSTOM_CHALLENGE", "")];
    assert_eq!(read_session(&session), (true, None));
    let r = handle_define_challenge(&session);
    assert_eq!(r.challenge_name, None);
    assert!(!r.issue_tokens);
    assert!(r.fail_authentication);
    let session = vec![round("CUSTOM_CHALLENGE", "true"), round("CUSTOM_CHALLENGE", "TRUE")];
    assert!(handle_define_challenge(&session).fail_authentication);
}

#[test]
fn outcomes_are_read_strictly() {
    assert_eq!(parse_outcome("true"), Some(true));
    assert_eq!(parse_outcome("false"), Some(false));
    assert_eq!(parse_outcome("True"), None);
    assert_eq!(parse_outcome(" true"), None);
    assert_eq!(parse_outcome(""), None);
    assert_eq!(parse_outcome("1"), None);
}

#[test]
fn deciding_twice_gives_the_same_answer() {
    let session = vec![round("CUSTOM_CHALLENGE", "false"), round("CUSTOM_CHALLENGE", "true")];
    assert_eq!(handle_define_challenge(&session), handle_define_challenge(&session));
}

#[test]
fn pre_signup_confirms_a_user_with_an_address() {
    let mut attrs = StringMap::new();
    assert_eq!(handle_pre_signup(&attrs), None);
    attrs.insert("name".to_string(), "x".to_string());
    assert_eq!(handle_pre_signup(&attrs), None);
    attrs.insert("email".to_string(), "a@x.com".to_string());
    assert_eq!(
        handle_pre_signup(&attrs),
        Some(PreSignupResponse { auto_confirm_user: true, auto_verify_email: false })
    );
}

#[test]
fn reported_rounds_become_entries() {
    assert_eq!(
        session_entry(Some("CUSTOM_CHALLENGE".to_string()), true),
        round("CUSTOM_CHALLENGE", "true")
    );
    assert_eq!(session_entry(None, false), round("", "false"));
    let session = vec![session_entry(None, true), session_entry(Some("X".to_string()), true)];
    assert_eq!(read_session(&session), (false, None));
}
