//! The challenge orchestrator: before every round of a login attempt it
//! reads what the earlier rounds came to and decides whether to present a
//! challenge, to accept the session or to refuse it. It touches no store, and
//! the same history always gives the same answer.

use vstd::prelude::*;
use vstd::string::*;
use crate::models::{CognitoSession, DefineChallengeResponse, DefineChallengeResponseView};
use crate::strmap::StringMap;
use crate::text::str_eq;

verus! {

/// The kind of challenge that this system presents.
pub const CUSTOM_CHALLENGE: &'static str = "CUSTOM_CHALLENGE";

/// What the orchestrator may decide.
#[derive(Debug, Clone, Copy, PartialEq, Eq, Structural)]
pub enum ChallengeDecision {
    /// Present a new challenge.
    IssueChallenge,
    /// Accept the session and issue tokens.
    Accept,
    /// Refuse the session.
    Reject,
}

/// The decision table. Without an earlier challenge of this kind one is
/// issued; after one that succeeded the session is accepted; after one that
/// failed, or one of which no outcome is known, the session is refused.
pub open spec fn decide_spec(has_ever_issued: bool, most_recent: Option<bool>) -> ChallengeDecision {
    if !has_ever_issued {
        ChallengeDecision::IssueChallenge
    } else {
        match most_recent {
            Some(true) => ChallengeDecision::Accept,
            Some(false) => ChallengeDecision::Reject,
            None => ChallengeDecision::Reject,
        }
    }
}

/// Tells whether an entry of the history speaks of a challenge of this kind.
pub open spec fn is_custom(entry: CognitoSession) -> bool {
    entry.challenge_name@ == CUSTOM_CHALLENGE@
}

/// Tells whether a challenge of this kind was ever presented in the attempt.
pub open spec fn has_custom_challenge(session: Seq<CognitoSession>) -> bool {
    exists|i: int| 0 <= i < session.len() && is_custom(#[trigger] session[i])
}

/// The outcome that an entry reports: `true` or `false` where it says so, and
/// none for any other text.
pub open spec fn outcome_of(text: Seq<char>) -> Option<bool> {
    if text == "true"@ {
        Some(true)
    } else if text == "false"@ {
        Some(false)
    } else {
        None
    }
}

/// The outcome of the most recent challenge of this kind: that of the last
/// entry that speaks of one.
pub open spec fn last_custom_result(session: Seq<CognitoSession>) -> Option<bool>
    decreases session.len(),
{
    if session.len() == 0 {
        None
    } else if is_custom(session.last()) {
        outcome_of(session.last().challenge_result@)
    } else {
        last_custom_result(session.drop_last())
    }
}

/// The decision that a history leads to.
pub open spec fn session_decision(session: Seq<CognitoSession>) -> ChallengeDecision {
    decide_spec(has_custom_challenge(session), last_custom_result(session))
}

/// The answer that carries a decision to the identity provider.
pub open spec fn response_of(decision: ChallengeDecision) -> DefineChallengeResponseView {
    match decision {
        ChallengeDecision::IssueChallenge => DefineChallengeResponseView {
            challenge_name: Some(CUSTOM_CHALLENGE@),
            issue_tokens: false,
            fail_authentication: false,
        },
        ChallengeDecision::Accept => DefineChallengeResponseView {
            challenge_name: None,
            issue_tokens: true,
            fail_authentication: false,
        },
        ChallengeDecision::Reject => DefineChallengeResponseView {
            challenge_name: None,
            issue_tokens: false,
            fail_authentication: true,
        },
    }
}

/// Decides the next action from whether a challenge of this kind was ever
/// presented and from the outcome of the most recent one.
pub fn decide(has_ever_issued: bool, most_recent: Option<bool>) -> (r: ChallengeDecision)
    ensures
        r == decide_spec(has_ever_issued, most_recent),
        !has_ever_issued ==> r == ChallengeDecision::IssueChallenge,
        has_ever_issued && most_recent == Some(true) ==> r == ChallengeDecision::Accept,
        has_ever_issued && most_recent == Some(false) ==> r == ChallengeDecision::Reject,
        has_ever_issued && most_recent is None ==> r == ChallengeDecision::Reject,
{
    if !has_ever_issued {
        ChallengeDecision::IssueChallenge
    } else {
        match most_recent {
            Some(true) => ChallengeDecision::Accept,
            _ => ChallengeDecision::Reject,
        }
    }
}

/// Reads the outcome that an entry reports.
pub fn parse_outcome(text: &str) -> (r: Option<bool>)
    ensures
        r == outcome_of(text@),
{
    if str_eq(text, "true") {
        Some(true)
    } else if str_eq(text, "false") {
        Some(false)
    } else {
        None
    }
}

/// Where no entry from `from` on speaks of a challenge of this kind, the
/// most recent outcome is that of the entries before `from`.
proof fn lemma_skip_tail(session: Seq<CognitoSession>, from: int)
    requires
        0 <= from <= session.len(),
        forall|j: int| from <= j < session.len() ==> !is_custom(#[trigger] session[j]),
    ensures
        last_custom_result(session) == last_custom_result(session.take(from)),
    decreases session.len() - from,
{
    if from < session.len() {
        let front = session.drop_last();
        assert(!is_custom(session[session.len() - 1]));
        assert forall|j: int| from <= j < front.len() implies !is_custom(#[trigger] front[j]) by {
            assert(front[j] == session[j]);
        }
        lemma_skip_tail(front, from);
        assert(front.take(from) =~= session.take(from));
    } else {
        assert(session.take(from) =~= session);
    }
}

/// An entry of the history from what the identity provider reports of a
/// round: the kind of challenge, where it names one, and the outcome.
pub fn session_entry(challenge_name: Option<String>, challenge_result: bool) -> (r: CognitoSession)
    ensures
        r.challenge_name@ == match challenge_name {
            Some(n) => n@,
            None => Seq::<char>::empty(),
        },
        r.challenge_result@ == if challenge_result {
            "true"@
        } else {
            "false"@
        },
        outcome_of(r.challenge_result@) == Some(challenge_result),
{
    proof {
        reveal_strlit("true");
        reveal_strlit("false");
        assert("true"@.len() != "false"@.len());
    }
    CognitoSession {
        challenge_name: match challenge_name {
            Some(n) => n,
            None => String::new(),
        },
        challenge_result: if challenge_result {
            String::from_str("true")
        } else {
            String::from_str("false")
        },
    }
}

/// Reads the history of a login attempt: whether a challenge of this kind was
/// ever presented, and the outcome of the most recent one.
pub fn read_session(session: &Vec<CognitoSession>) -> (r: (bool, Option<bool>))
    ensures
        r.0 == has_custom_challenge(session@),
        r.1 == last_custom_result(session@),
{
    let mut i: usize = session.len();
    while i > 0
        invariant
            i <= session.len(),
            forall|j: int| i <= j < session.len() ==> !is_custom(#[trigger] session@[j]),
        decreases i,
    {
        i -= 1;
        if str_eq(session[i].challenge_name.as_str(), CUSTOM_CHALLENGE) {
            let outcome = parse_outcome(session[i].challenge_result.as_str());
            proof {
                lemma_skip_tail(session@, i + 1);
                assert(session@.take(i + 1).last() == session@[i as int]);
                assert(is_custom(session@[i as int]));
            }
            return (true, outcome);
        }
    }
    proof {
        lemma_skip_tail(session@, 0);
        assert(session@.take(0).len() == 0);
    }
    (false, None)
}

/// The answer that carries a decision to the identity provider.
pub fn decision_response(decision: ChallengeDecision) -> (r: DefineChallengeResponse)
    ensures
        r@ == response_of(decision),
{
    match decision {
        ChallengeDecision::IssueChallenge => DefineChallengeResponse {
            challenge_name: Some(String::from_str(CUSTOM_CHALLENGE)),
            issue_tokens: false,
            fail_authentication: false,
        },
        ChallengeDecision::Accept => DefineChallengeResponse {
            challenge_name: None,
            issue_tokens: true,
            fail_authentication: false,
        },
        ChallengeDecision::Reject => DefineChallengeResponse {
            challenge_name: None,
            issue_tokens: false,
            fail_authentication: true,
        },
    }
}

/// The deciding step of a login attempt: from the history of the attempt to
/// the answer for the identity provider.
pub fn handle_define_challenge(session: &Vec<CognitoSession>) -> (r: DefineChallengeResponse)
    ensures
        r@ == response_of(session_decision(session@)),
{
    let (has_ever_issued, most_recent) = read_session(session);
    decision_response(decide(has_ever_issued, most_recent))
}

/// The answer to a new user who signs up.
#[derive(Debug, Clone, Copy, PartialEq, Eq, Structural)]
pub struct PreSignupResponse {
    pub auto_confirm_user: bool,
    pub auto_verify_email: bool,
}

/// The step before sign-up. A user who has an address is confirmed at once,
/// so that the login attempt can go on; the address itself stays unverified
/// until a challenge is answered. Without an address nothing is changed, and
/// `None` says so.
pub fn handle_pre_signup(user_attributes: &StringMap) -> (r: Option<PreSignupResponse>)
    ensures
        r == if user_attributes@.contains_key("email"@) {
            Some(PreSignupResponse { auto_confirm_user: true, auto_verify_email: false })
        } else {
            None::<PreSignupResponse>
        },
{
    if user_attributes.contains_key("email") {
        Some(PreSignupResponse { auto_confirm_user: true, auto_verify_email: false })
    } else {
        None
    }
}

/// After a challenge that succeeded the session is accepted, whatever came
/// before it; after one that did not, it is refused.
pub proof fn lemma_last_round_decides(history: Seq<CognitoSession>, last: CognitoSession)
    requires
        is_custom(last),
    ensures
        last.challenge_result@ == "true"@ ==> session_decision(history.push(last))
            == ChallengeDecision::Accept,
        last.challenge_result@ != "true"@ ==> session_decision(history.push(last))
            == ChallengeDecision::Reject,
{
    let s = history.push(last);
    assert(s.last() == last);
    assert(is_custom(s[s.len() - 1]));
    reveal_strlit("true");
    reveal_strlit("false");
}

/// A history that never speaks of a challenge of this kind leads to one being
/// issued.
pub proof fn lemma_first_round_issues(session: Seq<CognitoSession>)
    requires
        forall|i: int| 0 <= i < session.len() ==> !is_custom(#[trigger] session[i]),
    ensures
        session_decision(session) == ChallengeDecision::IssueChallenge,
{
}

} // verus!
