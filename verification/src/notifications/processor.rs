//! The worker behind the queue: it takes the queued requests one by one and
//! has them sent. What is decided here: what a queued record is worth, and
//! what the answer of the mail service means for the record.

use vstd::prelude::*;
use vstd::string::*;
use crate::errors::{NotificationError, NotificationErrorView};
use crate::notifications::models::{EmailRequest, EmailResponse};
use crate::ses_service::UNKNOWN_SES_ERROR;

verus! {

/// The sender in whose name the worker writes where none is configured.
pub const DEFAULT_FROM_EMAIL: &'static str = "noreply@appreciata.com";

/// The message of the failure when a queued record has no body.
pub const EMPTY_BODY: &'static str = "SQS message body is empty";

/// The sender in whose name the worker writes.
pub fn from_email_or_default(configured: Option<String>) -> (r: String)
    ensures
        r@ == match configured {
            Some(from) => from@,
            None => DEFAULT_FROM_EMAIL@,
        },
{
    match configured {
        Some(from) => from,
        None => String::from_str(DEFAULT_FROM_EMAIL),
    }
}

/// The body of a queued record. A record without a body holds no request.
pub fn record_body(body: Option<String>) -> (r: Result<String, NotificationError>)
    ensures
        match body {
            Some(b) => r matches Ok(got) && got@ == b@,
            None => r matches Err(e) && e@ == NotificationErrorView::SerializationError(
                EMPTY_BODY@,
            ),
        },
{
    match body {
        Some(b) => Ok(b),
        None => Err(NotificationError::SerializationError(String::from_str(EMPTY_BODY))),
    }
}

/// The failure of a body that is no request: the reason and the body itself.
pub open spec fn unreadable_body(reason: Seq<char>, body: Seq<char>) -> NotificationErrorView {
    NotificationErrorView::SerializationError(
        "Failed to parse email request: "@ + reason + " | Body: "@ + body,
    )
}

/// The failure of a body that is no request.
pub fn parse_failure(reason: &str, body: &str) -> (r: NotificationError)
    ensures
        r@ == unreadable_body(reason@, body@),
{
    let mut text = String::from_str("Failed to parse email request: ");
    text.append(reason);
    text.append(" | Body: ");
    text.append(body);
    NotificationError::SerializationError(text)
}

/// The failure of a mail that the mail service refused.
pub open spec fn refused_mail(request: EmailRequest, response: EmailResponse) -> NotificationErrorView {
    NotificationErrorView::EmailDeliveryFailed(
        "SES error for template '"@ + request.template_name@ + "' to '"@ + request.recipient@
            + "': "@ + match response.error {
            Some(why) => why@,
            None => UNKNOWN_SES_ERROR@,
        },
    )
}

/// What the answer of the mail service means for a queued record: the
/// record is done, or it has failed and is to be tried again.
pub fn record_outcome(request: &EmailRequest, response: &EmailResponse) -> (r: Result<
    (),
    NotificationError,
>)
    ensures
        response.success ==> r is Ok,
        !response.success ==> (r matches Err(e) && e@ == refused_mail(*request, *response)),
{
    if response.success {
        return Ok(());
    }
    let mut text = String::from_str("SES error for template '");
    text.append(request.template_name.as_str());
    text.append("' to '");
    text.append(request.recipient.as_str());
    text.append("': ");
    match &response.error {
        Some(why) => {
            text.append(why.as_str());
        },
        None => {
            text.append(UNKNOWN_SES_ERROR);
        },
    }
    Err(NotificationError::EmailDeliveryFailed(text))
}

/// How a batch of queued records went.
#[derive(Debug, Clone, Copy, PartialEq, Eq, Structural)]
pub struct Tally {
    pub successful: usize,
    pub failed: usize,
}

/// The number of the records that were done.
pub open spec fn done_count(outcomes: Seq<bool>) -> nat
    decreases outcomes.len(),
{
    if outcomes.len() == 0 {
        0
    } else {
        done_count(outcomes.drop_last()) + if outcomes.last() {
            1nat
        } else {
            0nat
        }
    }
}

/// No more records were done than there are.
pub proof fn lemma_done_count_bounded(outcomes: Seq<bool>)
    ensures
        done_count(outcomes) <= outcomes.len(),
    decreases outcomes.len(),
{
    if outcomes.len() > 0 {
        lemma_done_count_bounded(outcomes.drop_last());
    }
}

/// Counts how a batch of queued records went: `true` stands for a record
/// that was done. One record that failed does not keep the others from being
/// done; every record is counted once.
pub fn tally_outcomes(outcomes: &Vec<bool>) -> (r: Tally)
    ensures
        r.successful == done_count(outcomes@),
        r.successful + r.failed == outcomes@.len(),
{
    let mut tally = Tally { successful: 0, failed: 0 };
    let mut i: usize = 0;
    while i < outcomes.len()
        invariant
            i <= outcomes.len(),
            tally.successful == done_count(outcomes@.take(i as int)),
            tally.successful + tally.failed == i,
        decreases outcomes.len() - i,
    {
        proof {
            assert(outcomes@.take(i + 1).drop_last() =~= outcomes@.take(i as int));
        }
        if outcomes[i] {
            tally.successful += 1;
        } else {
            tally.failed += 1;
        }
        i += 1;
    }
    proof {
        assert(outcomes@.take(i as int) =~= outcomes@);
    }
    tally
}

} // verus!
