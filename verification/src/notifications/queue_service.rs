//! The queue in front of the mail service: what goes with a message, and
//! which batches the queue takes.

use vstd::prelude::*;
use vstd::string::*;
use crate::errors::{NotificationError, NotificationErrorView};
use crate::notifications::models::EmailRequest;
use crate::text::{concat2, decimal, u64_to_string};

verus! {

/// The most messages that the queue takes in one batch.
pub const MAX_BATCH_SIZE: usize = 10;

/// The message of the failure when a batch is too large.
pub const BATCH_TOO_LARGE: &'static str = "SQS batch size cannot exceed 10 messages";

/// The message of the failure when the queue took a message and gave it no
/// identifier.
pub const NO_MESSAGE_ID: &'static str = "No message ID returned";

/// What goes with a queued message, each as a text: the rank of its priority
/// and the base name of its template.
#[derive(Debug, Clone, PartialEq, Eq)]
pub struct MessageAttributes {
    pub priority: String,
    pub template_type: String,
}

/// One message of a batch: its identifier within the batch, and what goes
/// with it.
#[derive(Debug, Clone, PartialEq, Eq)]
pub struct BatchEntry {
    pub id: String,
    pub attributes: MessageAttributes,
}

/// The identifier of the message at place `i` of a batch.
pub open spec fn batch_id(i: nat) -> Seq<char> {
    "msg_"@ + decimal(i)
}

/// Tells whether `entry` is the entry of a batch for the request at place
/// `i`.
pub open spec fn is_entry_for(entry: BatchEntry, request: EmailRequest, i: nat) -> bool {
    &&& entry.id@ == batch_id(i)
    &&& entry.attributes.priority@ == request.priority.queue_rank()
    &&& entry.attributes.template_type@ == request.template_name@
}

/// What goes with the message of a request.
pub fn message_attributes(request: &EmailRequest) -> (r: MessageAttributes)
    ensures
        r.priority@ == request.priority.queue_rank(),
        r.template_type@ == request.template_name@,
{
    MessageAttributes {
        priority: String::from_str(request.priority.queue_value()),
        template_type: request.template_name.clone(),
    }
}

/// The identifier under which a message was queued. A queue that took the
/// message and gave it no identifier has failed.
pub fn queued_message_id(message_id: Option<String>) -> (r: Result<String, NotificationError>)
    ensures
        match message_id {
            Some(id) => r matches Ok(got) && got@ == id@,
            None => r matches Err(e) && e@ == NotificationErrorView::SQSError(NO_MESSAGE_ID@),
        },
{
    match message_id {
        Some(id) => Ok(id),
        None => Err(NotificationError::SQSError(String::from_str(NO_MESSAGE_ID))),
    }
}

/// The entries of a batch, one for each request and in their order. A batch
/// of more than ten requests is refused; an empty batch has no entries, and
/// nothing is to be sent for it.
pub fn batch_entries(requests: &Vec<EmailRequest>) -> (r: Result<
    Vec<BatchEntry>,
    NotificationError,
>)
    ensures
        requests@.len() > 10 ==> (r matches Err(e) && e@
            == NotificationErrorView::ConfigurationError(BATCH_TOO_LARGE@)),
        requests@.len() <= 10 ==> (r matches Ok(entries) && entries@.len() == requests@.len()
            && forall|i: int|
            0 <= i < requests@.len() ==> is_entry_for(
                #[trigger] entries@[i],
                requests@[i],
                i as nat,
            )),
{
    if requests.len() > MAX_BATCH_SIZE {
        return Err(NotificationError::ConfigurationError(String::from_str(BATCH_TOO_LARGE)));
    }
    let mut entries: Vec<BatchEntry> = Vec::new();
    let mut i: usize = 0;
    while i < requests.len()
        invariant
            i <= requests.len(),
            requests.len() <= 10,
            entries@.len() == i,
            forall|j: int|
                0 <= j < i ==> is_entry_for(#[trigger] entries@[j], requests@[j], j as nat),
        decreases requests.len() - i,
    {
        let number = u64_to_string(i as u64);
        let entry = BatchEntry {
            id: concat2("msg_", number.as_str()),
            attributes: message_attributes(&requests[i]),
        };
        entries.push(entry);
        i += 1;
    }
    Ok(entries)
}

} // verus!
