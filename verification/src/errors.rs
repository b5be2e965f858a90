//! The failures of the authentication steps and of the notification
//! services, each with the message it renders to.

use vstd::prelude::*;
use vstd::string::*;
use crate::text::concat2;

verus! {

/// A failure of an authentication step.
#[derive(Debug, PartialEq, Eq)]
pub enum AuthError {
    RateLimitExceeded(String),
    InvalidOTP(String),
    OTPExpired,
    UserNotFound(String),
    EmailDeliveryFailed(String),
    DynamoDBError(String),
    SESError(String),
    ValidationError(String),
    InternalError(String),
}

/// The result of an authentication step.
pub type AuthResult<T> = Result<T, AuthError>;

/// What an [`AuthError`] holds, as plain values.
pub enum AuthErrorView {
    RateLimitExceeded(Seq<char>),
    InvalidOTP(Seq<char>),
    OTPExpired,
    UserNotFound(Seq<char>),
    EmailDeliveryFailed(Seq<char>),
    DynamoDBError(Seq<char>),
    SESError(Seq<char>),
    ValidationError(Seq<char>),
    InternalError(Seq<char>),
}

impl AuthErrorView {
    /// The message that the failure renders to.
    pub open spec fn text(self) -> Seq<char> {
        match self {
            AuthErrorView::RateLimitExceeded(m) => "Rate limit exceeded: "@ + m,
            AuthErrorView::InvalidOTP(m) => "Invalid OTP: "@ + m,
            AuthErrorView::OTPExpired => "OTP expired"@,
            AuthErrorView::UserNotFound(m) => "User not found: "@ + m,
            AuthErrorView::EmailDeliveryFailed(m) => "Email delivery failed: "@ + m,
            AuthErrorView::DynamoDBError(m) => "DynamoDB error: "@ + m,
            AuthErrorView::SESError(m) => "SES error: "@ + m,
            AuthErrorView::ValidationError(m) => "Validation error: "@ + m,
            AuthErrorView::InternalError(m) => "Internal error: "@ + m,
        }
    }
}

impl View for AuthError {
    type V = AuthErrorView;

    open spec fn view(&self) -> AuthErrorView {
        match *self {
            AuthError::RateLimitExceeded(m) => AuthErrorView::RateLimitExceeded(m@),
            AuthError::InvalidOTP(m) => AuthErrorView::InvalidOTP(m@),
            AuthError::OTPExpired => AuthErrorView::OTPExpired,
            AuthError::UserNotFound(m) => AuthErrorView::UserNotFound(m@),
            AuthError::EmailDeliveryFailed(m) => AuthErrorView::EmailDeliveryFailed(m@),
            AuthError::DynamoDBError(m) => AuthErrorView::DynamoDBError(m@),
            AuthError::SESError(m) => AuthErrorView::SESError(m@),
            AuthError::ValidationError(m) => AuthErrorView::ValidationError(m@),
            AuthError::InternalError(m) => AuthErrorView::InternalError(m@),
        }
    }
}

impl Clone for AuthError {
    fn clone(&self) -> (r: Self)
        ensures
            r@ == self@,
    {
        match self {
            AuthError::RateLimitExceeded(m) => AuthError::RateLimitExceeded(m.clone()),
            AuthError::InvalidOTP(m) => AuthError::InvalidOTP(m.clone()),
            AuthError::OTPExpired => AuthError::OTPExpired,
            AuthError::UserNotFound(m) => AuthError::UserNotFound(m.clone()),
            AuthError::EmailDeliveryFailed(m) => AuthError::EmailDeliveryFailed(m.clone()),
            AuthError::DynamoDBError(m) => AuthError::DynamoDBError(m.clone()),
            AuthError::SESError(m) => AuthError::SESError(m.clone()),
            AuthError::ValidationError(m) => AuthError::ValidationError(m.clone()),
            AuthError::InternalError(m) => AuthError::InternalError(m.clone()),
        }
    }
}

impl AuthError {
    /// The message that the failure renders to.
    pub fn to_string(&self) -> (r: String)
        ensures
            r@ == self@.text(),
    {
        match self {
            AuthError::RateLimitExceeded(m) => concat2("Rate limit exceeded: ", m.as_str()),
            AuthError::InvalidOTP(m) => concat2("Invalid OTP: ", m.as_str()),
            AuthError::OTPExpired => String::from_str("OTP expired"),
            AuthError::UserNotFound(m) => concat2("User not found: ", m.as_str()),
            AuthError::EmailDeliveryFailed(m) => concat2("Email delivery failed: ", m.as_str()),
            AuthError::DynamoDBError(m) => concat2("DynamoDB error: ", m.as_str()),
            AuthError::SESError(m) => concat2("SES error: ", m.as_str()),
            AuthError::ValidationError(m) => concat2("Validation error: ", m.as_str()),
            AuthError::InternalError(m) => concat2("Internal error: ", m.as_str()),
        }
    }
}

/// A failure of a notification service.
#[derive(Debug, PartialEq, Eq)]
pub enum NotificationError {
    EmailDeliveryFailed(String),
    InvalidTemplate(String),
    InvalidRecipient(String),
    SQSError(String),
    SESError(String),
    SerializationError(String),
    ConfigurationError(String),
    RateLimitExceeded(String),
    InternalError(String),
}

/// The result of a notification service.
pub type NotificationResult<T> = Result<T, NotificationError>;

/// What a [`NotificationError`] holds, as plain values.
pub enum NotificationErrorView {
    EmailDeliveryFailed(Seq<char>),
    InvalidTemplate(Seq<char>),
    InvalidRecipient(Seq<char>),
    SQSError(Seq<char>),
    SESError(Seq<char>),
    SerializationError(Seq<char>),
    ConfigurationError(Seq<char>),
    RateLimitExceeded(Seq<char>),
    InternalError(Seq<char>),
}

impl NotificationErrorView {
    /// The message that the failure renders to.
    pub open spec fn text(self) -> Seq<char> {
        match self {
            NotificationErrorView::EmailDeliveryFailed(m) => "Email delivery failed: "@ + m,
            NotificationErrorView::InvalidTemplate(m) => "Invalid template: "@ + m,
            NotificationErrorView::InvalidRecipient(m) => "Invalid recipient: "@ + m,
            NotificationErrorView::SQSError(m) => "SQS error: "@ + m,
            NotificationErrorView::SESError(m) => "SES error: "@ + m,
            NotificationErrorView::SerializationError(m) => "Serialization error: "@ + m,
            NotificationErrorView::ConfigurationError(m) => "Configuration error: "@ + m,
            NotificationErrorView::RateLimitExceeded(m) => "Rate limit exceeded: "@ + m,
            NotificationErrorView::InternalError(m) => "Internal error: "@ + m,
        }
    }
}

impl View for NotificationError {
    type V = NotificationErrorView;

    open spec fn view(&self) -> NotificationErrorView {
        match *self {
            NotificationError::EmailDeliveryFailed(m) => NotificationErrorView::EmailDeliveryFailed(
                m@,
            ),
            NotificationError::InvalidTemplate(m) => NotificationErrorView::InvalidTemplate(m@),
            NotificationError::InvalidRecipient(m) => NotificationErrorView::InvalidRecipient(m@),
            NotificationError::SQSError(m) => NotificationErrorView::SQSError(m@),
            NotificationError::SESError(m) => NotificationErrorView::SESError(m@),
            NotificationError::SerializationError(m) => NotificationErrorView::SerializationError(
                m@,
            ),
            NotificationError::ConfigurationError(m) => NotificationErrorView::ConfigurationError(
                m@,
            ),
            NotificationError::RateLimitExceeded(m) => NotificationErrorView::RateLimitExceeded(m@),
            NotificationError::InternalError(m) => NotificationErrorView::InternalError(m@),
        }
    }
}

impl Clone for NotificationError {
    fn clone(&self) -> (r: Self)
        ensures
            r@ == self@,
    {
        match self {
            NotificationError::EmailDeliveryFailed(m) => NotificationError::EmailDeliveryFailed(
                m.clone(),
            ),
            NotificationError::InvalidTemplate(m) => NotificationError::InvalidTemplate(m.clone()),
            NotificationError::InvalidRecipient(m) => NotificationError::InvalidRecipient(
                m.clone(),
            ),
            NotificationError::SQSError(m) => NotificationError::SQSError(m.clone()),
            NotificationError::SESError(m) => NotificationError::SESError(m.clone()),
            NotificationError::SerializationError(m) => NotificationError::SerializationError(
                m.clone(),
            ),
            NotificationError::ConfigurationError(m) => NotificationError::ConfigurationError(
                m.clone(),
            ),
            NotificationError::RateLimitExceeded(m) => NotificationError::RateLimitExceeded(
                m.clone(),
            ),
            NotificationError::InternalError(m) => NotificationError::InternalError(m.clone()),
        }
    }
}

impl NotificationError {
    /// The message that the failure renders to.
    pub fn to_string(&self) -> (r: String)
        ensures
            r@ == self@.text(),
    {
        match self {
            NotificationError::EmailDeliveryFailed(m) => concat2(
                "Email delivery failed: ",
                m.as_str(),
            ),
            NotificationError::InvalidTemplate(m) => concat2("Invalid template: ", m.as_str()),
            NotificationError::InvalidRecipient(m) => concat2("Invalid recipient: ", m.as_str()),
            NotificationError::SQSError(m) => concat2("SQS error: ", m.as_str()),
            NotificationError::SESError(m) => concat2("SES error: ", m.as_str()),
            NotificationError::SerializationError(m) => concat2(
                "Serialization error: ",
                m.as_str(),
            ),
            NotificationError::ConfigurationError(m) => concat2(
                "Configuration error: ",
                m.as_str(),
            ),
            NotificationError::RateLimitExceeded(m) => concat2("Rate limit exceeded: ", m.as_str()),
            NotificationError::InternalError(m) => concat2("Internal error: ", m.as_str()),
        }
    }
}

} // verus!
