//! The delivery of secrets and welcomes by mail: what is written to the
//! user, and what the answer of the mail service means for the step that
//! asked.

use vstd::prelude::*;
use vstd::string::*;
use crate::errors::{AuthError, AuthErrorView, NotificationError};
use crate::notifications::models::EmailResponse;
use crate::text::{concat3, opt_view};

verus! {

/// The subject of the mail that carries a secret.
pub const OTP_SUBJECT: &'static str = "Your Appreciata Login Code";

/// The plain text of the mail that carries a secret, before the secret.
pub const OTP_TEXT_HEAD: &'static str = "Your login code is: ";

/// The plain text of the mail that carries a secret, after the secret.
pub const OTP_TEXT_TAIL: &'static str =
    "\n\nThis code will expire in 5 minutes.\n\nIf you didn't request this code, please ignore this email.";

/// The HTML text of the mail that carries a secret, before the secret.
pub const OTP_HTML_HEAD: &'static str =
    "\n            <html>\n            <body>\n                <h2>Your Appreciata Login Code</h2>\n                <p>Your login code is:</p>\n                <h1 style=\"font-family: monospace; font-size: 32px; color: #2563eb; letter-spacing: 4px;\">";

/// The HTML text of the mail that carries a secret, after the secret.
pub const OTP_HTML_TAIL: &'static str =
    "</h1>\n                <p>This code will expire in <strong>5 minutes</strong>.</p>\n                <p>If you didn't request this code, please ignore this email.</p>\n                <hr>\n                <p style=\"color: #666; font-size: 12px;\">\n                    This is an automated message from Appreciata. Please do not reply to this email.\n                </p>\n            </body>\n            </html>\n            ";

/// The subject of the mail that welcomes a new user.
pub const WELCOME_SUBJECT: &'static str = "Welcome to Appreciata!";

/// The text of the mail that welcomes a new user, before the name.
pub const WELCOME_TEXT_HEAD: &'static str = "Hi ";

/// The text of the mail that welcomes a new user, after the name.
pub const WELCOME_TEXT_TAIL: &'static str =
    ",\n\nWelcome to Appreciata! Your account has been created successfully.\n\nNext steps:\n1. Complete your profile information\n2. Set up your Stripe Express account\n3. Wait for admin approval\n\nOnce approved, you'll be able to accept payments from your supporters.\n\nBest regards,\nThe Appreciata Team";

/// The character set in which every part of a mail is written.
pub const CHARSET: &'static str = "UTF-8";

/// The reason that is given where the mail service gives none.
pub const UNKNOWN_SES_ERROR: &'static str = "Unknown SES error";

/// What a mail says: its subject, its plain text and, where it has one, its
/// HTML text.
#[derive(Debug, Clone, PartialEq, Eq)]
pub struct EmailContent {
    pub subject: String,
    pub body_text: String,
    pub body_html: Option<String>,
}

/// What an [`EmailContent`] holds, as plain values.
pub struct EmailContentView {
    pub subject: Seq<char>,
    pub body_text: Seq<char>,
    pub body_html: Option<Seq<char>>,
}

impl View for EmailContent {
    type V = EmailContentView;

    open spec fn view(&self) -> EmailContentView {
        EmailContentView {
            subject: self.subject@,
            body_text: self.body_text@,
            body_html: opt_view(self.body_html),
        }
    }
}

/// The mail that carries the secret `otp`.
pub open spec fn otp_content(otp: Seq<char>) -> EmailContentView {
    EmailContentView {
        subject: OTP_SUBJECT@,
        body_text: OTP_TEXT_HEAD@ + otp + OTP_TEXT_TAIL@,
        body_html: Some(OTP_HTML_HEAD@ + otp + OTP_HTML_TAIL@),
    }
}

/// The mail that welcomes the user `user_name`.
pub open spec fn welcome_content(user_name: Seq<char>) -> EmailContentView {
    EmailContentView {
        subject: WELCOME_SUBJECT@,
        body_text: WELCOME_TEXT_HEAD@ + user_name + WELCOME_TEXT_TAIL@,
        body_html: None,
    }
}

/// What the answer to a request for a mail means for the step that asked:
/// the mail was sent, or the delivery failed, with the reason.
pub open spec fn delivery_spec(sent: Result<EmailResponse, NotificationError>) -> Result<
    (),
    AuthErrorView,
> {
    match sent {
        Err(e) => Err(AuthErrorView::EmailDeliveryFailed(e@.text())),
        Ok(response) => if response.success {
            Ok(())
        } else {
            Err(
                AuthErrorView::EmailDeliveryFailed(
                    match response.error {
                        Some(why) => why@,
                        None => UNKNOWN_SES_ERROR@,
                    },
                ),
            )
        },
    }
}

/// The mail that carries a secret.
pub fn otp_email(otp: &str) -> (r: EmailContent)
    ensures
        r@ == otp_content(otp@),
{
    EmailContent {
        subject: String::from_str(OTP_SUBJECT),
        body_text: concat3(OTP_TEXT_HEAD, otp, OTP_TEXT_TAIL),
        body_html: Some(concat3(OTP_HTML_HEAD, otp, OTP_HTML_TAIL)),
    }
}

/// The mail that welcomes a new user.
pub fn welcome_email(user_name: &str) -> (r: EmailContent)
    ensures
        r@ == welcome_content(user_name@),
{
    EmailContent {
        subject: String::from_str(WELCOME_SUBJECT),
        body_text: concat3(WELCOME_TEXT_HEAD, user_name, WELCOME_TEXT_TAIL),
        body_html: None,
    }
}

/// What the answer to a request for a mail means for the step that asked.
/// A mail that was not sent is a failed delivery, whether the request failed
/// or the mail service refused the message.
pub fn delivery_result(sent: Result<EmailResponse, NotificationError>) -> (r: Result<(), AuthError>)
    ensures
        match delivery_spec(sent) {
            Ok(_) => r is Ok,
            Err(e) => r matches Err(got) && got@ == e,
        },
{
    match sent {
        Err(e) => Err(AuthError::EmailDeliveryFailed(e.to_string())),
        Ok(response) => {
            if response.success {
                Ok(())
            } else {
                let why = match response.error {
                    Some(why) => why,
                    None => String::from_str(UNKNOWN_SES_ERROR),
                };
                Err(AuthError::EmailDeliveryFailed(why))
            }
        },
    }
}

} // verus!
