//! Requests for templated mail and the answers to them.

use vstd::prelude::*;
use vstd::string::*;
use crate::strmap::StringMap;
use crate::text::{clone_opt, opt_view};

verus! {

/// How urgent a mail is.
#[derive(Debug, Clone, Copy, PartialEq, Eq, Structural)]
pub enum EmailPriority {
    /// Secrets and the like.
    High,
    /// Welcomes and reminders.
    Normal,
    /// Newsletters.
    Low,
}

impl Default for EmailPriority {
    fn default() -> (r: Self)
        ensures
            r == EmailPriority::Normal,
    {
        EmailPriority::Normal
    }
}

impl EmailPriority {
    /// The name of the variant, as it is written in the source.
    pub open spec fn variant_name(self) -> Seq<char> {
        match self {
            EmailPriority::High => "High"@,
            EmailPriority::Normal => "Normal"@,
            EmailPriority::Low => "Low"@,
        }
    }

    /// The rank under which a queue sorts the priority: the smaller, the
    /// sooner.
    pub open spec fn queue_rank(self) -> Seq<char> {
        match self {
            EmailPriority::High => "1"@,
            EmailPriority::Normal => "2"@,
            EmailPriority::Low => "3"@,
        }
    }

    /// The name of the variant, as it is written in the source.
    pub fn debug_name(self) -> (r: &'static str)
        ensures
            r@ == self.variant_name(),
    {
        match self {
            EmailPriority::High => "High",
            EmailPriority::Normal => "Normal",
            EmailPriority::Low => "Low",
        }
    }

    /// The rank under which a queue sorts the priority.
    pub fn queue_value(self) -> (r: &'static str)
        ensures
            r@ == self.queue_rank(),
    {
        match self {
            EmailPriority::High => "1",
            EmailPriority::Normal => "2",
            EmailPriority::Low => "3",
        }
    }
}

/// The base names of the templates. The full name of a template depends on
/// the deployment and is looked up by the service.
pub struct EmailTemplates;

impl EmailTemplates {
    pub const OTP: &'static str = "otp";

    pub const WELCOME: &'static str = "welcome";

    pub const COMPLETE_REGISTRATION_USER_INFO: &'static str = "complete-registration-user-info";

    pub const COMPLETE_REGISTRATION_STRIPE: &'static str = "complete-registration-stripe";

    pub const NEWSLETTER: &'static str = "newsletter";
}

/// A request for one templated mail.
#[derive(Debug, PartialEq, Eq)]
pub struct EmailRequest {
    /// The base name of the template.
    pub template_name: String,
    /// The address of the recipient.
    pub recipient: String,
    /// The values of the template's variables.
    pub template_data: StringMap,
    pub priority: EmailPriority,
    /// Where answers are to go, if not to the sender.
    pub reply_to: Option<String>,
    /// The sender, if not the service's own.
    pub from_address: Option<String>,
}

/// What an [`EmailRequest`] holds, as plain values.
pub struct EmailRequestView {
    pub template_name: Seq<char>,
    pub recipient: Seq<char>,
    pub template_data: Map<Seq<char>, Seq<char>>,
    pub priority: EmailPriority,
    pub reply_to: Option<Seq<char>>,
    pub from_address: Option<Seq<char>>,
}

impl View for EmailRequest {
    type V = EmailRequestView;

    open spec fn view(&self) -> EmailRequestView {
        EmailRequestView {
            template_name: self.template_name@,
            recipient: self.recipient@,
            template_data: self.template_data@,
            priority: self.priority,
            reply_to: opt_view(self.reply_to),
            from_address: opt_view(self.from_address),
        }
    }
}

impl Clone for EmailRequest {
    fn clone(&self) -> (r: Self)
        ensures
            r@ == self@,
    {
        EmailRequest {
            template_name: self.template_name.clone(),
            recipient: self.recipient.clone(),
            template_data: self.template_data.clone(),
            priority: self.priority,
            reply_to: clone_opt(&self.reply_to),
            from_address: clone_opt(&self.from_address),
        }
    }
}

/// The answer to a request for a mail.
#[derive(Debug, PartialEq, Eq)]
pub struct EmailResponse {
    /// The identifier that the mail service gave to the message; empty where
    /// the mail was not sent.
    pub message_id: String,
    pub success: bool,
    /// Why the mail was not sent.
    pub error: Option<String>,
}

/// What an [`EmailResponse`] holds, as plain values.
pub struct EmailResponseView {
    pub message_id: Seq<char>,
    pub success: bool,
    pub error: Option<Seq<char>>,
}

impl View for EmailResponse {
    type V = EmailResponseView;

    open spec fn view(&self) -> EmailResponseView {
        EmailResponseView {
            message_id: self.message_id@,
            success: self.success,
            error: opt_view(self.error),
        }
    }
}

impl Clone for EmailResponse {
    fn clone(&self) -> (r: Self)
        ensures
            r@ == self@,
    {
        EmailResponse {
            message_id: self.message_id.clone(),
            success: self.success,
            error: clone_opt(&self.error),
        }
    }
}

impl EmailRequestView {
    /// A request without a reply address and with the service's own sender.
    pub open spec fn plain(
        template_name: Seq<char>,
        recipient: Seq<char>,
        template_data: Map<Seq<char>, Seq<char>>,
        priority: EmailPriority,
    ) -> EmailRequestView {
        EmailRequestView {
            template_name,
            recipient,
            template_data,
            priority,
            reply_to: None,
            from_address: None,
        }
    }
}

/// The values of an optional pair of variables: each is set where it is
/// given.
pub open spec fn with_optional(
    data: Map<Seq<char>, Seq<char>>,
    name: Seq<char>,
    value: Option<String>,
) -> Map<Seq<char>, Seq<char>> {
    match value {
        Some(v) => data.insert(name, v@),
        None => data,
    }
}

impl EmailRequest {
    /// The request for the mail that carries a one-time secret.
    pub fn otp(recipient: String, otp: String) -> (r: Self)
        ensures
            r@ == EmailRequestView::plain(
                EmailTemplates::OTP@,
                recipient@,
                Map::<Seq<char>, Seq<char>>::empty().insert("otp"@, otp@),
                EmailPriority::High,
            ),
    {
        let mut template_data = StringMap::new();
        template_data.insert(String::from_str("otp"), otp);
        EmailRequest {
            template_name: String::from_str(EmailTemplates::OTP),
            recipient,
            template_data,
            priority: EmailPriority::High,
            reply_to: None,
            from_address: None,
        }
    }

    /// The request for the mail that welcomes a new user.
    pub fn welcome(recipient: String, first_name: String, dashboard_url: String) -> (r: Self)
        ensures
            r@ == EmailRequestView::plain(
                EmailTemplates::WELCOME@,
                recipient@,
                Map::<Seq<char>, Seq<char>>::empty().insert("firstName"@, first_name@).insert(
                    "dashboardUrl"@,
                    dashboard_url@,
                ),
                EmailPriority::Normal,
            ),
    {
        let mut template_data = StringMap::new();
        template_data.insert(String::from_str("firstName"), first_name);
        template_data.insert(String::from_str("dashboardUrl"), dashboard_url);
        EmailRequest {
            template_name: String::from_str(EmailTemplates::WELCOME),
            recipient,
            template_data,
            priority: EmailPriority::Normal,
            reply_to: None,
            from_address: None,
        }
    }

    /// The request for the mail that reminds a user of the profile that is
    /// still owed.
    pub fn complete_registration_user_info(
        recipient: String,
        first_name: String,
        profile_url: String,
        unsubscribe_url: String,
    ) -> (r: Self)
        ensures
            r@ == EmailRequestView::plain(
                EmailTemplates::COMPLETE_REGISTRATION_USER_INFO@,
                recipient@,
                Map::<Seq<char>, Seq<char>>::empty().insert("firstName"@, first_name@).insert(
                    "profileUrl"@,
                    profile_url@,
                ).insert("unsubscribeUrl"@, unsubscribe_url@),
                EmailPriority::Normal,
            ),
    {
        let mut template_data = StringMap::new();
        template_data.insert(String::from_str("firstName"), first_name);
        template_data.insert(String::from_str("profileUrl"), profile_url);
        template_data.insert(String::from_str("unsubscribeUrl"), unsubscribe_url);
        EmailRequest {
            template_name: String::from_str(EmailTemplates::COMPLETE_REGISTRATION_USER_INFO),
            recipient,
            template_data,
            priority: EmailPriority::Normal,
            reply_to: None,
            from_address: None,
        }
    }

    /// The request for the mail that reminds a user of the payment setup that
    /// is still owed.
    pub fn complete_registration_stripe(
        recipient: String,
        first_name: String,
        stripe_setup_url: String,
        unsubscribe_url: String,
    ) -> (r: Self)
        ensures
            r@ == EmailRequestView::plain(
                EmailTemplates::COMPLETE_REGISTRATION_STRIPE@,
                recipient@,
                Map::<Seq<char>, Seq<char>>::empty().insert("firstName"@, first_name@).insert(
                    "stripeSetupUrl"@,
                    stripe_setup_url@,
                ).insert("unsubscribeUrl"@, unsubscribe_url@),
                EmailPriority::Normal,
            ),
    {
        let mut template_data = StringMap::new();
        template_data.insert(String::from_str("firstName"), first_name);
        template_data.insert(String::from_str("stripeSetupUrl"), stripe_setup_url);
        template_data.insert(String::from_str("unsubscribeUrl"), unsubscribe_url);
        EmailRequest {
            template_name: String::from_str(EmailTemplates::COMPLETE_REGISTRATION_STRIPE),
            recipient,
            template_data,
            priority: EmailPriority::Normal,
            reply_to: None,
            from_address: None,
        }
    }

    /// The request for a newsletter. The call to action is optional: its text
    /// and its address are each set where they are given.
    pub fn newsletter(
        recipient: String,
        subject: String,
        content: String,
        unsubscribe_url: String,
        cta_text: Option<String>,
        cta_url: Option<String>,
    ) -> (r: Self)
        ensures
            r@ == EmailRequestView::plain(
                EmailTemplates::NEWSLETTER@,
                recipient@,
                with_optional(
                    with_optional(
                        Map::<Seq<char>, Seq<char>>::empty().insert("subject"@, subject@).insert(
                            "content"@,
                            content@,
                        ).insert("unsubscribeUrl"@, unsubscribe_url@),
                        "ctaText"@,
                        cta_text,
                    ),
                    "ctaUrl"@,
                    cta_url,
                ),
                EmailPriority::Low,
            ),
    {
        let mut template_data = StringMap::new();
        template_data.insert(String::from_str("subject"), subject);
        template_data.insert(String::from_str("content"), content);
        template_data.insert(String::from_str("unsubscribeUrl"), unsubscribe_url);
        match cta_text {
            Some(text) => {
                template_data.insert(String::from_str("ctaText"), text);
            },
            None => {},
        }
        match cta_url {
            Some(url) => {
                template_data.insert(String::from_str("ctaUrl"), url);
            },
            None => {},
        }
        EmailRequest {
            template_name: String::from_str(EmailTemplates::NEWSLETTER),
            recipient,
            template_data,
            priority: EmailPriority::Low,
            reply_to: None,
            from_address: None,
        }
    }
}

} // verus!
