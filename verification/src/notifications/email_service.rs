//! The service that sends templated mail. What is decided here: whether a
//! request can be sent at all, under which full template name, from whom, and
//! with which tags; and what the answer of the mail service means.

use vstd::prelude::*;
use vstd::string::*;
use vstd::utf8::*;
use std::collections::BTreeMap;
use crate::errors::{NotificationError, NotificationErrorView};
use crate::naming::{RuntimeConfig, RuntimeConfigView};
use crate::notifications::models::{
    EmailRequest,
    EmailRequestView,
    EmailResponse,
    EmailResponseView,
    EmailTemplates,
};
use crate::strmap::{distinct_keys, pairs_map, StringMap};
use crate::text::{chars_of, clone_opt, concat2, concat3, contains_char, opt_view};

verus! {

/// The environment that a message is tagged with where none is known.
pub const UNKNOWN_ENVIRONMENT: &'static str = "unknown";

/// The text of a JSON object whose members are the entries of `entries`,
/// each value a JSON string, in the order of the keys.
pub uninterp spec fn json_object_text(entries: Map<Seq<char>, Seq<char>>) -> Seq<char>;

/// `serde_json::Error`, the failure of a writing or reading of JSON. It is
/// carried to the call that renders its message and never looked into.
#[verifier::external_type_specification]
#[verifier::external_body]
pub struct ExJsonError(serde_json::Error);

/// `serde_json::to_string` of the pairs as a map from keys to values, kept
/// in the order of the keys: the text of the JSON object. The pairs are
/// handed over with every key once, so that none is dropped on the way. The
/// call is documented to fail only where a value refuses to be written or a
/// key is no string; keys and values here are strings, so it succeeds.
#[verifier::external_body]
fn json_of_pairs(pairs: &Vec<(String, String)>) -> (r: Result<String, serde_json::Error>)
    requires
        distinct_keys(pairs@),
    ensures
        r is Ok,
        r matches Ok(s) ==> s@ == json_object_text(pairs_map(pairs@)),
{
    let ordered: BTreeMap<&str, &str> = pairs.iter().map(
        |(k, v)| (k.as_str(), v.as_str()),
    ).collect();
    serde_json::to_string(&ordered)
}

/// `ToString::to_string` of a `serde_json::Error`: its message.
#[verifier::external_body]
fn json_error_text(e: &serde_json::Error) -> String {
    e.to_string()
}

/// The service: the sender it writes in the name of, and the full names of
/// the templates it knows, by their base names.
#[derive(Debug, Clone, PartialEq, Eq)]
pub struct EmailService {
    pub from_email: String,
    pub template_names: StringMap,
}

/// What an [`EmailService`] holds, as plain values.
pub struct EmailServiceView {
    pub from_email: Seq<char>,
    pub template_names: Map<Seq<char>, Seq<char>>,
}

impl View for EmailService {
    type V = EmailServiceView;

    open spec fn view(&self) -> EmailServiceView {
        EmailServiceView { from_email: self.from_email@, template_names: self.template_names@ }
    }
}

/// A message that is ready to be handed to the mail service.
#[derive(Debug, Clone, PartialEq, Eq)]
pub struct SendPlan {
    pub source: String,
    pub destination: String,
    /// The full name of the template.
    pub template: String,
    /// The values of the template's variables, as the text of a JSON object.
    pub template_data: String,
    pub reply_to: Option<String>,
    pub environment_tag: String,
    pub template_type_tag: String,
    pub priority_tag: String,
}

/// What a [`SendPlan`] holds, as plain values.
pub struct SendPlanView {
    pub source: Seq<char>,
    pub destination: Seq<char>,
    pub template: Seq<char>,
    pub template_data: Seq<char>,
    pub reply_to: Option<Seq<char>>,
    pub environment_tag: Seq<char>,
    pub template_type_tag: Seq<char>,
    pub priority_tag: Seq<char>,
}

impl View for SendPlan {
    type V = SendPlanView;

    open spec fn view(&self) -> SendPlanView {
        SendPlanView {
            source: self.source@,
            destination: self.destination@,
            template: self.template@,
            template_data: self.template_data@,
            reply_to: opt_view(self.reply_to),
            environment_tag: self.environment_tag@,
            template_type_tag: self.template_type_tag@,
            priority_tag: self.priority_tag@,
        }
    }
}

/// Why the mail service did not take a message.
#[derive(Debug, Clone, PartialEq, Eq)]
pub enum SendFailure {
    /// The mail service refused the message, and may have said why.
    ServiceError { code: Option<String>, message: Option<String> },
    TimeoutError,
    ResponseError,
    DispatchFailure,
    ConstructionFailure,
    Unknown,
}

/// The code under which a failure is reported.
pub open spec fn failure_code(f: SendFailure) -> Seq<char> {
    match f {
        SendFailure::ServiceError { code, message } => match code {
            Some(c) => c@,
            None => "UnknownServiceError"@,
        },
        SendFailure::TimeoutError => "TimeoutError"@,
        SendFailure::ResponseError => "ResponseError"@,
        SendFailure::DispatchFailure => "DispatchFailure"@,
        SendFailure::ConstructionFailure => "ConstructionFailure"@,
        SendFailure::Unknown => "UnknownError"@,
    }
}

/// The words in which a failure is reported.
pub open spec fn failure_message(f: SendFailure) -> Seq<char> {
    match f {
        SendFailure::ServiceError { code, message } => match message {
            Some(m) => m@,
            None => "No error message provided"@,
        },
        SendFailure::TimeoutError => "Request timed out"@,
        SendFailure::ResponseError => "HTTP response error"@,
        SendFailure::DispatchFailure => "Failed to dispatch request"@,
        SendFailure::ConstructionFailure => "Failed to construct request"@,
        SendFailure::Unknown => "Unknown error type"@,
    }
}

/// The report of a failure: its code, its words, and the message it was
/// about.
pub open spec fn failure_report(f: SendFailure, template: Seq<char>, recipient: Seq<char>) -> Seq<
    char,
> {
    "SES Error ["@ + failure_code(f) + "]: "@ + failure_message(f) + " (Template: "@ + template
        + ", Recipient: "@ + recipient + ")"@
}

/// The strict format check of an address: it holds an `@` and a `.`, its
/// UTF-8 text is longer than five bytes, and it neither begins nor ends with
/// an `@` or a `.`.
pub open spec fn is_valid_recipient(email: Seq<char>) -> bool {
    &&& email.contains('@')
    &&& email.contains('.')
    &&& encode_utf8(email).len() > 5
    &&& email.len() > 0
    &&& email.first() != '@'
    &&& email.last() != '@'
    &&& email.first() != '.'
    &&& email.last() != '.'
}

/// The full names of the templates of a deployment.
pub open spec fn config_templates(config: RuntimeConfigView) -> Map<Seq<char>, Seq<char>> {
    Map::<Seq<char>, Seq<char>>::empty().insert(
        EmailTemplates::OTP@,
        config.resource_name(EmailTemplates::OTP@),
    ).insert(EmailTemplates::WELCOME@, config.resource_name(EmailTemplates::WELCOME@)).insert(
        EmailTemplates::COMPLETE_REGISTRATION_USER_INFO@,
        config.resource_name(EmailTemplates::COMPLETE_REGISTRATION_USER_INFO@),
    ).insert(
        EmailTemplates::COMPLETE_REGISTRATION_STRIPE@,
        config.resource_name(EmailTemplates::COMPLETE_REGISTRATION_STRIPE@),
    ).insert(EmailTemplates::NEWSLETTER@, config.resource_name(EmailTemplates::NEWSLETTER@))
}

/// The failure that tells of a recipient without a valid address.
pub open spec fn invalid_recipient(recipient: Seq<char>) -> NotificationErrorView {
    NotificationErrorView::InvalidRecipient("Invalid email address: "@ + recipient)
}

/// The failure that tells of a template that the service does not know.
pub open spec fn not_configured(template: Seq<char>) -> NotificationErrorView {
    NotificationErrorView::SESError("Template '"@ + template + "' not configured"@)
}

/// The message that a request leads to, given the text of its template
/// data.
pub open spec fn planned(
    service: EmailServiceView,
    request: EmailRequestView,
    environment: Seq<char>,
    template_data: Seq<char>,
) -> SendPlanView {
    SendPlanView {
        source: match request.from_address {
            Some(from) => from,
            None => service.from_email,
        },
        destination: request.recipient,
        template: service.template_names[request.template_name],
        template_data,
        reply_to: request.reply_to,
        environment_tag: environment,
        template_type_tag: request.template_name,
        priority_tag: request.priority.variant_name(),
    }
}

/// What a request leads to, given how the writing of its template data
/// ended: a message, or the reason why there is none. The recipient is
/// checked first, then the template, then the template data.
pub open spec fn plan_spec(
    service: EmailServiceView,
    request: EmailRequestView,
    environment: Seq<char>,
    template_data: Result<Seq<char>, Seq<char>>,
) -> Result<SendPlanView, NotificationErrorView> {
    if !is_valid_recipient(request.recipient) {
        Err(invalid_recipient(request.recipient))
    } else if !service.template_names.contains_key(request.template_name) {
        Err(not_configured(request.template_name))
    } else {
        match template_data {
            Ok(text) => Ok(planned(service, request, environment, text)),
            Err(why) => Err(NotificationErrorView::SerializationError(why)),
        }
    }
}

/// The answer to a request whose message the mail service took or refused.
pub open spec fn response_spec(plan: SendPlanView, outcome: Result<String, SendFailure>) -> EmailResponseView {
    match outcome {
        Ok(message_id) => EmailResponseView { message_id: message_id@, success: true, error: None },
        Err(f) => EmailResponseView {
            message_id: Seq::<char>::empty(),
            success: false,
            error: Some(failure_report(f, plan.template, plan.destination)),
        },
    }
}

/// The view of how the writing of the template data ended.
pub open spec fn written_view(written: Result<String, String>) -> Result<Seq<char>, Seq<char>> {
    match written {
        Ok(s) => Ok(s@),
        Err(s) => Err(s@),
    }
}

impl EmailService {
    /// A service that writes in the name of `from_email` and knows the given
    /// templates.
    pub fn new(from_email: String, template_names: StringMap) -> (r: Self)
        ensures
            r@ == (EmailServiceView {
                from_email: from_email@,
                template_names: template_names@,
            }),
    {
        EmailService { from_email, template_names }
    }

    /// A service that knows the templates whose full names the deployment
    /// provides: each of the five is known where its name is given.
    pub fn from_env(
        from_email: String,
        otp: Option<String>,
        welcome: Option<String>,
        user_info: Option<String>,
        stripe: Option<String>,
        newsletter: Option<String>,
    ) -> (r: Self)
        ensures
            r@.from_email == from_email@,
            r@.template_names == crate::notifications::models::with_optional(
                crate::notifications::models::with_optional(
                    crate::notifications::models::with_optional(
                        crate::notifications::models::with_optional(
                            crate::notifications::models::with_optional(
                                Map::<Seq<char>, Seq<char>>::empty(),
                                EmailTemplates::OTP@,
                                otp,
                            ),
                            EmailTemplates::WELCOME@,
                            welcome,
                        ),
                        EmailTemplates::COMPLETE_REGISTRATION_USER_INFO@,
                        user_info,
                    ),
                    EmailTemplates::COMPLETE_REGISTRATION_STRIPE@,
                    stripe,
                ),
                EmailTemplates::NEWSLETTER@,
                newsletter,
            ),
    {
        let mut names = StringMap::new();
        match otp {
            Some(v) => {
                names.insert(String::from_str(EmailTemplates::OTP), v);
            },
            None => {},
        }
        match welcome {
            Some(v) => {
                names.insert(String::from_str(EmailTemplates::WELCOME), v);
            },
            None => {},
        }
        match user_info {
            Some(v) => {
                names.insert(String::from_str(EmailTemplates::COMPLETE_REGISTRATION_USER_INFO), v);
            },
            None => {},
        }
        match stripe {
            Some(v) => {
                names.insert(String::from_str(EmailTemplates::COMPLETE_REGISTRATION_STRIPE), v);
            },
            None => {},
        }
        match newsletter {
            Some(v) => {
                names.insert(String::from_str(EmailTemplates::NEWSLETTER), v);
            },
            None => {},
        }
        EmailService { from_email, template_names: names }
    }

    /// A service that knows the five templates under the names that the
    /// deployment gives to its resources.
    pub fn from_runtime_config(from_email: String, runtime_config: &RuntimeConfig) -> (r: Self)
        ensures
            r@ == (EmailServiceView {
                from_email: from_email@,
                template_names: config_templates(runtime_config@),
            }),
    {
        let mut names = StringMap::new();
        names.insert(
            String::from_str(EmailTemplates::OTP),
            runtime_config.ses_template(EmailTemplates::OTP),
        );
        names.insert(
            String::from_str(EmailTemplates::WELCOME),
            runtime_config.ses_template(EmailTemplates::WELCOME),
        );
        names.insert(
            String::from_str(EmailTemplates::COMPLETE_REGISTRATION_USER_INFO),
            runtime_config.ses_template(EmailTemplates::COMPLETE_REGISTRATION_USER_INFO),
        );
        names.insert(
            String::from_str(EmailTemplates::COMPLETE_REGISTRATION_STRIPE),
            runtime_config.ses_template(EmailTemplates::COMPLETE_REGISTRATION_STRIPE),
        );
        names.insert(
            String::from_str(EmailTemplates::NEWSLETTER),
            runtime_config.ses_template(EmailTemplates::NEWSLETTER),
        );
        EmailService { from_email, template_names: names }
    }

    /// The strict format check of an address.
    pub fn is_valid_email(&self, email: &str) -> (r: bool)
        ensures
            r == is_valid_recipient(email@),
    {
        let chars = chars_of(email);
        if chars.len() == 0 {
            return false;
        }
        let first = chars[0];
        let last = chars[chars.len() - 1];
        contains_char(email, '@') && contains_char(email, '.') && email.as_bytes().len() > 5
            && first != '@' && last != '@' && first != '.' && last != '.'
    }

    /// The full name of the template with the given base name, if the service
    /// knows one.
    pub fn get_full_template_name(&self, base_template_name: &str) -> (r: Option<String>)
        ensures
            match r {
                Some(name) => self@.template_names.contains_key(base_template_name@) && name@
                    == self@.template_names[base_template_name@],
                None => !self@.template_names.contains_key(base_template_name@),
            },
    {
        self.template_names.get_cloned(base_template_name)
    }

    /// The message that a request leads to, given how the writing of its
    /// template data ended.
    pub fn plan_with_data(
        &self,
        request: &EmailRequest,
        environment: &str,
        template_data: Result<String, String>,
    ) -> (r: Result<SendPlan, NotificationError>)
        ensures
            match plan_spec(self@, request@, environment@, written_view(template_data)) {
                Ok(plan) => r matches Ok(got) && got@ == plan,
                Err(e) => r matches Err(got) && got@ == e,
            },
    {
        if !self.is_valid_email(request.recipient.as_str()) {
            return Err(
                NotificationError::InvalidRecipient(
                    concat2("Invalid email address: ", request.recipient.as_str()),
                ),
            );
        }
        let template = match self.template_names.get_cloned(request.template_name.as_str()) {
            Some(t) => t,
            None => {
                return Err(
                    NotificationError::SESError(
                        concat3("Template '", request.template_name.as_str(), "' not configured"),
                    ),
                );
            },
        };
        let text = match template_data {
            Ok(text) => text,
            Err(why) => {
                return Err(NotificationError::SerializationError(why));
            },
        };
        let source = match &request.from_address {
            Some(from) => from.clone(),
            None => self.from_email.clone(),
        };
        Ok(
            SendPlan {
                source,
                destination: request.recipient.clone(),
                template,
                template_data: text,
                reply_to: clone_opt(&request.reply_to),
                environment_tag: String::from_str(environment),
                template_type_tag: request.template_name.clone(),
                priority_tag: String::from_str(request.priority.debug_name()),
            },
        )
    }

    /// The message that a request leads to. The template data are written as
    /// the text of a JSON object.
    pub fn plan_templated_email(&self, request: &EmailRequest, environment: &str) -> (r: Result<
        SendPlan,
        NotificationError,
    >)
        ensures
            match plan_spec(
                self@,
                request@,
                environment@,
                Ok(json_object_text(request@.template_data)),
            ) {
                Ok(plan) => r matches Ok(got) && got@ == plan,
                Err(e) => r matches Err(got) && got@ == e,
            },
    {
        let pairs = request.template_data.distinct_pairs();
        let written = match json_of_pairs(&pairs) {
            Ok(text) => Ok(text),
            Err(e) => Err(json_error_text(&e)),
        };
        self.plan_with_data(request, environment, written)
    }

    /// Tells whether the template with the given base name is among those
    /// that the mail service lists; a template that the service does not know
    /// is a failure.
    pub fn validate_template_exists(&self, base_template_name: &str, available: &Vec<String>) -> (r:
        Result<bool, NotificationError>)
        ensures
            match r {
                Ok(listed) => self@.template_names.contains_key(base_template_name@) && listed
                    == exists|i: int|
                    0 <= i < available@.len() && (#[trigger] available@[i])@
                        == self@.template_names[base_template_name@],
                Err(e) => !self@.template_names.contains_key(base_template_name@) && e@
                    == not_configured(base_template_name@),
            },
    {
        let expected = match self.template_names.get(base_template_name) {
            Some(t) => t,
            None => {
                return Err(
                    NotificationError::SESError(
                        concat3("Template '", base_template_name, "' not configured"),
                    ),
                );
            },
        };
        let mut i: usize = 0;
        while i < available.len()
            invariant
                i <= available.len(),
                self@.template_names.contains_key(base_template_name@),
                expected@ == self@.template_names[base_template_name@],
                forall|j: int| 0 <= j < i ==> (#[trigger] available@[j])@ != expected@,
            decreases available.len() - i,
        {
            if available[i] == *expected {
                proof {
                    assert(available@[i as int]@ == self@.template_names[base_template_name@]);
                }
                return Ok(true);
            }
            i += 1;
        }
        Ok(false)
    }
}

/// The environment that messages are tagged with.
pub fn environment_or_unknown(environment: Option<String>) -> (r: String)
    ensures
        r@ == match environment {
            Some(e) => e@,
            None => UNKNOWN_ENVIRONMENT@,
        },
{
    match environment {
        Some(e) => e,
        None => String::from_str(UNKNOWN_ENVIRONMENT),
    }
}

/// The names among a list of optional names, in their order.
pub fn template_names_of(names: Vec<Option<String>>) -> (r: Vec<String>)
    ensures
        r@.map_values(|s: String| s@) == names@.filter(|n: Option<String>| n is Some).map_values(
            |n: Option<String>| n->0@,
        ),
{
    let mut out: Vec<String> = Vec::new();
    let mut i: usize = 0;
    let ghost keep = |n: Option<String>| n is Some;
    let ghost name = |n: Option<String>| n->0@;
    proof {
        assert(names@.take(0).filter(keep) =~= Seq::<Option<String>>::empty());
        assert(out@.map_values(|s: String| s@) =~= names@.take(0).filter(keep).map_values(name));
    }
    while i < names.len()
        invariant
            i <= names.len(),
            keep == |n: Option<String>| n is Some,
            name == |n: Option<String>| n->0@,
            out@.map_values(|s: String| s@) == names@.take(i as int).filter(keep).map_values(name),
        decreases names.len() - i,
    {
        proof {
            assert(names@.take(i + 1).drop_last() =~= names@.take(i as int));
            reveal(Seq::filter);
        }
        let ghost before = out@;
        match &names[i] {
            Some(n) => {
                out.push(n.clone());
                proof {
                    let front = names@.take(i as int).filter(keep);
                    assert(names@.take(i + 1).filter(keep) =~= front.push(names@[i as int]));
                    assert(out@.map_values(|s: String| s@) =~= before.map_values(
                        |s: String| s@,
                    ).push(n@));
                    assert(front.push(names@[i as int]).map_values(name) =~= front.map_values(
                        name,
                    ).push(n@));
                }
            },
            None => {
                proof {
                    assert(names@.take(i + 1).filter(keep) =~= names@.take(i as int).filter(keep));
                }
            },
        }
        i += 1;
    }
    proof {
        assert(names@.take(i as int) =~= names@);
    }
    out
}

/// The code under which a failure is reported.
pub fn error_code(f: &SendFailure) -> (r: String)
    ensures
        r@ == failure_code(*f),
{
    match f {
        SendFailure::ServiceError { code, message } => match code {
            Some(c) => c.clone(),
            None => String::from_str("UnknownServiceError"),
        },
        SendFailure::TimeoutError => String::from_str("TimeoutError"),
        SendFailure::ResponseError => String::from_str("ResponseError"),
        SendFailure::DispatchFailure => String::from_str("DispatchFailure"),
        SendFailure::ConstructionFailure => String::from_str("ConstructionFailure"),
        SendFailure::Unknown => String::from_str("UnknownError"),
    }
}

/// The words in which a failure is reported.
pub fn error_message(f: &SendFailure) -> (r: String)
    ensures
        r@ == failure_message(*f),
{
    match f {
        SendFailure::ServiceError { code, message } => match message {
            Some(m) => m.clone(),
            None => String::from_str("No error message provided"),
        },
        SendFailure::TimeoutError => String::from_str("Request timed out"),
        SendFailure::ResponseError => String::from_str("HTTP response error"),
        SendFailure::DispatchFailure => String::from_str("Failed to dispatch request"),
        SendFailure::ConstructionFailure => String::from_str("Failed to construct request"),
        SendFailure::Unknown => String::from_str("Unknown error type"),
    }
}

/// The answer to a request whose message the mail service took or refused.
/// A refusal is an answer, not a failure of the request: it says that the
/// mail was not sent, and why.
pub fn email_response(plan: &SendPlan, outcome: Result<String, SendFailure>) -> (r:
    EmailResponse)
    ensures
        r@ == response_spec(plan@, outcome),
{
    match outcome {
        Ok(message_id) => EmailResponse { message_id, success: true, error: None },
        Err(f) => {
            let mut report = String::from_str("SES Error [");
            report.append(error_code(&f).as_str());
            report.append("]: ");
            report.append(error_message(&f).as_str());
            report.append(" (Template: ");
            report.append(plan.template.as_str());
            report.append(", Recipient: ");
            report.append(plan.destination.as_str());
            report.append(")");
            EmailResponse { message_id: String::new(), success: false, error: Some(report) }
        },
    }
}

} // verus!
