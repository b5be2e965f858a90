//! Passwordless authentication by one-time passcode: the decisions taken at
//! each step of a login attempt, stated and proved.
//!
//! A login attempt is a series of short, independent steps, called by an
//! identity provider. The steps share no memory: what one step knows of the
//! others it reads from stores outside, or from the history of the attempt
//! that the provider hands over.
//!
//! - [`define`] decides before every round whether to present a challenge, to
//!   accept the session or to refuse it.
//! - [`issue`] issues a challenge: under the control of the rate limiter in
//!   [`rate_limit`] it mints a secret, has its digest stored and the secret
//!   delivered.
//! - [`verify`] holds a candidate answer against the stored digest.
//! - [`utils`] is the codec of the secrets: minting, digest and comparison.
//! - [`items`] and [`clock`] say how records lie in the stores.
//! - [`notifications`] and [`ses_service`] say what is sent by mail, and what
//!   the answers of the mail service mean.
//!
//! Nothing here reads a store or sends a mail. The two steps that need the
//! outside world are machines: they say what is to be done next, and take the
//! answer.

pub mod clock;
pub mod define;
pub mod errors;
pub mod issue;
pub mod items;
pub mod models;
pub mod naming;
pub mod notifications;
pub mod rate_limit;
pub mod ses_service;
pub mod strmap;
pub mod text;
pub mod utils;
pub mod verify;
