//! Notifications: the requests for templated mail, the service that sends
//! them, the queue in front of it and the worker behind the queue.

pub mod email_service;
pub mod models;
pub mod processor;
pub mod queue_service;
