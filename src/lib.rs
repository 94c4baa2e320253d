//! A small subscription service: a health check, and the intake of
//! mailing-list signups sent as `application/x-www-form-urlencoded` forms.
//!
//! The transport and the relational store live outside this library. What
//! is here decides, for a request body, whether a subscription is recorded
//! and which status answers it.

pub mod form;
pub mod http;
pub mod subscriptions;
