//! Provisioning and teardown decisions for paired compute instances and
//! identity accounts of a lab platform.
//!
//! The library never talks to a provider itself: it builds configurations,
//! policy documents and ordered request plans, and it drives the
//! provisioning flows as state machines that name the next provider request
//! and consume the provider's reply.
pub mod config;
pub mod ownership;
pub mod request;
pub mod teardown;
pub mod poll;
pub mod provision;
pub mod laws;
