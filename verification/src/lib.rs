//! A broker between a web application and a hardware token: request
//! authentication, a single-slot rendezvous for consent prompts, certificate
//! discovery and hardware-backed signing.

pub mod error;
pub mod hexcodec;
pub mod token;
pub mod mechanism;
pub mod attributes;
pub mod directory;
pub mod signing;
pub mod timestamp;
pub mod auth;
pub mod broker;
pub mod waiter;
