//! Verified core of the Evolith platform backend: configuration rules,
//! the in-memory cache, authentication helpers, git storage rules,
//! payment rules and skill handling.

pub mod audit;
pub mod auth;
pub mod billing;
pub mod cache;
pub mod config;
pub mod crypto;
pub mod git;
pub mod ids;
pub mod json;
pub mod mailer;
pub mod outbox;
pub mod payment;
pub mod query;
pub mod records;
pub mod sandbox;
pub mod skill;
pub mod text;
