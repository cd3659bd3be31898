//! The conversation with the authority: who the keeper is to it, what it
//! asks, and what it makes of the answers.

pub mod auth;
pub mod client;
pub mod http;
pub mod json;
pub mod pki;
