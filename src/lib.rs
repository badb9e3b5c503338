//! The OAuth/session core of an order-tracking backend.
//!
//! Users sign in through an OpenID Connect provider with the authorization
//! code flow and PKCE. The library keeps the in-flight attempts (CSRF state
//! -> verifier and nonce, redeemable once and for ten minutes) and the
//! sessions (id -> identity, expiry and raw profile), reads identities out of
//! provider profiles, decides the outcome of each login step and builds the
//! session cookies. Network calls, the HTTP layer and the database stay with
//! the caller, which hands their outcomes in as plain values.
pub mod auth;
pub mod clock;
pub mod config;
pub mod error;
pub mod errors;
pub mod identity;
pub mod json;
pub mod keyed;
pub mod login;
pub mod models;
pub mod oauth;
pub mod pending;
pub mod sessions;
pub mod text;
