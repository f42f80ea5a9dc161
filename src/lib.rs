//! Session and request core of a desktop client for the VRChat web API.
//!
//! The library decides everything that does not need the network or the
//! disk: which cookies go into a request's jar, which cookies of a response
//! are kept, how the two stored cookie entries are wrapped, how a response
//! is classified, and how the session changes after login, two-factor
//! verification and logout. The application around it performs the calls
//! and hands the outcomes back.

pub mod text;
pub mod session;
mod encoding;
pub mod http;
pub mod auth;
pub mod endpoints;
pub mod laws;
