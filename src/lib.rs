//! Authentication and session core of a shop backend: password hashing,
//! signed expiring tokens, bearer-token guards and the login / refresh /
//! logout session rules over a user record.

pub mod error;
pub mod password;
pub mod claims;
pub mod codec;
pub mod guard;
pub mod user;
pub mod session;
pub mod validation;
