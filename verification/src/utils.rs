//! Credential hashing, token handling and identifier text.

pub mod hash;
pub mod id;
pub mod jwt;
