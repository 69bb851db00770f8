//! Request-processing core of a messaging service: envelope parsing, the
//! session gate, per-operation handlers and salted password hashing.

pub mod error;
pub mod function;
pub mod json;
pub mod model;
pub mod pass;
pub mod request;
pub mod session;
