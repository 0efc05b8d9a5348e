//! Credential checking and tamper-evident redirect messages for a newsletter
//! service: password hashing, timing-equalized login validation, password
//! change policy, and HMAC-signed error text.

pub mod password;
pub mod authentication;
pub mod signing;
pub mod routes;
