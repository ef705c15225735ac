//! Stateless identity tokens: principals, their signed claims, and the
//! policy that a presented token must meet; plus the small configuration,
//! pagination, response and field-check values that surround them.

pub mod claims;
pub mod common;
pub mod config;
pub mod database;
pub mod error;
pub mod jwt;
pub mod principal;
pub mod response;
pub mod validation;
