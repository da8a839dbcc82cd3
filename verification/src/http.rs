//! The HTTP-facing rules: API key checks, error bodies, route prefixes and
//! health reports.

pub mod app_state;
pub mod auth;
pub mod dto;
pub mod errors;
pub mod health;
pub mod routes;
