//! Verified core of a small self-hosted file storage and authentication service.
pub mod ansible;
pub mod auth;
pub mod clock;
pub mod json;
pub mod password;
pub mod routes;
pub mod services;
pub mod status;
pub mod text;
pub mod user;
