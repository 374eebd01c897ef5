//! The decisions behind the file and portal pages.
pub mod file_routes;
pub mod portal_routes;
