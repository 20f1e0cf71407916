pub mod auth;
pub mod challenge;
