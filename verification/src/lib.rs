pub mod domain;
pub mod guarantees;
pub mod routes;
pub mod services;
pub mod utils;
