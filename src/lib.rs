pub mod models;
pub mod repository;
pub mod password;
pub mod validation;
pub mod datetime;
pub mod api;
pub mod auth;
pub mod frontend;
pub mod laws;
