pub mod ambient;
pub mod auth;
pub mod error;
pub mod guard;
pub mod hash;
pub mod session;
pub mod tweet;
pub mod user;
