pub mod handlers;
pub mod repository;
pub mod types;

pub use types::{User, UserId};
