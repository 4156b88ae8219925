pub mod handlers;
pub mod repository;
pub mod types;
pub mod validation;

pub use types::{Reservation, ReservationId, ReservationStatus};
