//! Meeting-room reservation service: users, rooms and reservations kept in a
//! store whose invariant guarantees that no two active reservations of one room
//! overlap in time.

pub mod common;
pub mod user;
pub mod room;
pub mod reservation;
pub mod db;
