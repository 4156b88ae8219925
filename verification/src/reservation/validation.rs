//! The checks a reservation request passes before it reaches the store.

use vstd::prelude::*;

use crate::common::error::{AppError, ValidationError};
use crate::common::time::{clock_now, TimeSlot};
use crate::db::Database;
use crate::room::{self, RoomId};
use crate::user::{self, UserId};

verus! {

/// A reservation request whose slot, room and user have been checked.
pub struct ValidatedCreateReservation {
    pub room_id: RoomId,
    pub user_id: UserId,
    pub time_slot: TimeSlot,
}

impl ValidatedCreateReservation {
    /// Checks the request against the instant `now`, in this order: a start before
    /// `now` is in the past, an end that does not come after the start is refused, then
    /// the room must exist, then the user.
    pub fn new_at(
        db: &Database,
        room_id: RoomId,
        user_id: UserId,
        start: i64,
        end: i64,
        now: i64,
    ) -> (r: Result<Self, AppError>)
        requires
            db.wf(),
        ensures
            match r {
                Ok(v) => {
                    &&& now <= start
                    &&& start < end
                    &&& db@.find_room(room_id.0) is Some
                    &&& db@.find_user(user_id.0) is Some
                    &&& v.room_id == room_id
                    &&& v.user_id == user_id
                    &&& v.time_slot.spec_start() == start
                    &&& v.time_slot.spec_end() == end
                },
                Err(AppError::Validation(ValidationError::ReservationInPast)) => start < now,
                Err(AppError::Validation(ValidationError::EndBeforeStart)) => {
                    &&& now <= start
                    &&& end <= start
                },
                Err(AppError::Validation(ValidationError::InvalidRoomId)) => {
                    &&& now <= start
                    &&& start < end
                    &&& db@.find_room(room_id.0) is None
                },
                Err(AppError::Validation(ValidationError::InvalidUserId)) => {
                    &&& now <= start
                    &&& start < end
                    &&& db@.find_room(room_id.0) is Some
                    &&& db@.find_user(user_id.0) is None
                },
                Err(_) => false,
            },
    {
        let time_slot = match TimeSlot::new_future_at(start, end, now) {
            Ok(slot) => slot,
            Err(e) => {
                return Err(AppError::Validation(e));
            },
        };
        match room::repository::room_exists(db, room_id) {
            Ok(true) => {},
            Ok(false) => {
                return Err(AppError::Validation(ValidationError::InvalidRoomId));
            },
            Err(e) => {
                return Err(e);
            },
        }
        match user::repository::user_exists(db, user_id) {
            Ok(true) => {},
            Ok(false) => {
                return Err(AppError::Validation(ValidationError::InvalidUserId));
            },
            Err(e) => {
                return Err(e);
            },
        }
        Ok(ValidatedCreateReservation { room_id, user_id, time_slot })
    }

    /// Checks the request against the current time, as `new_at` does. A clock that no
    /// timestamp holds (set before 1970 or after 2262) refuses the request as in the
    /// past.
    pub fn new(db: &Database, room_id: RoomId, user_id: UserId, start: i64, end: i64) -> (r:
        Result<Self, AppError>)
        requires
            db.wf(),
        ensures
            match r {
                Ok(v) => {
                    &&& start < end
                    &&& db@.find_room(room_id.0) is Some
                    &&& db@.find_user(user_id.0) is Some
                    &&& v.room_id == room_id
                    &&& v.user_id == user_id
                    &&& v.time_slot.spec_start() == start
                    &&& v.time_slot.spec_end() == end
                },
                Err(AppError::Validation(ValidationError::ReservationInPast)) => true,
                Err(AppError::Validation(ValidationError::EndBeforeStart)) => end <= start,
                Err(AppError::Validation(ValidationError::InvalidRoomId)) => {
                    &&& start < end
                    &&& db@.find_room(room_id.0) is None
                },
                Err(AppError::Validation(ValidationError::InvalidUserId)) => {
                    &&& start < end
                    &&& db@.find_room(room_id.0) is Some
                    &&& db@.find_user(user_id.0) is None
                },
                Err(_) => false,
            },
    {
        match clock_now() {
            Some(now) => Self::new_at(db, room_id, user_id, start, end, now),
            None => Err(AppError::Validation(ValidationError::ReservationInPast)),
        }
    }
}

} // verus!
