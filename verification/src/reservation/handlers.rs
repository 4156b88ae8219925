//! What the reservation requests do, from the decoded request to the answer.

use vstd::prelude::*;
use vstd::string::StringExecFns;

use crate::common::error::{AppError, ConflictError, ValidationError};
use crate::common::time::{clock_now, truncate_to_second, NANOS_PER_SECOND};
use crate::db::Database;
use crate::room::repository::{key_space_text, not_found_text};
use crate::room::RoomId;
use crate::user::UserId;

use super::repository::{self, cancelled_record, is_room_listing};
use super::types::{
    CreateReservationRequest, Reservation, ReservationId, ReservationResponse, ReservationView,
};
use super::validation::ValidatedCreateReservation;

verus! {

/// The text of the error for a reservation that belongs to another room.
pub open spec fn other_room_text() -> Seq<char> {
    "Reservation not found in this room"@
}

/// Checks the request against the instant `now`, stores the reservation of room
/// `room_id` stamped `created_at`, and answers it. The checks run in the order of
/// `ValidatedCreateReservation::new_at`; a valid request then conflicts with an
/// overlapping active reservation of the room, or fails when no key is left.
pub fn create_reservation_at(
    db: &mut Database,
    room_id: i32,
    req: CreateReservationRequest,
    now: i64,
    created_at: i64,
) -> (r: Result<ReservationResponse, AppError>)
    requires
        old(db).wf(),
    ensures
        final(db).wf(),
        ({
            let start = req.start_time;
            let end = req.end_time;
            let valid = now <= start && start < end && old(db)@.find_room(room_id) is Some
                && old(db)@.find_user(req.user_id) is Some;
            match r {
                Ok(resp) => {
                    &&& valid
                    &&& !old(db)@.has_conflict(room_id, start, end)
                    &&& old(db)@.reservations.len() < i32::MAX
                    &&& final(db)@ == old(db)@.with_reservation(
                        room_id,
                        req.user_id,
                        start,
                        end,
                        created_at,
                    )
                    &&& resp.shows(
                        old(db)@.next_reservation(room_id, req.user_id, start, end, created_at).as_view(),
                    )
                },
                Err(AppError::Validation(ValidationError::ReservationInPast)) => {
                    &&& start < now
                    &&& final(db)@ == old(db)@
                },
                Err(AppError::Validation(ValidationError::EndBeforeStart)) => {
                    &&& now <= start
                    &&& end <= start
                    &&& final(db)@ == old(db)@
                },
                Err(AppError::Validation(ValidationError::InvalidRoomId)) => {
                    &&& now <= start
                    &&& start < end
                    &&& old(db)@.find_room(room_id) is None
                    &&& final(db)@ == old(db)@
                },
                Err(AppError::Validation(ValidationError::InvalidUserId)) => {
                    &&& now <= start
                    &&& start < end
                    &&& old(db)@.find_room(room_id) is Some
                    &&& old(db)@.find_user(req.user_id) is None
                    &&& final(db)@ == old(db)@
                },
                Err(AppError::Conflict(ConflictError::OverlappingReservation)) => {
                    &&& valid
                    &&& old(db)@.has_conflict(room_id, start, end)
                    &&& final(db)@ == old(db)@
                },
                Err(AppError::Database(msg)) => {
                    &&& valid
                    &&& !old(db)@.has_conflict(room_id, start, end)
                    &&& old(db)@.reservations.len() >= i32::MAX
                    &&& msg@ == key_space_text()
                    &&& final(db)@ == old(db)@
                },
                Err(_) => false,
            }
        }),
{
    let validated = ValidatedCreateReservation::new_at(
        db,
        RoomId(room_id),
        UserId(req.user_id),
        req.start_time,
        req.end_time,
        now,
    )?;
    let reservation = repository::create_reservation_at(db, validated, created_at)?;
    Ok(ReservationResponse::from(reservation))
}

/// Checks the request against the current time, stores the reservation of room
/// `room_id` stamped with that time cut down to the whole second, and answers it. A
/// clock that no timestamp holds (set before 1970 or after 2262) refuses the request
/// as in the past. One reading of the clock serves both the check and the stamp, so a
/// stored reservation never starts before the second in which it was stored.
pub fn create_reservation(
    db: &mut Database,
    room_id: i32,
    req: CreateReservationRequest,
) -> (r: Result<ReservationResponse, AppError>)
    requires
        old(db).wf(),
    ensures
        final(db).wf(),
        ({
            let start = req.start_time;
            let end = req.end_time;
            let valid = start < end && old(db)@.find_room(room_id) is Some
                && old(db)@.find_user(req.user_id) is Some;
            match r {
                Ok(resp) => {
                    let created_at = final(db)@.reservations.last().created_at;
                    &&& valid
                    &&& !old(db)@.has_conflict(room_id, start, end)
                    &&& old(db)@.reservations.len() < i32::MAX
                    &&& final(db)@ == old(db)@.with_reservation(
                        room_id,
                        req.user_id,
                        start,
                        end,
                        created_at,
                    )
                    &&& created_at >= 0
                    &&& created_at % NANOS_PER_SECOND == 0
                    &&& created_at <= start
                    &&& resp.shows(final(db)@.reservations.last().as_view())
                },
                Err(AppError::Validation(ValidationError::ReservationInPast)) => final(db)@ == old(
                    db,
                )@,
                Err(AppError::Validation(ValidationError::EndBeforeStart)) => end <= start
                    && final(db)@ == old(db)@,
                Err(AppError::Validation(ValidationError::InvalidRoomId)) => {
                    &&& start < end
                    &&& old(db)@.find_room(room_id) is None
                    &&& final(db)@ == old(db)@
                },
                Err(AppError::Validation(ValidationError::InvalidUserId)) => {
                    &&& start < end
                    &&& old(db)@.find_room(room_id) is Some
                    &&& old(db)@.find_user(req.user_id) is None
                    &&& final(db)@ == old(db)@
                },
                Err(AppError::Conflict(ConflictError::OverlappingReservation)) => {
                    &&& valid
                    &&& old(db)@.has_conflict(room_id, start, end)
                    &&& final(db)@ == old(db)@
                },
                Err(AppError::Database(msg)) => {
                    &&& valid
                    &&& !old(db)@.has_conflict(room_id, start, end)
                    &&& old(db)@.reservations.len() >= i32::MAX
                    &&& msg@ == key_space_text()
                    &&& final(db)@ == old(db)@
                },
                Err(_) => false,
            }
        }),
{
    match clock_now() {
        Some(now) => create_reservation_at(db, room_id, req, now, truncate_to_second(now)),
        None => Err(AppError::Validation(ValidationError::ReservationInPast)),
    }
}

/// Answers the reservations of room `room_id`, ordered by start and, among equal
/// starts, by key.
pub fn list_reservations(db: &Database, room_id: i32) -> (r: Result<
    Vec<ReservationResponse>,
    AppError,
>)
    requires
        db.wf(),
    ensures
        r matches Ok(list) && (exists|s: Seq<ReservationView>|
            {
                &&& is_room_listing(db@, room_id, s)
                &&& s.len() == list@.len()
                &&& forall|k: int| 0 <= k < s.len() ==> #[trigger] list@[k].shows(s[k])
                &&& forall|i: int, j: int|
                    #![trigger s[i], s[j]]
                    0 <= i < j < s.len() ==> s[i].start_time <= s[j].start_time
                &&& forall|k: int| 0 <= k < s.len() ==> #[trigger] s[k].room_id == room_id
            }),
{
    let reservations = repository::list_reservations_for_room(db, RoomId(room_id))?;
    let ghost views = reservations@.map_values(|x: Reservation| x@);
    proof {
        assert forall|i: int, j: int| 0 <= i < j < views.len() implies #[trigger] views[i].start_time
            <= #[trigger] views[j].start_time by {
            assert(views[i] == reservations@[i]@ && views[j] == reservations@[j]@);
        }
        assert forall|k: int| 0 <= k < views.len() implies #[trigger] views[k].room_id == room_id by {
            assert(views[k] == reservations@[k]@);
        }
    }
    let mut out: Vec<ReservationResponse> = Vec::new();
    for reservation in it: reservations
        invariant
            views == it.seq().map_values(|x: Reservation| x@),
            out@.len() == it.index(),
            forall|k: int| 0 <= k < it.index() ==> #[trigger] out@[k].shows(views[k]),
    {
        out.push(ReservationResponse::from(reservation));
    }
    Ok(out)
}

/// Cancels reservation `reservation_id` of room `room_id` and answers its new state;
/// a reservation of another room is not found.
pub fn cancel_reservation(db: &mut Database, room_id: i32, reservation_id: i32) -> (r: Result<
    ReservationResponse,
    AppError,
>)
    requires
        old(db).wf(),
    ensures
        final(db).wf(),
        match old(db)@.find_reservation(reservation_id) {
            Some(rec) => if rec.room_id == room_id {
                &&& r matches Ok(resp) && resp.shows(cancelled_record(rec).as_view())
                &&& final(db)@ == old(db)@.with_cancelled(reservation_id)
            } else {
                &&& r matches Err(AppError::NotFound(msg)) && msg@ == other_room_text()
                &&& final(db)@ == old(db)@
            },
            None => {
                &&& r matches Err(AppError::NotFound(msg)) && msg@ == not_found_text()
                &&& final(db)@ == old(db)@
            },
        },
{
    let reservation = repository::get_reservation_by_id(db, ReservationId(reservation_id))?;
    if reservation.room_id != room_id {
        return Err(AppError::NotFound(String::from_str("Reservation not found in this room")));
    }
    let cancelled = repository::cancel_reservation(db, ReservationId(reservation_id))?;
    Ok(ReservationResponse::from(cancelled))
}

} // verus!
