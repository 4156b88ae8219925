//! What the room requests do, from the decoded request to the answer.

use vstd::prelude::*;

use crate::common::error::AppError;
use crate::common::time::NANOS_PER_SECOND;
use crate::db::Database;

use super::repository::{self, clock_text, filtered_rooms, key_space_text};
use super::types::{CreateRoomRequest, Room, RoomFilter, RoomResponse};

verus! {

/// Stores the room of the request, stamped `created_at`, and answers it; fails only
/// when the table has no key left.
pub fn create_room_at(db: &mut Database, req: CreateRoomRequest, created_at: i64) -> (r: Result<
    RoomResponse,
    AppError,
>)
    requires
        old(db).wf(),
    ensures
        final(db).wf(),
        match r {
            Ok(resp) => {
                &&& old(db)@.rooms.len() < i32::MAX
                &&& final(db)@ == old(db)@.with_room(req.name@, req.capacity, created_at)
                &&& resp.shows(final(db)@.rooms.last())
            },
            Err(AppError::Database(msg)) => {
                &&& old(db)@.rooms.len() >= i32::MAX
                &&& msg@ == key_space_text()
                &&& final(db)@ == old(db)@
            },
            Err(_) => false,
        },
{
    let room = repository::create_room_at(db, req.name.as_str(), req.capacity, created_at)?;
    Ok(RoomResponse::from(room))
}

/// Stores the room of the request, stamped with the current time cut down to the whole
/// second, and answers it.
pub fn create_room(db: &mut Database, req: CreateRoomRequest) -> (r: Result<RoomResponse, AppError>)
    requires
        old(db).wf(),
    ensures
        final(db).wf(),
        match r {
            Ok(resp) => {
                &&& old(db)@.rooms.len() < i32::MAX
                &&& final(db)@ == old(db)@.with_room(
                    req.name@,
                    req.capacity,
                    final(db)@.rooms.last().created_at,
                )
                &&& resp.shows(final(db)@.rooms.last())
                &&& final(db)@.rooms.last().created_at >= 0
                &&& final(db)@.rooms.last().created_at % NANOS_PER_SECOND == 0
            },
            Err(AppError::Database(msg)) => {
                &&& final(db)@ == old(db)@
                &&& (old(db)@.rooms.len() >= i32::MAX && msg@ == key_space_text() || old(
                    db,
                )@.rooms.len() < i32::MAX && msg@ == clock_text())
            },
            Err(_) => false,
        },
{
    let room = repository::create_room(db, req.name.as_str(), req.capacity)?;
    Ok(RoomResponse::from(room))
}

/// Answers the rooms whose capacity the filter admits, in the order of their keys.
pub fn list_rooms(db: &Database, filter: RoomFilter) -> (r: Result<Vec<RoomResponse>, AppError>)
    requires
        db.wf(),
    ensures
        r matches Ok(list) && list@.len() == filtered_rooms(db@, filter).len() && forall|k: int|
            0 <= k < list@.len() ==> #[trigger] list@[k].shows(filtered_rooms(db@, filter)[k]),
        r matches Ok(list) && forall|k: int|
            0 <= k < list@.len() ==> {
                &&& (filter.min_capacity matches Some(min) ==> min <= #[trigger] list@[k].capacity)
                &&& (filter.max_capacity matches Some(max) ==> list@[k].capacity <= max)
            },
{
    let rooms = repository::list_rooms(db, &filter)?;
    let ghost views = rooms@.map_values(|x: Room| x@);
    let mut out: Vec<RoomResponse> = Vec::new();
    for room in it: rooms
        invariant
            views == it.seq().map_values(|x: Room| x@),
            out@.len() == it.index(),
            forall|k: int| 0 <= k < it.index() ==> #[trigger] out@[k].shows(views[k]),
    {
        out.push(RoomResponse::from(room));
    }
    proof {
        assert forall|k: int| 0 <= k < out@.len() implies {
            &&& (filter.min_capacity matches Some(min) ==> min <= #[trigger] out@[k].capacity)
            &&& (filter.max_capacity matches Some(max) ==> out@[k].capacity <= max)
        } by {
            assert(out@[k].shows(views[k]));
            repository::lemma_filtered_rooms_within_bounds(db@, filter, k);
        }
    }
    Ok(out)
}

} // verus!
