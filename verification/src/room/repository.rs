//! Storing, finding and listing rooms.

use vstd::prelude::*;
use vstd::string::StringExecFns;

use crate::common::error::AppError;
use crate::common::time::{clock_now, truncate_to_second, NANOS_PER_SECOND};
use crate::db::{Database, DatabaseView};

use super::types::{NewRoom, Room, RoomFilter, RoomId, RoomView};

verus! {

/// The text of the error that a missing row gives.
pub open spec fn not_found_text() -> Seq<char> {
    "Resource not found"@
}

pub(crate) fn not_found_error() -> (r: AppError)
    ensures
        r matches AppError::NotFound(msg) && msg@ == not_found_text(),
{
    AppError::NotFound(String::from_str("Resource not found"))
}

/// The text of the error of a table that has used up its 32-bit keys.
pub open spec fn key_space_text() -> Seq<char> {
    "no key left for a new row"@
}

/// The text of the error of a clock reading that no timestamp can hold.
pub open spec fn clock_text() -> Seq<char> {
    "the clock reading lies outside the supported range"@
}

/// The error of a table that has used up its 32-bit keys.
pub(crate) fn key_space_error() -> (r: AppError)
    ensures
        r matches AppError::Database(msg) && msg@ == key_space_text(),
{
    AppError::Database(String::from_str("no key left for a new row"))
}

/// The error of a clock reading that no timestamp can hold.
pub(crate) fn clock_error() -> (r: AppError)
    ensures
        r matches AppError::Database(msg) && msg@ == clock_text(),
{
    AppError::Database(String::from_str("the clock reading lies outside the supported range"))
}

/// The rooms of `v` that `filter` admits, in the order of their keys.
pub open spec fn filtered_rooms(v: DatabaseView, filter: RoomFilter) -> Seq<RoomView> {
    v.rooms.filter(|r: RoomView| filter.admits(r.capacity))
}

/// Stores a room created at `created_at`; fails only when the table has no key left.
pub fn create_room_at(db: &mut Database, name: &str, capacity: i32, created_at: i64) -> (r: Result<
    Room,
    AppError,
>)
    requires
        old(db).wf(),
    ensures
        final(db).wf(),
        match r {
            Ok(room) => {
                &&& old(db)@.rooms.len() < i32::MAX
                &&& final(db)@ == old(db)@.with_room(name@, capacity, created_at)
                &&& room@ == final(db)@.rooms.last()
            },
            Err(AppError::Database(msg)) => {
                &&& old(db)@.rooms.len() >= i32::MAX
                &&& msg@ == key_space_text()
                &&& final(db)@ == old(db)@
            },
            Err(_) => false,
        },
{
    if db.room_count() >= i32::MAX as usize {
        return Err(key_space_error());
    }
    let new_room = NewRoom { name, capacity };
    let id = db.insert_room(new_room, created_at);
    Ok(db.room_at((id - 1) as usize).duplicate())
}

/// Stores a room, stamped with the current time cut down to the whole second. A table
/// without a key left is a database error; only then is the clock read, and a clock
/// that no timestamp holds is a database error too.
pub fn create_room(db: &mut Database, name: &str, capacity: i32) -> (r: Result<Room, AppError>)
    requires
        old(db).wf(),
    ensures
        final(db).wf(),
        match r {
            Ok(room) => {
                &&& old(db)@.rooms.len() < i32::MAX
                &&& final(db)@ == old(db)@.with_room(name@, capacity, room.created_at)
                &&& room@ == final(db)@.rooms.last()
                &&& room.created_at >= 0
                &&& room.created_at % NANOS_PER_SECOND == 0
            },
            Err(AppError::Database(msg)) => {
                &&& final(db)@ == old(db)@
                &&& (old(db)@.rooms.len() >= i32::MAX && msg@ == key_space_text() || old(
                    db,
                )@.rooms.len() < i32::MAX && msg@ == clock_text())
            },
            Err(_) => false,
        },
{
    if db.room_count() >= i32::MAX as usize {
        return Err(key_space_error());
    }
    match clock_now() {
        Some(now) => create_room_at(db, name, capacity, truncate_to_second(now)),
        None => Err(clock_error()),
    }
}

/// The room with the given key.
pub fn get_room_by_id(db: &Database, room_id: RoomId) -> (r: Result<Room, AppError>)
    requires
        db.wf(),
    ensures
        match db@.find_room(room_id.0) {
            Some(v) => r matches Ok(room) && room@ == v,
            None => r matches Err(AppError::NotFound(msg)) && msg@ == not_found_text(),
        },
{
    let id = room_id.0;
    if id < 1 || id as usize > db.room_count() {
        return Err(not_found_error());
    }
    Ok(db.room_at((id - 1) as usize).duplicate())
}

/// The rooms of `s` as plain values.
pub open spec fn room_views(s: Seq<Room>) -> Seq<RoomView> {
    s.map_values(|x: Room| x@)
}

/// A listing keeps exactly the stored rooms whose capacity is at least the minimum and
/// at most the maximum of the filter, a bound that is not given keeping every room.
pub proof fn lemma_filtered_rooms_members(v: DatabaseView, filter: RoomFilter, x: RoomView)
    ensures
        filtered_rooms(v, filter).contains(x) <==> {
            &&& v.rooms.contains(x)
            &&& (filter.min_capacity matches Some(min) ==> min <= x.capacity)
            &&& (filter.max_capacity matches Some(max) ==> x.capacity <= max)
        },
{
    let pred = |r: RoomView| filter.admits(r.capacity);
    let s = filtered_rooms(v, filter);
    if s.contains(x) {
        v.rooms.lemma_filter_contains_rev(pred, x);
        let i = choose|i: int| 0 <= i < s.len() && s[i] == x;
        v.rooms.lemma_filter_pred(pred, i);
    }
    if v.rooms.contains(x) && filter.admits(x.capacity) {
        let i = choose|i: int| 0 <= i < v.rooms.len() && v.rooms[i] == x;
        v.rooms.lemma_filter_contains(pred, i);
    }
}

/// Every room of a listing passes the filter's bounds on capacity.
pub proof fn lemma_filtered_rooms_within_bounds(v: DatabaseView, filter: RoomFilter, k: int)
    requires
        0 <= k < filtered_rooms(v, filter).len(),
    ensures
        filter.min_capacity matches Some(min) ==> min <= filtered_rooms(v, filter)[k].capacity,
        filter.max_capacity matches Some(max) ==> filtered_rooms(v, filter)[k].capacity <= max,
{
    v.rooms.lemma_filter_pred(|r: RoomView| filter.admits(r.capacity), k);
}

/// The rooms whose capacity the filter admits, in the order of their keys: each stored
/// room of at least the minimum and at most the maximum capacity, and no other.
pub fn list_rooms(db: &Database, filter: &RoomFilter) -> (r: Result<Vec<Room>, AppError>)
    requires
        db.wf(),
    ensures
        r matches Ok(rooms) && rooms@.map_values(|x: Room| x@) == filtered_rooms(db@, *filter),
        r matches Ok(rooms) && forall|x: RoomView|
            #[trigger] room_views(rooms@).contains(x) <==> {
                &&& db@.rooms.contains(x)
                &&& (filter.min_capacity matches Some(min) ==> min <= x.capacity)
                &&& (filter.max_capacity matches Some(max) ==> x.capacity <= max)
            },
        r matches Ok(rooms) && forall|i: int, j: int|
            0 <= i < j < rooms@.len() ==> #[trigger] rooms@[i].id < #[trigger] rooms@[j].id,
{
    let ghost pred = |x: RoomView| filter.admits(x.capacity);
    let n = db.room_count();
    let mut out: Vec<Room> = Vec::new();
    let mut i: usize = 0;
    while i < n
        invariant
            n == db@.rooms.len(),
            i <= n,
            pred == (|x: RoomView| filter.admits(x.capacity)),
            out@.map_values(|x: Room| x@) == db@.rooms.take(i as int).filter(pred),
            db.wf(),
            forall|m: int| 0 <= m < out@.len() ==> #[trigger] out@[m].id <= i,
            forall|a: int, b: int|
                0 <= a < b < out@.len() ==> #[trigger] out@[a].id < #[trigger] out@[b].id,
        decreases n - i,
    {
        let room = db.room_at(i);
        let ghost before = out@;
        let ghost prefix = db@.rooms.take(i + 1);
        assert(prefix.drop_last() =~= db@.rooms.take(i as int));
        assert(prefix.last() == room@);
        assert(prefix.filter(pred) == if pred(room@) {
            prefix.drop_last().filter(pred).push(room@)
        } else {
            prefix.drop_last().filter(pred)
        }) by {
            reveal_with_fuel(Seq::<_>::filter, 1);
        }
        assert(db@.rooms[i as int].id == i + 1);
        if filter.matches(room.capacity) {
            out.push(room.duplicate());
            assert(out@.map_values(|x: Room| x@) =~= before.map_values(|x: Room| x@).push(room@));
        }
        i = i + 1;
    }
    assert(db@.rooms.take(n as int) =~= db@.rooms);
    assert forall|x: RoomView|
        #[trigger] room_views(out@).contains(x) <==> {
            &&& db@.rooms.contains(x)
            &&& (filter.min_capacity matches Some(min) ==> min <= x.capacity)
            &&& (filter.max_capacity matches Some(max) ==> x.capacity <= max)
        } by {
        assert(room_views(out@) == filtered_rooms(db@, *filter));
        lemma_filtered_rooms_members(db@, *filter, x);
    }
    Ok(out)
}

/// Whether a room has the given key.
pub fn room_exists(db: &Database, room_id: RoomId) -> (r: Result<bool, AppError>)
    requires
        db.wf(),
    ensures
        r matches Ok(b) && b == db@.find_room(room_id.0) is Some,
{
    Ok(1 <= room_id.0 && room_id.0 as usize <= db.room_count())
}

} // verus!
