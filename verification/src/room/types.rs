//! Rooms that can be reserved.

use vstd::prelude::*;
use vstd::std_specs::convert::FromSpecImpl;

use crate::common::time::{format_rfc3339, rfc3339_text};

verus! {

/// The key of a room.
#[derive(Debug, Clone, Copy, PartialEq, Eq, Structural, Hash)]
pub struct RoomId(pub i32);

impl From<i32> for RoomId {
    fn from(id: i32) -> Self {
        RoomId(id)
    }
}

impl FromSpecImpl<i32> for RoomId {
    open spec fn obeys_from_spec() -> bool {
        true
    }

    open spec fn from_spec(v: i32) -> RoomId {
        RoomId(v)
    }
}

impl From<RoomId> for i32 {
    fn from(id: RoomId) -> Self {
        id.0
    }
}

impl FromSpecImpl<RoomId> for i32 {
    open spec fn obeys_from_spec() -> bool {
        true
    }

    open spec fn from_spec(v: RoomId) -> i32 {
        v.0
    }
}

/// A stored room.
#[derive(Debug, Clone)]
pub struct Room {
    pub id: i32,
    pub name: String,
    pub capacity: i32,
    /// When the room was stored (nanoseconds since the Unix epoch).
    pub created_at: i64,
}

/// A room as plain values.
pub struct RoomView {
    pub id: i32,
    pub name: Seq<char>,
    pub capacity: i32,
    pub created_at: i64,
}

impl View for Room {
    type V = RoomView;

    open spec fn view(&self) -> RoomView {
        RoomView { id: self.id, name: self.name@, capacity: self.capacity, created_at: self.created_at }
    }
}

impl Room {
    pub fn room_id(&self) -> (r: RoomId)
        ensures
            r.0 == self.id,
    {
        RoomId(self.id)
    }

    /// A copy of the room.
    pub(crate) fn duplicate(&self) -> (r: Room)
        ensures
            r@ == self@,
    {
        Room {
            id: self.id,
            name: self.name.clone(),
            capacity: self.capacity,
            created_at: self.created_at,
        }
    }
}

/// The columns given when a room is stored.
#[derive(Debug)]
pub struct NewRoom<'a> {
    pub name: &'a str,
    pub capacity: i32,
}

/// Bounds on the capacity of the rooms that a listing shows; a bound that is absent
/// admits every capacity.
#[derive(Debug, Clone, Copy)]
pub struct RoomFilter {
    pub min_capacity: Option<i32>,
    pub max_capacity: Option<i32>,
}

impl RoomFilter {
    pub open spec fn admits(self, capacity: i32) -> bool {
        &&& (self.min_capacity matches Some(min) ==> min <= capacity)
        &&& (self.max_capacity matches Some(max) ==> capacity <= max)
    }

    /// Whether a room of the given capacity passes: at least the minimum and at most
    /// the maximum, each bound counting only where it is given.
    pub fn matches(&self, capacity: i32) -> (r: bool)
        ensures
            r == self.admits(capacity),
            r <==> (self.min_capacity is None || self.min_capacity->0 <= capacity) && (
            self.max_capacity is None || capacity <= self.max_capacity->0),
    {
        let above = match self.min_capacity {
            Some(min) => min <= capacity,
            None => true,
        };
        let below = match self.max_capacity {
            Some(max) => capacity <= max,
            None => true,
        };
        above && below
    }
}

/// The body of a request that creates a room.
#[derive(Debug)]
pub struct CreateRoomRequest {
    pub name: String,
    pub capacity: i32,
}

/// A room as it is answered, its creation time in RFC 3339 form.
#[derive(Debug)]
pub struct RoomResponse {
    pub id: i32,
    pub name: String,
    pub capacity: i32,
    pub created_at: String,
}

impl RoomResponse {
    /// Whether the answer shows the room `v`.
    pub open spec fn shows(self, v: RoomView) -> bool {
        &&& self.id == v.id
        &&& self.name@ == v.name
        &&& self.capacity == v.capacity
        &&& self.created_at@ == rfc3339_text(v.created_at)
    }

    /// The answer that shows `room`.
    pub fn from(room: Room) -> (r: Self)
        ensures
            r.id == room.id,
            r.name@ == room.name@,
            r.capacity == room.capacity,
            r.created_at@ == rfc3339_text(room.created_at),
            r.shows(room@),
    {
        let created_at = format_rfc3339(room.created_at);
        RoomResponse { id: room.id, name: room.name, capacity: room.capacity, created_at }
    }
}

} // verus!
