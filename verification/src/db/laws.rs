//! What holds of the store across its operations.

use vstd::prelude::*;

use crate::common::time::intervals_overlap;
use crate::reservation::types::{lemma_status_texts_distinct, ReservationRecord, ReservationStatus, ReservationView};

use super::{records_collide, rows_restorable, status_named, view_of_rows, DatabaseView};

verus! {

/// The empty store is well-formed.
pub proof fn lemma_empty_wf()
    ensures
        DatabaseView::empty().wf(),
{
}

/// In a well-formed store two different active reservations of one room never
/// overlap.
pub proof fn lemma_active_reservations_disjoint(v: DatabaseView, id1: i32, id2: i32)
    requires
        v.wf(),
        id1 != id2,
        v.find_reservation(id1) is Some,
        v.find_reservation(id2) is Some,
    ensures
        ({
            let a = v.find_reservation(id1).unwrap();
            let b = v.find_reservation(id2).unwrap();
            a.room_id == b.room_id && a.status == ReservationStatus::Active && b.status
                == ReservationStatus::Active ==> !intervals_overlap(
                a.start_time,
                a.end_time,
                b.start_time,
                b.end_time,
            )
        }),
{
    let a = v.reservations[id1 - 1];
    let b = v.reservations[id2 - 1];
    assert(!records_collide(v.reservations[id1 - 1], v.reservations[id2 - 1]));
}

/// Adding a room keeps the store well-formed while keys are left.
pub proof fn lemma_with_room_wf(v: DatabaseView, name: Seq<char>, capacity: i32, created_at: i64)
    requires
        v.wf(),
        v.rooms.len() < i32::MAX,
    ensures
        v.with_room(name, capacity, created_at).wf(),
{
    let w = v.with_room(name, capacity, created_at);
    assert forall|i: int| 0 <= i < w.rooms.len() implies #[trigger] w.rooms[i].id == i + 1 by {
        if i < v.rooms.len() {
            assert(w.rooms[i] == v.rooms[i]);
        }
    }
}

/// Adding a user keeps the store well-formed while keys are left and the address is
/// free.
pub proof fn lemma_with_user_wf(v: DatabaseView, email: Seq<char>, name: Seq<char>, created_at: i64)
    requires
        v.wf(),
        v.users.len() < i32::MAX,
        !v.email_taken(email),
    ensures
        v.with_user(email, name, created_at).wf(),
{
    let w = v.with_user(email, name, created_at);
    let n = v.users.len() as int;
    assert forall|i: int| 0 <= i < w.users.len() implies #[trigger] w.users[i].id == i + 1 by {
        if i < n {
            assert(w.users[i] == v.users[i]);
        }
    }
    assert forall|i: int, j: int|
        0 <= i < w.users.len() && 0 <= j < w.users.len() && i != j implies #[trigger] w.users[i].email
            != #[trigger] w.users[j].email by {
        if i == n {
            assert(w.users[j] == v.users[j]);
        } else if j == n {
            assert(w.users[i] == v.users[i]);
        } else {
            assert(w.users[i] == v.users[i]);
            assert(w.users[j] == v.users[j]);
        }
    }
}

/// Adding an active reservation keeps the store well-formed while keys are left, its
/// slot is not empty and it collides with no active reservation of the room.
pub proof fn lemma_with_reservation_wf(
    v: DatabaseView,
    room_id: i32,
    user_id: i32,
    start: i64,
    end: i64,
    created_at: i64,
)
    requires
        v.wf(),
        v.reservations.len() < i32::MAX,
        start < end,
        !v.has_conflict(room_id, start, end),
    ensures
        v.with_reservation(room_id, user_id, start, end, created_at).wf(),
{
    let w = v.with_reservation(room_id, user_id, start, end, created_at);
    let x = v.next_reservation(room_id, user_id, start, end, created_at);
    let n = v.reservations.len() as int;
    assert forall|i: int| 0 <= i < w.reservations.len() implies #[trigger] w.reservations[i].id
        == i + 1 by {
        if i < n {
            assert(w.reservations[i] == v.reservations[i]);
        }
    }
    assert forall|i: int| 0 <= i < w.reservations.len() implies #[trigger] w.reservations[i].start_time
        < w.reservations[i].end_time by {
        if i < n {
            assert(w.reservations[i] == v.reservations[i]);
        }
    }
    assert forall|i: int, j: int|
        0 <= i < w.reservations.len() && 0 <= j < w.reservations.len() && i != j implies !records_collide(
        #[trigger] w.reservations[i],
        #[trigger] w.reservations[j],
    ) by {
        if i == n {
            assert(w.reservations[j] == v.reservations[j]);
            if records_collide(x, v.reservations[j]) {
                assert(v.reservations[j].room_id == room_id);
            }
        } else if j == n {
            assert(w.reservations[i] == v.reservations[i]);
            if records_collide(v.reservations[i], x) {
                assert(v.reservations[i].room_id == room_id);
            }
        } else {
            assert(w.reservations[i] == v.reservations[i]);
            assert(w.reservations[j] == v.reservations[j]);
        }
    }
}

/// Cancelling keeps the store well-formed.
pub proof fn lemma_with_cancelled_wf(v: DatabaseView, id: i32)
    requires
        v.wf(),
    ensures
        v.with_cancelled(id).wf(),
{
    let w = v.with_cancelled(id);
    if 1 <= id <= v.reservations.len() {
        assert forall|i: int| 0 <= i < w.reservations.len() implies #[trigger] w.reservations[i].id
            == i + 1 by {
            assert(w.reservations[i].id == v.reservations[i].id);
        }
        assert forall|i: int| 0 <= i < w.reservations.len() implies #[trigger] w.reservations[i].start_time
            < w.reservations[i].end_time by {
            assert(w.reservations[i].start_time == v.reservations[i].start_time);
            assert(w.reservations[i].end_time == v.reservations[i].end_time);
        }
        assert forall|i: int, j: int|
            0 <= i < w.reservations.len() && 0 <= j < w.reservations.len() && i != j implies !records_collide(
            #[trigger] w.reservations[i],
            #[trigger] w.reservations[j],
        ) by {
            assert(!records_collide(v.reservations[i], v.reservations[j]));
        }
    }
}

/// A stored room is found under the key it was given; the other rooms stay as they were.
pub proof fn lemma_created_room_found(
    v: DatabaseView,
    name: Seq<char>,
    capacity: i32,
    created_at: i64,
    other: i32,
)
    requires
        v.wf(),
        v.rooms.len() < i32::MAX,
    ensures
        ({
            let w = v.with_room(name, capacity, created_at);
            let id = (v.rooms.len() + 1) as i32;
            &&& w.find_room(id) matches Some(room) && room.name == name && room.capacity == capacity
                && room.created_at == created_at && room.id == id
            &&& other != id ==> w.find_room(other) == v.find_room(other)
        }),
{
}

/// A stored user is found under the key it was given; the other users stay as they were.
pub proof fn lemma_created_user_found(
    v: DatabaseView,
    email: Seq<char>,
    name: Seq<char>,
    created_at: i64,
    other: i32,
)
    requires
        v.wf(),
        v.users.len() < i32::MAX,
    ensures
        ({
            let w = v.with_user(email, name, created_at);
            let id = (v.users.len() + 1) as i32;
            &&& w.find_user(id) matches Some(user) && user.email == email && user.name == name
                && user.created_at == created_at && user.id == id
            &&& other != id ==> w.find_user(other) == v.find_user(other)
            &&& w.email_taken(email)
        }),
{
    let w = v.with_user(email, name, created_at);
    assert(w.users[v.users.len() as int].email == email);
}

/// A stored reservation is found, active, under the key it was given, the other
/// reservations stay as they were, and its slot is taken: any overlapping slot of the
/// room now conflicts.
pub proof fn lemma_created_reservation_found(
    v: DatabaseView,
    room_id: i32,
    user_id: i32,
    start: i64,
    end: i64,
    created_at: i64,
    other: i32,
    other_start: i64,
    other_end: i64,
)
    requires
        v.wf(),
        v.reservations.len() < i32::MAX,
    ensures
        ({
            let w = v.with_reservation(room_id, user_id, start, end, created_at);
            let id = (v.reservations.len() + 1) as i32;
            &&& w.find_reservation(id) == Some(
                v.next_reservation(room_id, user_id, start, end, created_at),
            )
            &&& v.next_reservation(room_id, user_id, start, end, created_at).status
                == ReservationStatus::Active
            &&& other != id ==> w.find_reservation(other) == v.find_reservation(other)
            &&& intervals_overlap(start, end, other_start, other_end) ==> w.has_conflict(
                room_id,
                other_start,
                other_end,
            )
        }),
{
    let w = v.with_reservation(room_id, user_id, start, end, created_at);
    let n = v.reservations.len() as int;
    assert(w.reservations[n].room_id == room_id);
}

/// Cancelling a reservation frees its slot: once it is cancelled, the same slot of the
/// same room no longer conflicts.
pub proof fn lemma_cancel_frees_slot(v: DatabaseView, id: i32)
    requires
        v.wf(),
        v.find_reservation(id) matches Some(rec) && rec.status == ReservationStatus::Active,
    ensures
        ({
            let rec = v.find_reservation(id).unwrap();
            !v.with_cancelled(id).has_conflict(rec.room_id, rec.start_time, rec.end_time)
        }),
{
    let rec = v.find_reservation(id).unwrap();
    let w = v.with_cancelled(id);
    if w.has_conflict(rec.room_id, rec.start_time, rec.end_time) {
        let k = choose|k: int|
            0 <= k < w.reservations.len() && #[trigger] w.reservations[k].room_id == rec.room_id
                && w.reservations[k].status == ReservationStatus::Active && intervals_overlap(
                w.reservations[k].start_time,
                w.reservations[k].end_time,
                rec.start_time,
                rec.end_time,
            );
        assert(k != id - 1);
        assert(w.reservations[k] == v.reservations[k]);
        assert(!records_collide(v.reservations[k], v.reservations[id - 1]));
    }
}

/// Cancelling twice is cancelling once.
pub proof fn lemma_cancel_idempotent(v: DatabaseView, id: i32)
    ensures
        v.with_cancelled(id).with_cancelled(id) == v.with_cancelled(id),
{
    let w = v.with_cancelled(id);
    if 1 <= id <= v.reservations.len() {
        assert(w.with_cancelled(id).reservations =~= w.reservations);
    }
}

/// Cancelling changes only the status of the one reservation.
pub proof fn lemma_cancel_keeps_the_rest(v: DatabaseView, id: i32, other: i32)
    ensures
        ({
            let w = v.with_cancelled(id);
            &&& w.rooms == v.rooms
            &&& w.users == v.users
            &&& w.reservations.len() == v.reservations.len()
            &&& other != id ==> w.find_reservation(other) == v.find_reservation(other)
            &&& v.find_reservation(id) matches Some(rec) ==> w.find_reservation(id) == Some(
                ReservationRecord { status: ReservationStatus::Cancelled, ..rec },
            )
        }),
{
}

/// Each status is named by its own text.
pub proof fn lemma_status_text_roundtrip(status: ReservationStatus)
    ensures
        status_named(status.spec_as_str()) == Some(status),
{
    lemma_status_texts_distinct();
}

/// The rows of a well-formed store, written out and read back, give the same store.
pub proof fn lemma_rows_roundtrip(v: DatabaseView)
    requires
        v.wf(),
    ensures
        ({
            let rows = v.reservations.map_values(|r: ReservationRecord| r.as_view());
            rows_restorable(v.rooms, v.users, rows) && view_of_rows(v.rooms, v.users, rows) == v
        }),
{
    let rows = v.reservations.map_values(|r: ReservationRecord| r.as_view());
    assert forall|i: int| 0 <= i < rows.len() implies #[trigger] status_named(rows[i].status) is Some by {
        lemma_status_text_roundtrip(v.reservations[i].status);
    }
    let back = rows.map_values(|x: ReservationView| super::record_of(x));
    assert forall|i: int| 0 <= i < back.len() implies back[i] == v.reservations[i] by {
        lemma_status_text_roundtrip(v.reservations[i].status);
    }
    assert(back =~= v.reservations);
}

} // verus!
