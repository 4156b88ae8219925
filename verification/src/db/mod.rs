//! The store: the tables of rooms, users and reservations, with the invariant that
//! keys run from 1 upwards, that no two users share an e-mail address and that no
//! two active reservations of one room overlap.

pub mod laws;

use vstd::prelude::*;

use crate::common::time::intervals_overlap;
use crate::reservation::types::{
    NewReservation, Reservation, ReservationRecord, ReservationStatus, ReservationView,
};
use crate::room::types::{NewRoom, Room, RoomView};
use crate::user::types::{NewUser, User, UserView};
use vstd::string::StringExecFns;

verus! {

/// The three tables of a store as plain values.
pub struct DatabaseView {
    pub rooms: Seq<RoomView>,
    pub users: Seq<UserView>,
    pub reservations: Seq<ReservationRecord>,
}

/// Whether two reservation records hold overlapping slots of one room while both are active.
pub open spec fn records_collide(a: ReservationRecord, b: ReservationRecord) -> bool {
    &&& a.room_id == b.room_id
    &&& a.status == ReservationStatus::Active
    &&& b.status == ReservationStatus::Active
    &&& intervals_overlap(a.start_time, a.end_time, b.start_time, b.end_time)
}

impl DatabaseView {
    /// The store with no rows.
    pub open spec fn empty() -> DatabaseView {
        DatabaseView { rooms: Seq::empty(), users: Seq::empty(), reservations: Seq::empty() }
    }

    pub open spec fn rooms_wf(self) -> bool {
        &&& self.rooms.len() <= i32::MAX
        &&& forall|i: int| 0 <= i < self.rooms.len() ==> #[trigger] self.rooms[i].id == i + 1
    }

    pub open spec fn users_wf(self) -> bool {
        &&& self.users.len() <= i32::MAX
        &&& forall|i: int| 0 <= i < self.users.len() ==> #[trigger] self.users[i].id == i + 1
        &&& forall|i: int, j: int|
            0 <= i < self.users.len() && 0 <= j < self.users.len() && i != j
                ==> #[trigger] self.users[i].email != #[trigger] self.users[j].email
    }

    pub open spec fn reservations_wf(self) -> bool {
        &&& self.reservations.len() <= i32::MAX
        &&& forall|i: int|
            0 <= i < self.reservations.len() ==> #[trigger] self.reservations[i].id == i + 1
        &&& forall|i: int|
            0 <= i < self.reservations.len() ==> #[trigger] self.reservations[i].start_time
                < self.reservations[i].end_time
        &&& forall|i: int, j: int|
            0 <= i < self.reservations.len() && 0 <= j < self.reservations.len() && i != j
                ==> !records_collide(#[trigger] self.reservations[i], #[trigger] self.reservations[j])
    }

    /// Keys run from 1 upwards in each table, e-mail addresses are unique, every slot
    /// ends after it starts, and no two active reservations of a room overlap.
    pub open spec fn wf(self) -> bool {
        &&& self.rooms_wf()
        &&& self.users_wf()
        &&& self.reservations_wf()
    }

    /// The room with key `id`, if there is one.
    pub open spec fn find_room(self, id: i32) -> Option<RoomView> {
        if 1 <= id <= self.rooms.len() {
            Some(self.rooms[id - 1])
        } else {
            None
        }
    }

    /// The user with key `id`, if there is one.
    pub open spec fn find_user(self, id: i32) -> Option<UserView> {
        if 1 <= id <= self.users.len() {
            Some(self.users[id - 1])
        } else {
            None
        }
    }

    /// The reservation with key `id`, if there is one.
    pub open spec fn find_reservation(self, id: i32) -> Option<ReservationRecord> {
        if 1 <= id <= self.reservations.len() {
            Some(self.reservations[id - 1])
        } else {
            None
        }
    }

    /// Whether a user already has the address `email`.
    pub open spec fn email_taken(self, email: Seq<char>) -> bool {
        exists|i: int| 0 <= i < self.users.len() && #[trigger] self.users[i].email == email
    }

    /// Whether an active reservation of room `room_id` overlaps the slot `[start, end)`.
    pub open spec fn has_conflict(self, room_id: i32, start: i64, end: i64) -> bool {
        exists|i: int|
            0 <= i < self.reservations.len() && #[trigger] self.reservations[i].room_id == room_id
                && self.reservations[i].status == ReservationStatus::Active && intervals_overlap(
                self.reservations[i].start_time,
                self.reservations[i].end_time,
                start,
                end,
            )
    }

    /// The store after a room is added under the next key.
    pub open spec fn with_room(self, name: Seq<char>, capacity: i32, created_at: i64) -> Self {
        DatabaseView {
            rooms: self.rooms.push(
                RoomView { id: (self.rooms.len() + 1) as i32, name, capacity, created_at },
            ),
            ..self
        }
    }

    /// The store after a user is added under the next key.
    pub open spec fn with_user(self, email: Seq<char>, name: Seq<char>, created_at: i64) -> Self {
        DatabaseView {
            users: self.users.push(
                UserView { id: (self.users.len() + 1) as i32, email, name, created_at },
            ),
            ..self
        }
    }

    /// The active reservation that is added next.
    pub open spec fn next_reservation(
        self,
        room_id: i32,
        user_id: i32,
        start: i64,
        end: i64,
        created_at: i64,
    ) -> ReservationRecord {
        ReservationRecord {
            id: (self.reservations.len() + 1) as i32,
            room_id,
            user_id,
            start_time: start,
            end_time: end,
            status: ReservationStatus::Active,
            created_at,
        }
    }

    /// The store after an active reservation is added under the next key.
    pub open spec fn with_reservation(
        self,
        room_id: i32,
        user_id: i32,
        start: i64,
        end: i64,
        created_at: i64,
    ) -> Self {
        DatabaseView {
            reservations: self.reservations.push(
                self.next_reservation(room_id, user_id, start, end, created_at),
            ),
            ..self
        }
    }

    /// The store after the reservation with key `id` is marked cancelled; unchanged
    /// when there is no such reservation.
    pub open spec fn with_cancelled(self, id: i32) -> Self {
        if 1 <= id <= self.reservations.len() {
            DatabaseView {
                reservations: self.reservations.update(
                    id - 1,
                    ReservationRecord {
                        status: ReservationStatus::Cancelled,
                        ..self.reservations[id - 1]
                    },
                ),
                ..self
            }
        } else {
            self
        }
    }
}

/// The status that a stored text names, if any.
pub open spec fn status_named(text: Seq<char>) -> Option<ReservationStatus> {
    if text == ReservationStatus::Active.spec_as_str() {
        Some(ReservationStatus::Active)
    } else if text == ReservationStatus::Cancelled.spec_as_str() {
        Some(ReservationStatus::Cancelled)
    } else {
        None
    }
}

/// The record that a stored reservation row stands for; its status text must name a
/// status.
pub open spec fn record_of(v: ReservationView) -> ReservationRecord {
    ReservationRecord {
        id: v.id,
        room_id: v.room_id,
        user_id: v.user_id,
        start_time: v.start_time,
        end_time: v.end_time,
        status: status_named(v.status).unwrap(),
        created_at: v.created_at,
    }
}

/// The store that stored rows stand for.
pub open spec fn view_of_rows(
    rooms: Seq<RoomView>,
    users: Seq<UserView>,
    reservations: Seq<ReservationView>,
) -> DatabaseView {
    DatabaseView { rooms, users, reservations: reservations.map_values(|v: ReservationView| record_of(v)) }
}

/// Whether stored rows make a well-formed store: every status text names a status and
/// the tables meet the invariant.
pub open spec fn rows_restorable(
    rooms: Seq<RoomView>,
    users: Seq<UserView>,
    reservations: Seq<ReservationView>,
) -> bool {
    &&& forall|i: int| 0 <= i < reservations.len() ==> #[trigger] status_named(reservations[i].status) is Some
    &&& view_of_rows(rooms, users, reservations).wf()
}

/// The tables of the service, kept in memory.
pub struct Database {
    rooms: Vec<Room>,
    users: Vec<User>,
    reservations: Vec<ReservationRecord>,
}

impl View for Database {
    type V = DatabaseView;

    closed spec fn view(&self) -> DatabaseView {
        DatabaseView {
            rooms: self.rooms@.map_values(|r: Room| r@),
            users: self.users@.map_values(|u: User| u@),
            reservations: self.reservations@,
        }
    }
}

impl Database {
    pub open spec fn wf(&self) -> bool {
        self@.wf()
    }

    /// A store with no rows.
    pub fn new() -> (r: Database)
        ensures
            r.wf(),
            r@ == DatabaseView::empty(),
    {
        let r = Database { rooms: Vec::new(), users: Vec::new(), reservations: Vec::new() };
        assert(r@.rooms =~= Seq::<RoomView>::empty());
        assert(r@.users =~= Seq::<UserView>::empty());
        r
    }

    /// The store that rows read back from storage stand for, when they make a
    /// well-formed store.
    pub fn restore(rooms: Vec<Room>, users: Vec<User>, reservations: Vec<Reservation>) -> (r:
        Option<Database>)
        ensures
            ({
                let rv = rooms@.map_values(|x: Room| x@);
                let uv = users@.map_values(|x: User| x@);
                let sv = reservations@.map_values(|x: Reservation| x@);
                match r {
                    Some(db) => rows_restorable(rv, uv, sv) && db.wf() && db@ == view_of_rows(rv, uv, sv),
                    None => !rows_restorable(rv, uv, sv),
                }
            }),
    {
        let ghost rv = rooms@.map_values(|x: Room| x@);
        let ghost uv = users@.map_values(|x: User| x@);
        let ghost sv = reservations@.map_values(|x: Reservation| x@);
        let ghost target = view_of_rows(rv, uv, sv);
        // rooms
        if rooms.len() > i32::MAX as usize {
            return None;
        }
        let mut i: usize = 0;
        while i < rooms.len()
            invariant
                rv == rooms@.map_values(|x: Room| x@),
                target.rooms == rv,
                rooms@.len() <= i32::MAX,
                i <= rooms@.len(),
                forall|k: int| 0 <= k < i ==> #[trigger] rv[k].id == k + 1,
            decreases rooms@.len() - i,
        {
            if rooms[i].id != (i + 1) as i32 {
                assert(target.rooms[i as int].id != i + 1);
                return None;
            }
            i = i + 1;
        }
        assert(target.rooms_wf());
        // users
        if users.len() > i32::MAX as usize {
            return None;
        }
        let mut i: usize = 0;
        while i < users.len()
            invariant
                uv == users@.map_values(|x: User| x@),
                target.users == uv,
                users@.len() <= i32::MAX,
                i <= users@.len(),
                forall|k: int| 0 <= k < i ==> #[trigger] uv[k].id == k + 1,
                forall|a: int, b: int|
                    0 <= a < i && 0 <= b < users@.len() && a != b ==> #[trigger] uv[a].email
                        != #[trigger] uv[b].email,
            decreases users@.len() - i,
        {
            if users[i].id != (i + 1) as i32 {
                assert(target.users[i as int].id != i + 1);
                return None;
            }
            let mut j: usize = 0;
            while j < users.len()
                invariant
                    uv == users@.map_values(|x: User| x@),
                    target.users == uv,
                    i < users@.len(),
                    forall|k: int| 0 <= k < i ==> #[trigger] uv[k].id == k + 1,
                    forall|a: int, b: int|
                        0 <= a < i && 0 <= b < users@.len() && a != b ==> #[trigger] uv[a].email
                            != #[trigger] uv[b].email,
                    j <= users@.len(),
                    forall|b: int|
                        0 <= b < j && b != i ==> uv[i as int].email != #[trigger] uv[b].email,
                decreases users@.len() - j,
            {
                if j != i && users[i].email == users[j].email {
                    assert(target.users[i as int].email == target.users[j as int].email);
                    return None;
                }
                j = j + 1;
            }
            assert forall|a: int, b: int|
                0 <= a < i + 1 && 0 <= b < users@.len() && a != b implies #[trigger] uv[a].email
                    != #[trigger] uv[b].email by {
                if a == i {
                    assert(uv[i as int].email != uv[b].email);
                }
            }
            i = i + 1;
        }
        assert(target.users_wf());
        // reservations
        if reservations.len() > i32::MAX as usize {
            return None;
        }
        let mut records: Vec<ReservationRecord> = Vec::new();
        let mut i: usize = 0;
        while i < reservations.len()
            invariant
                sv == reservations@.map_values(|x: Reservation| x@),
                target == view_of_rows(rv, uv, sv),
                target.reservations.len() == sv.len(),
                reservations@.len() <= i32::MAX,
                i <= reservations@.len(),
                records@.len() == i,
                forall|k: int| 0 <= k < i ==> #[trigger] status_named(sv[k].status) is Some,
                forall|k: int| 0 <= k < i ==> #[trigger] records@[k] == record_of(sv[k]),
                forall|k: int| 0 <= k < i ==> #[trigger] records@[k].id == k + 1,
                forall|k: int| 0 <= k < i ==> #[trigger] records@[k].start_time < records@[k].end_time,
            decreases reservations@.len() - i,
        {
            let row = &reservations[i];
            let status = match ReservationStatus::parse(row.status.as_str()) {
                Ok(status) => status,
                Err(_) => {
                    assert(status_named(sv[i as int].status) is None);
                    return None;
                },
            };
            proof {
                crate::reservation::types::lemma_status_texts_distinct();
            }
            assert(status_named(sv[i as int].status) == Some(status));
            let record = ReservationRecord {
                id: row.id,
                room_id: row.room_id,
                user_id: row.user_id,
                start_time: row.start_time,
                end_time: row.end_time,
                status,
                created_at: row.created_at,
            };
            assert(record == record_of(sv[i as int]));
            if row.id != (i + 1) as i32 || row.start_time >= row.end_time {
                assert(target.reservations[i as int] == record);
                assert(target.reservations[i as int].id != i + 1
                    || target.reservations[i as int].start_time >= target.reservations[i as int].end_time);
                return None;
            }
            records.push(record);
            i = i + 1;
        }
        assert(records@ =~= target.reservations);
        let n = records.len();
        let mut i: usize = 0;
        while i < n
            invariant
                n == records@.len(),
                records@ == target.reservations,
                target == view_of_rows(rv, uv, sv),
                rv == rooms@.map_values(|x: Room| x@),
                uv == users@.map_values(|x: User| x@),
                sv == reservations@.map_values(|x: Reservation| x@),
                i <= n,
                forall|a: int, b: int|
                    0 <= a < i && 0 <= b < n && a != b ==> !records_collide(
                        #[trigger] records@[a],
                        #[trigger] records@[b],
                    ),
            decreases n - i,
        {
            let mut j: usize = 0;
            while j < n
                invariant
                    n == records@.len(),
                    records@ == target.reservations,
                    target == view_of_rows(rv, uv, sv),
                    rv == rooms@.map_values(|x: Room| x@),
                    uv == users@.map_values(|x: User| x@),
                    sv == reservations@.map_values(|x: Reservation| x@),
                    i < n,
                    j <= n,
                    forall|b: int|
                        0 <= b < j && b != i ==> !records_collide(records@[i as int], #[trigger] records@[b]),
                decreases n - j,
            {
                let a = records[i];
                let b = records[j];
                if j != i && a.room_id == b.room_id && a.status == ReservationStatus::Active
                    && b.status == ReservationStatus::Active && a.start_time < b.end_time
                    && a.end_time > b.start_time {
                    assert(records_collide(target.reservations[i as int], target.reservations[j as int]));
                    assert(!target.reservations_wf());
                    return None;
                }
                j = j + 1;
            }
            assert forall|a: int, b: int|
                0 <= a < i + 1 && 0 <= b < n && a != b implies !records_collide(
                    #[trigger] records@[a],
                    #[trigger] records@[b],
                ) by {
                if a == i {
                    assert(!records_collide(records@[i as int], records@[b]));
                }
            }
            i = i + 1;
        }
        assert(target.reservations_wf());
        let db = Database { rooms, users, reservations: records };
        assert(db@.rooms =~= target.rooms);
        assert(db@.users =~= target.users);
        Some(db)
    }

    pub fn room_count(&self) -> (r: usize)
        ensures
            r == self@.rooms.len(),
    {
        self.rooms.len()
    }

    pub fn room_at(&self, i: usize) -> (r: &Room)
        requires
            i < self@.rooms.len(),
        ensures
            r@ == self@.rooms[i as int],
    {
        &self.rooms[i]
    }

    pub fn user_count(&self) -> (r: usize)
        ensures
            r == self@.users.len(),
    {
        self.users.len()
    }

    pub fn user_at(&self, i: usize) -> (r: &User)
        requires
            i < self@.users.len(),
        ensures
            r@ == self@.users[i as int],
    {
        &self.users[i]
    }

    pub fn reservation_count(&self) -> (r: usize)
        ensures
            r == self@.reservations.len(),
    {
        self.reservations.len()
    }

    pub fn reservation_at(&self, i: usize) -> (r: ReservationRecord)
        requires
            i < self@.reservations.len(),
        ensures
            r == self@.reservations[i as int],
    {
        self.reservations[i]
    }

    /// Adds a room under the next key, stamped `created_at`, and hands back that key.
    pub fn insert_room(&mut self, new: NewRoom, created_at: i64) -> (id: i32)
        requires
            old(self).wf(),
            old(self)@.rooms.len() < i32::MAX,
        ensures
            final(self).wf(),
            id == old(self)@.rooms.len() + 1,
            final(self)@ == old(self)@.with_room(new.name@, new.capacity, created_at),
    {
        let id = (self.rooms.len() + 1) as i32;
        let ghost old_view = self@;
        let name = String::from_str(new.name);
        self.rooms.push(Room { id, name, capacity: new.capacity, created_at });
        assert(self@.rooms =~= old_view.rooms.push(
            RoomView { id, name: new.name@, capacity: new.capacity, created_at },
        ));
        id
    }

    /// Adds a user under the next key, stamped `created_at`, and hands back that key;
    /// no user may have the address already.
    pub fn insert_user(&mut self, new: NewUser, created_at: i64) -> (id: i32)
        requires
            old(self).wf(),
            old(self)@.users.len() < i32::MAX,
            !old(self)@.email_taken(new.email@),
        ensures
            final(self).wf(),
            id == old(self)@.users.len() + 1,
            final(self)@ == old(self)@.with_user(new.email@, new.name@, created_at),
    {
        let id = (self.users.len() + 1) as i32;
        let ghost old_view = self@;
        let email = String::from_str(new.email);
        let name = String::from_str(new.name);
        self.users.push(User { id, email, name, created_at });
        assert(self@.users =~= old_view.users.push(
            UserView { id, email: new.email@, name: new.name@, created_at },
        ));
        assert forall|i: int, j: int|
            0 <= i < self@.users.len() && 0 <= j < self@.users.len() && i != j
                implies #[trigger] self@.users[i].email != #[trigger] self@.users[j].email by {
            if i == old_view.users.len() as int {
                assert(old_view.users[j].email == self@.users[j].email);
            } else if j == old_view.users.len() as int {
                assert(old_view.users[i].email == self@.users[i].email);
            }
        }
        id
    }

    /// Adds an active reservation under the next key, stamped `created_at`, and hands
    /// back its record; the status given must be the active one, and the slot must not
    /// collide with an active reservation of the room.
    pub fn insert_reservation(&mut self, new: NewReservation, created_at: i64) -> (r:
        ReservationRecord)
        requires
            old(self).wf(),
            old(self)@.reservations.len() < i32::MAX,
            new.status@ == ReservationStatus::Active.spec_as_str(),
            new.start_time < new.end_time,
            !old(self)@.has_conflict(new.room_id, new.start_time, new.end_time),
        ensures
            final(self).wf(),
            r == old(self)@.next_reservation(
                new.room_id,
                new.user_id,
                new.start_time,
                new.end_time,
                created_at,
            ),
            final(self)@ == old(self)@.with_reservation(
                new.room_id,
                new.user_id,
                new.start_time,
                new.end_time,
                created_at,
            ),
    {
        let room_id = new.room_id;
        let user_id = new.user_id;
        let start = new.start_time;
        let end = new.end_time;
        let id = (self.reservations.len() + 1) as i32;
        let ghost old_view = self@;
        let record = ReservationRecord {
            id,
            room_id,
            user_id,
            start_time: start,
            end_time: end,
            status: ReservationStatus::Active,
            created_at,
        };
        self.reservations.push(record);
        assert(self@.rooms =~= old_view.rooms);
        assert(self@.users =~= old_view.users);
        assert forall|i: int, j: int|
            0 <= i < self@.reservations.len() && 0 <= j < self@.reservations.len() && i != j
                implies !records_collide(
                #[trigger] self@.reservations[i],
                #[trigger] self@.reservations[j],
            ) by {
            let n = old_view.reservations.len() as int;
            if i == n {
                assert(self@.reservations[j] == old_view.reservations[j]);
                if records_collide(record, old_view.reservations[j]) {
                    assert(old_view.reservations[j].room_id == room_id);
                }
            } else if j == n {
                assert(self@.reservations[i] == old_view.reservations[i]);
                if records_collide(old_view.reservations[i], record) {
                    assert(old_view.reservations[i].room_id == room_id);
                }
            }
        }
        record
    }

    /// Marks the reservation at position `i` cancelled.
    pub fn cancel_at(&mut self, i: usize)
        requires
            old(self).wf(),
            i < old(self)@.reservations.len(),
        ensures
            final(self).wf(),
            final(self)@ == old(self)@.with_cancelled((i + 1) as i32),
    {
        let ghost old_view = self@;
        let mut record = self.reservations[i];
        record.status = ReservationStatus::Cancelled;
        self.reservations.set(i, record);
        assert(self@.rooms =~= old_view.rooms);
        assert(self@.users =~= old_view.users);
        assert(self@.reservations =~= old_view.with_cancelled((i + 1) as i32).reservations);
    }
}

} // verus!
