//! Storing, finding, listing and cancelling reservations.

use vstd::prelude::*;

use crate::common::error::{AppError, ConflictError};
use crate::common::time::{clock_now, truncate_to_second, NANOS_PER_SECOND};
use crate::db::{Database, DatabaseView};
use crate::room::repository::{
    clock_error, clock_text, key_space_error, key_space_text, not_found_error, not_found_text,
};
use crate::room::RoomId;

use vstd::string::StringExecFns;

use super::types::{
    NewReservation, Reservation, ReservationId, ReservationRecord, ReservationStatus, ReservationView,
};
use super::validation::ValidatedCreateReservation;

verus! {

/// The order of a room's listing: by start, and by key among equal starts.
pub open spec fn listed_before(a: ReservationView, b: ReservationView) -> bool {
    a.start_time < b.start_time || (a.start_time == b.start_time && a.id < b.id)
}

/// Whether `s` lists exactly the reservations of room `room_id` in `v`, each once, in
/// the order of `listed_before`.
pub open spec fn is_room_listing(v: DatabaseView, room_id: i32, s: Seq<ReservationView>) -> bool {
    &&& views_in_order(s)
    &&& forall|x: ReservationView|
        #[trigger] s.contains(x) <==> exists|k: int|
            0 <= k < v.reservations.len() && #[trigger] v.reservations[k].room_id == room_id
                && v.reservations[k].as_view() == x
}

/// Whether each reservation of `s` comes before the next in listing order.
pub open spec fn views_in_order(s: Seq<ReservationView>) -> bool {
    forall|i: int, j: int| 0 <= i < j < s.len() ==> listed_before(#[trigger] s[i], #[trigger] s[j])
}

/// Two sequences in listing order that hold the same reservations are the same.
pub proof fn lemma_ordered_same_contents_equal(s1: Seq<ReservationView>, s2: Seq<ReservationView>)
    requires
        views_in_order(s1),
        views_in_order(s2),
        forall|x: ReservationView| s1.contains(x) <==> s2.contains(x),
    ensures
        s1 == s2,
    decreases s1.len(),
{
    if s1.len() == 0 {
        if s2.len() > 0 {
            assert(s2.contains(s2[0]));
        }
        assert(s1 =~= s2);
    } else {
        let a = s1[0];
        assert(s1.contains(a));
        assert(s2.contains(a));
        let b = s2[0];
        assert(s2.contains(b));
        assert(s1.contains(b));
        let k = choose|k: int| 0 <= k < s1.len() && s1[k] == b;
        let m = choose|m: int| 0 <= m < s2.len() && s2[m] == a;
        if a != b {
            assert(k > 0 && m > 0);
            assert(listed_before(s1[0], s1[k]));
            assert(listed_before(s2[0], s2[m]));
        }
        let t1 = s1.drop_first();
        let t2 = s2.drop_first();
        assert forall|x: ReservationView| t1.contains(x) <==> t2.contains(x) by {
            if t1.contains(x) {
                let i = choose|i: int| 0 <= i < t1.len() && t1[i] == x;
                assert(s1[i + 1] == x);
                assert(listed_before(s1[0], s1[i + 1]));
                assert(s2.contains(x));
                let j = choose|j: int| 0 <= j < s2.len() && s2[j] == x;
                assert(j != 0);
                assert(t2[j - 1] == x);
            }
            if t2.contains(x) {
                let i = choose|i: int| 0 <= i < t2.len() && t2[i] == x;
                assert(s2[i + 1] == x);
                assert(listed_before(s2[0], s2[i + 1]));
                assert(s1.contains(x));
                let j = choose|j: int| 0 <= j < s1.len() && s1[j] == x;
                assert(j != 0);
                assert(t1[j - 1] == x);
            }
        }
        assert forall|i: int, j: int| 0 <= i < j < t1.len() implies listed_before(
            #[trigger] t1[i],
            #[trigger] t1[j],
        ) by {
            assert(listed_before(s1[i + 1], s1[j + 1]));
        }
        assert forall|i: int, j: int| 0 <= i < j < t2.len() implies listed_before(
            #[trigger] t2[i],
            #[trigger] t2[j],
        ) by {
            assert(listed_before(s2[i + 1], s2[j + 1]));
        }
        lemma_ordered_same_contents_equal(t1, t2);
        assert(s1 =~= s2) by {
            assert forall|i: int| 0 <= i < s1.len() implies s1[i] == s2[i] by {
                if i > 0 {
                    assert(s1[i] == t1[i - 1]);
                    assert(s2[i] == t2[i - 1]);
                }
            }
        }
    }
}

/// In a room's listing an earlier start always comes first, and among reservations
/// that start together the one with the smaller key.
pub proof fn lemma_room_listing_by_start(v: DatabaseView, room_id: i32, s: Seq<ReservationView>)
    requires
        is_room_listing(v, room_id, s),
    ensures
        forall|i: int, j: int|
            #![trigger s[i], s[j]]
            0 <= i < j < s.len() ==> {
                &&& s[i].start_time <= s[j].start_time
                &&& (s[i].start_time == s[j].start_time ==> s[i].id < s[j].id)
            },
{
    assert forall|i: int, j: int| 0 <= i < j < s.len() implies {
        &&& #[trigger] s[i].start_time <= #[trigger] s[j].start_time
        &&& (s[i].start_time == s[j].start_time ==> s[i].id < s[j].id)
    } by {
        assert(listed_before(s[i], s[j]));
    }
}

/// A room's listing holds each of its reservations and nothing of another room.
pub proof fn lemma_room_listing_members(v: DatabaseView, room_id: i32, s: Seq<ReservationView>)
    requires
        is_room_listing(v, room_id, s),
    ensures
        forall|k: int|
            0 <= k < v.reservations.len() && #[trigger] v.reservations[k].room_id == room_id
                ==> s.contains(v.reservations[k].as_view()),
        forall|x: ReservationView| #[trigger] s.contains(x) ==> x.room_id == room_id,
{
    assert forall|x: ReservationView| #[trigger] s.contains(x) implies x.room_id == room_id by {
        let m = choose|m: int|
            0 <= m < v.reservations.len() && #[trigger] v.reservations[m].room_id == room_id
                && v.reservations[m].as_view() == x;
    }
}

/// A room has exactly one listing: two sequences that both list the reservations of
/// a room are the same.
pub proof fn lemma_room_listing_unique(
    v: DatabaseView,
    room_id: i32,
    s1: Seq<ReservationView>,
    s2: Seq<ReservationView>,
)
    requires
        is_room_listing(v, room_id, s1),
        is_room_listing(v, room_id, s2),
    ensures
        s1 == s2,
{
    assert forall|x: ReservationView| s1.contains(x) <==> s2.contains(x) by {
        assert(s1.contains(x) == s2.contains(x));
    }
    lemma_ordered_same_contents_equal(s1, s2);
}

/// The record of the reservation with key `id` after it is cancelled.
pub open spec fn cancelled_record(rec: ReservationRecord) -> ReservationRecord {
    ReservationRecord { status: ReservationStatus::Cancelled, ..rec }
}

/// Whether an active reservation of the room overlaps the slot `[start, end)`.
fn overlapping_exists(db: &Database, room_id: i32, start: i64, end: i64) -> (r: bool)
    requires
        db.wf(),
    ensures
        r == db@.has_conflict(room_id, start, end),
{
    let n = db.reservation_count();
    let mut i: usize = 0;
    while i < n
        invariant
            n == db@.reservations.len(),
            i <= n,
            forall|k: int|
                0 <= k < i ==> !(#[trigger] db@.reservations[k].room_id == room_id
                    && db@.reservations[k].status == ReservationStatus::Active
                    && db@.reservations[k].start_time < end && db@.reservations[k].end_time
                    > start),
        decreases n - i,
    {
        let rec = db.reservation_at(i);
        if rec.room_id == room_id && rec.status == ReservationStatus::Active && rec.start_time < end
            && rec.end_time > start {
            assert(db@.reservations[i as int].room_id == room_id);
            return true;
        }
        i = i + 1;
    }
    false
}

/// Adds the checked reservation as an active one stamped `created_at`; its slot must
/// collide with no active reservation of the room and a key must be left.
fn store_reservation(
    db: &mut Database,
    validated: ValidatedCreateReservation,
    created_at: i64,
) -> (res: Reservation)
    requires
        old(db).wf(),
        old(db)@.reservations.len() < i32::MAX,
        !old(db)@.has_conflict(
            validated.room_id.0,
            validated.time_slot.spec_start(),
            validated.time_slot.spec_end(),
        ),
    ensures
        final(db).wf(),
        ({
            let room = validated.room_id.0;
            let user = validated.user_id.0;
            let start = validated.time_slot.spec_start();
            let end = validated.time_slot.spec_end();
            &&& final(db)@ == old(db)@.with_reservation(room, user, start, end, created_at)
            &&& res@ == old(db)@.next_reservation(room, user, start, end, created_at).as_view()
        }),
{
    let start = validated.time_slot.start();
    let end = validated.time_slot.end();
    let new_reservation = NewReservation {
        room_id: validated.room_id.0,
        user_id: validated.user_id.0,
        start_time: start,
        end_time: end,
        status: String::from_str(ReservationStatus::Active.as_str()),
    };
    let record = db.insert_reservation(new_reservation, created_at);
    record.to_reservation()
}

/// Stores an active reservation created at `created_at`. A slot that overlaps an
/// active reservation of the same room is a conflict; a table without a key left is a
/// database error.
pub fn create_reservation_at(
    db: &mut Database,
    validated: ValidatedCreateReservation,
    created_at: i64,
) -> (r: Result<Reservation, AppError>)
    requires
        old(db).wf(),
    ensures
        final(db).wf(),
        ({
            let room = validated.room_id.0;
            let user = validated.user_id.0;
            let start = validated.time_slot.spec_start();
            let end = validated.time_slot.spec_end();
            match r {
                Ok(res) => {
                    &&& !old(db)@.has_conflict(room, start, end)
                    &&& old(db)@.reservations.len() < i32::MAX
                    &&& final(db)@ == old(db)@.with_reservation(room, user, start, end, created_at)
                    &&& res@ == old(db)@.next_reservation(
                        room,
                        user,
                        start,
                        end,
                        created_at,
                    ).as_view()
                },
                Err(AppError::Conflict(ConflictError::OverlappingReservation)) => {
                    &&& old(db)@.has_conflict(room, start, end)
                    &&& final(db)@ == old(db)@
                },
                Err(AppError::Database(msg)) => {
                    &&& !old(db)@.has_conflict(room, start, end)
                    &&& old(db)@.reservations.len() >= i32::MAX
                    &&& msg@ == key_space_text()
                    &&& final(db)@ == old(db)@
                },
                Err(_) => false,
            }
        }),
{
    let start = validated.time_slot.start();
    let end = validated.time_slot.end();
    let room = validated.room_id.0;
    if overlapping_exists(db, room, start, end) {
        return Err(AppError::Conflict(ConflictError::OverlappingReservation));
    }
    if db.reservation_count() >= i32::MAX as usize {
        return Err(key_space_error());
    }
    Ok(store_reservation(db, validated, created_at))
}

/// Stores an active reservation, stamped with the current time cut down to the whole
/// second. The store's own checks come first: an overlapping active reservation of the
/// room is a conflict and a table without a key left is a database error; only then is
/// the clock read, and a clock that no timestamp holds is a database error too.
pub fn create_reservation(db: &mut Database, validated: ValidatedCreateReservation) -> (r: Result<
    Reservation,
    AppError,
>)
    requires
        old(db).wf(),
    ensures
        final(db).wf(),
        ({
            let room = validated.room_id.0;
            let user = validated.user_id.0;
            let start = validated.time_slot.spec_start();
            let end = validated.time_slot.spec_end();
            match r {
                Ok(res) => {
                    &&& !old(db)@.has_conflict(room, start, end)
                    &&& old(db)@.reservations.len() < i32::MAX
                    &&& final(db)@ == old(db)@.with_reservation(
                        room,
                        user,
                        start,
                        end,
                        res.created_at,
                    )
                    &&& res@ == old(db)@.next_reservation(
                        room,
                        user,
                        start,
                        end,
                        res.created_at,
                    ).as_view()
                    &&& res.created_at >= 0
                    &&& res.created_at % NANOS_PER_SECOND == 0
                },
                Err(AppError::Conflict(ConflictError::OverlappingReservation)) => {
                    &&& old(db)@.has_conflict(room, start, end)
                    &&& final(db)@ == old(db)@
                },
                Err(AppError::Database(msg)) => {
                    &&& final(db)@ == old(db)@
                    &&& !old(db)@.has_conflict(room, start, end)
                    &&& (old(db)@.reservations.len() >= i32::MAX && msg@ == key_space_text() || old(
                        db,
                    )@.reservations.len() < i32::MAX && msg@ == clock_text())
                },
                Err(_) => false,
            }
        }),
{
    let start = validated.time_slot.start();
    let end = validated.time_slot.end();
    if overlapping_exists(db, validated.room_id.0, start, end) {
        return Err(AppError::Conflict(ConflictError::OverlappingReservation));
    }
    if db.reservation_count() >= i32::MAX as usize {
        return Err(key_space_error());
    }
    match clock_now() {
        Some(now) => Ok(store_reservation(db, validated, truncate_to_second(now))),
        None => Err(clock_error()),
    }
}

/// The reservation with the given key.
pub fn get_reservation_by_id(db: &Database, reservation_id: ReservationId) -> (r: Result<
    Reservation,
    AppError,
>)
    requires
        db.wf(),
    ensures
        match db@.find_reservation(reservation_id.0) {
            Some(rec) => r matches Ok(res) && res@ == rec.as_view(),
            None => r matches Err(AppError::NotFound(msg)) && msg@ == not_found_text(),
        },
{
    let id = reservation_id.0;
    if id < 1 || id as usize > db.reservation_count() {
        return Err(not_found_error());
    }
    Ok(db.reservation_at((id - 1) as usize).to_reservation())
}

/// The records of `s` as they are handed out.
pub open spec fn record_views(s: Seq<ReservationRecord>) -> Seq<ReservationView> {
    s.map_values(|r: ReservationRecord| r.as_view())
}

/// Puts `x`, whose key is larger than every key in `out`, where the listing order
/// wants it.
fn insert_in_order(out: &mut Vec<ReservationRecord>, x: ReservationRecord)
    requires
        views_in_order(record_views(old(out)@)),
        forall|m: int| 0 <= m < old(out)@.len() ==> #[trigger] old(out)@[m].id < x.id,
    ensures
        views_in_order(record_views(final(out)@)),
        final(out)@.len() == old(out)@.len() + 1,
        forall|y: ReservationRecord|
            #[trigger] final(out)@.contains(y) <==> (old(out)@.contains(y) || y == x),
        forall|m: int|
            0 <= m < final(out)@.len() ==> #[trigger] final(out)@[m].id <= x.id,
{
    let ghost before = out@;
    let mut p: usize = 0;
    while p < out.len() && !(x.start_time < out[p].start_time)
        invariant
            out@ == before,
            p <= out@.len(),
            forall|q: int| 0 <= q < p ==> #[trigger] out@[q].start_time <= x.start_time,
        decreases out@.len() - p,
    {
        p = p + 1;
    }
    out.insert(p, x);
    let ghost after = out@;
    assert(after =~= before.insert(p as int, x));
    let ghost bv = record_views(before);
    let ghost av = record_views(after);
    assert forall|i: int, j: int| 0 <= i < j < av.len() implies listed_before(
        #[trigger] av[i],
        #[trigger] av[j],
    ) by {
        if j < p {
            assert(listed_before(bv[i], bv[j]));
        } else if j == p {
            assert(before[i].start_time <= x.start_time);
            assert(before[i].id < x.id);
        } else if i < p {
            assert(listed_before(bv[i], bv[j - 1]));
        } else if i == p {
            assert(p < before.len());
            assert(x.start_time < before[p as int].start_time);
            if j - 1 > p {
                assert(listed_before(bv[p as int], bv[j - 1]));
            }
        } else {
            assert(listed_before(bv[i - 1], bv[j - 1]));
        }
    }
    assert forall|y: ReservationRecord| #[trigger] after.contains(y) <==> (before.contains(y) || y == x) by {
        if after.contains(y) {
            let k = choose|k: int| 0 <= k < after.len() && after[k] == y;
            if k < p {
                assert(before[k] == y);
            } else if k > p {
                assert(before[k - 1] == y);
            }
        }
        if before.contains(y) {
            let k = choose|k: int| 0 <= k < before.len() && before[k] == y;
            if k < p {
                assert(after[k] == y);
            } else {
                assert(after[k + 1] == y);
            }
        }
        if y == x {
            assert(after[p as int] == x);
        }
    }
    assert forall|m: int| 0 <= m < after.len() implies #[trigger] after[m].id <= x.id by {
        if m < p {
            assert(after[m] == before[m]);
        } else if m > p {
            assert(after[m] == before[m - 1]);
        }
    }
}

/// The reservations of the room, ordered by start and, among equal starts, by key.
pub fn list_reservations_for_room(db: &Database, room_id: RoomId) -> (r: Result<
    Vec<Reservation>,
    AppError,
>)
    requires
        db.wf(),
    ensures
        r matches Ok(list) && is_room_listing(
            db@,
            room_id.0,
            list@.map_values(|x: Reservation| x@),
        ),
        r matches Ok(list) && forall|i: int, j: int|
            #![trigger list@[i], list@[j]]
            0 <= i < j < list@.len() ==> {
                &&& list@[i].start_time <= list@[j].start_time
                &&& (list@[i].start_time == list@[j].start_time ==> list@[i].id < list@[j].id)
            },
        r matches Ok(list) && forall|k: int| 0 <= k < list@.len() ==> #[trigger] list@[k].room_id
            == room_id.0,
{
    let room = room_id.0;
    let n = db.reservation_count();
    let mut out: Vec<ReservationRecord> = Vec::new();
    let mut i: usize = 0;
    while i < n
        invariant
            db.wf(),
            n == db@.reservations.len(),
            i <= n,
            views_in_order(record_views(out@)),
            forall|m: int| 0 <= m < out@.len() ==> #[trigger] out@[m].id <= i,
            forall|y: ReservationRecord|
                #[trigger] out@.contains(y) <==> exists|k: int|
                    0 <= k < i && #[trigger] db@.reservations[k] == y && y.room_id == room,
        decreases n - i,
    {
        let rec = db.reservation_at(i);
        let ghost before = out@;
        assert(rec.id == i + 1);
        if rec.room_id == room {
            insert_in_order(&mut out, rec);
        }
        assert forall|y: ReservationRecord|
            #[trigger] out@.contains(y) <==> exists|k: int|
                0 <= k < i + 1 && #[trigger] db@.reservations[k] == y && y.room_id == room by {
            if y == rec && rec.room_id == room {
                assert(db@.reservations[i as int] == y);
            }
            if exists|k: int| 0 <= k < i + 1 && #[trigger] db@.reservations[k] == y && y.room_id == room {
                let k = choose|k: int| 0 <= k < i + 1 && #[trigger] db@.reservations[k] == y && y.room_id == room;
                if k < i {
                    assert(before.contains(y));
                }
            }
        }
        i = i + 1;
    }
    let mut list: Vec<Reservation> = Vec::new();
    let m = out.len();
    let mut j: usize = 0;
    while j < m
        invariant
            m == out@.len(),
            j <= m,
            list@.len() == j,
            forall|q: int| 0 <= q < j ==> #[trigger] list@[q]@ == out@[q].as_view(),
        decreases m - j,
    {
        list.push(out[j].to_reservation());
        j = j + 1;
    }
    let ghost s = list@.map_values(|x: Reservation| x@);
    assert forall|a: int, b: int| 0 <= a < b < s.len() implies listed_before(#[trigger] s[a], #[trigger] s[b]) by {
        assert(listed_before(record_views(out@)[a], record_views(out@)[b]));
    }
    assert forall|x: ReservationView| #[trigger] s.contains(x) <==> exists|k: int|
        0 <= k < db@.reservations.len() && #[trigger] db@.reservations[k].room_id == room
            && db@.reservations[k].as_view() == x by {
        if s.contains(x) {
            let q = choose|q: int| 0 <= q < s.len() && s[q] == x;
            assert(out@.contains(out@[q]));
            let k = choose|k: int| 0 <= k < n && #[trigger] db@.reservations[k] == out@[q] && out@[q].room_id == room;
            assert(db@.reservations[k].room_id == room);
        }
        if exists|k: int| 0 <= k < db@.reservations.len() && #[trigger] db@.reservations[k].room_id == room
            && db@.reservations[k].as_view() == x {
            let k = choose|k: int| 0 <= k < db@.reservations.len() && #[trigger] db@.reservations[k].room_id == room
                && db@.reservations[k].as_view() == x;
            let y = db@.reservations[k];
            assert(out@.contains(y));
            let q = choose|q: int| 0 <= q < out@.len() && out@[q] == y;
            assert(s[q] == x);
        }
    }
    proof {
        lemma_room_listing_by_start(db@, room, s);
        assert forall|i: int, j: int| 0 <= i < j < list@.len() implies {
            &&& #[trigger] list@[i].start_time <= #[trigger] list@[j].start_time
            &&& (list@[i].start_time == list@[j].start_time ==> list@[i].id < list@[j].id)
        } by {
            assert(s[i] == list@[i]@ && s[j] == list@[j]@);
        }
        assert forall|k: int| 0 <= k < list@.len() implies #[trigger] list@[k].room_id == room by {
            assert(s[k] == list@[k]@);
            assert(s.contains(s[k]));
            lemma_room_listing_members(db@, room, s);
        }
    }
    Ok(list)
}

/// Marks the reservation with the given key cancelled and hands back its new state.
pub fn cancel_reservation(db: &mut Database, reservation_id: ReservationId) -> (r: Result<
    Reservation,
    AppError,
>)
    requires
        old(db).wf(),
    ensures
        final(db).wf(),
        match old(db)@.find_reservation(reservation_id.0) {
            Some(rec) => {
                &&& r matches Ok(res) && res@ == cancelled_record(rec).as_view()
                &&& final(db)@ == old(db)@.with_cancelled(reservation_id.0)
            },
            None => {
                &&& r matches Err(AppError::NotFound(msg)) && msg@ == not_found_text()
                &&& final(db)@ == old(db)@
            },
        },
{
    let id = reservation_id.0;
    if id < 1 || id as usize > db.reservation_count() {
        return Err(not_found_error());
    }
    let index = (id - 1) as usize;
    db.cancel_at(index);
    Ok(db.reservation_at(index).to_reservation())
}

} // verus!
