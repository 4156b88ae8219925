//! Reservations of rooms and their states.

use vstd::prelude::*;
use vstd::std_specs::convert::FromSpecImpl;
use vstd::string::StringExecFns;

use crate::common::time::{format_rfc3339, rfc3339_text, TimeSlot};
use crate::room::RoomId;
use crate::user::UserId;

verus! {

/// The key of a reservation.
#[derive(Debug, Clone, Copy, PartialEq, Eq, Structural, Hash)]
pub struct ReservationId(pub i32);

impl From<i32> for ReservationId {
    fn from(id: i32) -> Self {
        ReservationId(id)
    }
}

impl FromSpecImpl<i32> for ReservationId {
    open spec fn obeys_from_spec() -> bool {
        true
    }

    open spec fn from_spec(v: i32) -> ReservationId {
        ReservationId(v)
    }
}

impl From<ReservationId> for i32 {
    fn from(id: ReservationId) -> Self {
        id.0
    }
}

impl FromSpecImpl<ReservationId> for i32 {
    open spec fn obeys_from_spec() -> bool {
        true
    }

    open spec fn from_spec(v: ReservationId) -> i32 {
        v.0
    }
}

/// Whether a reservation still holds its slot.
#[derive(Debug, Clone, Copy, PartialEq, Eq, Structural)]
pub enum ReservationStatus {
    Active,
    Cancelled,
}

/// A status text that names no status.
#[derive(Debug, PartialEq, Eq, Structural)]
pub struct ParseReservationStatusError;

impl ReservationStatus {
    /// The text under which the status is stored.
    pub open spec fn spec_as_str(self) -> Seq<char> {
        match self {
            ReservationStatus::Active => "active"@,
            ReservationStatus::Cancelled => "cancelled"@,
        }
    }

    pub fn as_str(&self) -> (r: &'static str)
        ensures
            r@ == self.spec_as_str(),
    {
        match self {
            ReservationStatus::Active => "active",
            ReservationStatus::Cancelled => "cancelled",
        }
    }

    /// The status whose text is `s`.
    pub fn parse(s: &str) -> (r: Result<Self, ParseReservationStatusError>)
        ensures
            match r {
                Ok(status) => s@ == status.spec_as_str(),
                Err(_) => s@ != ReservationStatus::Active.spec_as_str() && s@
                    != ReservationStatus::Cancelled.spec_as_str(),
            },
    {
        let text = String::from_str(s);
        let active = String::from_str("active");
        let cancelled = String::from_str("cancelled");
        if text == active {
            Ok(ReservationStatus::Active)
        } else if text == cancelled {
            Ok(ReservationStatus::Cancelled)
        } else {
            Err(ParseReservationStatusError)
        }
    }
}

impl std::str::FromStr for ReservationStatus {
    type Err = ParseReservationStatusError;

    fn from_str(s: &str) -> (r: Result<Self, Self::Err>)
        ensures
            match r {
                Ok(status) => s@ == status.spec_as_str(),
                Err(_) => s@ != ReservationStatus::Active.spec_as_str() && s@
                    != ReservationStatus::Cancelled.spec_as_str(),
            },
    {
        ReservationStatus::parse(s)
    }
}

/// The texts of the two statuses differ.
pub proof fn lemma_status_texts_distinct()
    ensures
        ReservationStatus::Active.spec_as_str() != ReservationStatus::Cancelled.spec_as_str(),
{
    reveal_strlit("active");
    reveal_strlit("cancelled");
    assert(ReservationStatus::Active.spec_as_str()[0] != ReservationStatus::Cancelled.spec_as_str()[0]);
}

/// A reservation as the store keeps it.
#[derive(Debug, Clone, Copy, PartialEq, Eq, Structural)]
pub struct ReservationRecord {
    pub id: i32,
    pub room_id: i32,
    pub user_id: i32,
    /// Start of the slot (nanoseconds since the Unix epoch).
    pub start_time: i64,
    /// End of the slot (nanoseconds since the Unix epoch).
    pub end_time: i64,
    pub status: ReservationStatus,
    /// When the reservation was stored (nanoseconds since the Unix epoch).
    pub created_at: i64,
}

/// A stored reservation as it is handed out, its status as text.
#[derive(Debug, Clone)]
pub struct Reservation {
    pub id: i32,
    pub room_id: i32,
    pub user_id: i32,
    pub start_time: i64,
    pub end_time: i64,
    pub status: String,
    pub created_at: i64,
}

/// A reservation as plain values.
pub struct ReservationView {
    pub id: i32,
    pub room_id: i32,
    pub user_id: i32,
    pub start_time: i64,
    pub end_time: i64,
    pub status: Seq<char>,
    pub created_at: i64,
}

impl View for Reservation {
    type V = ReservationView;

    open spec fn view(&self) -> ReservationView {
        ReservationView {
            id: self.id,
            room_id: self.room_id,
            user_id: self.user_id,
            start_time: self.start_time,
            end_time: self.end_time,
            status: self.status@,
            created_at: self.created_at,
        }
    }
}

impl ReservationRecord {
    /// The record as it is handed out.
    pub open spec fn as_view(self) -> ReservationView {
        ReservationView {
            id: self.id,
            room_id: self.room_id,
            user_id: self.user_id,
            start_time: self.start_time,
            end_time: self.end_time,
            status: self.status.spec_as_str(),
            created_at: self.created_at,
        }
    }

    pub fn to_reservation(&self) -> (r: Reservation)
        ensures
            r@ == self.as_view(),
    {
        Reservation {
            id: self.id,
            room_id: self.room_id,
            user_id: self.user_id,
            start_time: self.start_time,
            end_time: self.end_time,
            status: String::from_str(self.status.as_str()),
            created_at: self.created_at,
        }
    }
}

impl Reservation {
    pub fn reservation_id(&self) -> (r: ReservationId)
        ensures
            r.0 == self.id,
    {
        ReservationId(self.id)
    }

    pub fn room_id(&self) -> (r: RoomId)
        ensures
            r.0 == self.room_id,
    {
        RoomId(self.room_id)
    }

    pub fn user_id(&self) -> (r: UserId)
        ensures
            r.0 == self.user_id,
    {
        UserId(self.user_id)
    }

    /// The status that the stored text names; the text must name one.
    pub fn status(&self) -> (r: ReservationStatus)
        requires
            self.status@ == ReservationStatus::Active.spec_as_str() || self.status@
                == ReservationStatus::Cancelled.spec_as_str(),
        ensures
            r.spec_as_str() == self.status@,
    {
        match ReservationStatus::parse(self.status.as_str()) {
            Ok(status) => status,
            Err(_) => {
                assert(false);
                ReservationStatus::Active
            },
        }
    }

    /// The reserved slot; the stored end must come after the stored start.
    pub fn time_slot(&self) -> (r: TimeSlot)
        requires
            self.start_time < self.end_time,
        ensures
            r.spec_start() == self.start_time,
            r.spec_end() == self.end_time,
    {
        match TimeSlot::new(self.start_time, self.end_time) {
            Ok(slot) => slot,
            Err(_) => {
                assert(false);
                TimeSlot::new(0, 1).unwrap()
            },
        }
    }

    /// Whether the reservation still holds its slot; the stored text must name a status.
    pub fn is_active(&self) -> (r: bool)
        requires
            self.status@ == ReservationStatus::Active.spec_as_str() || self.status@
                == ReservationStatus::Cancelled.spec_as_str(),
        ensures
            r == (self.status@ == ReservationStatus::Active.spec_as_str()),
    {
        proof {
            lemma_status_texts_distinct();
        }
        self.status() == ReservationStatus::Active
    }
}

/// The columns given when a reservation is stored.
#[derive(Debug)]
pub struct NewReservation {
    pub room_id: i32,
    pub user_id: i32,
    pub start_time: i64,
    pub end_time: i64,
    pub status: String,
}

/// The body of a request that reserves a room.
#[derive(Debug)]
pub struct CreateReservationRequest {
    pub user_id: i32,
    pub start_time: i64,
    pub end_time: i64,
}

/// A reservation as it is answered, its times in RFC 3339 form.
#[derive(Debug)]
pub struct ReservationResponse {
    pub id: i32,
    pub room_id: i32,
    pub user_id: i32,
    pub start_time: String,
    pub end_time: String,
    pub status: String,
    pub created_at: String,
}

impl ReservationResponse {
    /// Whether the answer shows the reservation `v`.
    pub open spec fn shows(self, v: ReservationView) -> bool {
        &&& self.id == v.id
        &&& self.room_id == v.room_id
        &&& self.user_id == v.user_id
        &&& self.start_time@ == rfc3339_text(v.start_time)
        &&& self.end_time@ == rfc3339_text(v.end_time)
        &&& self.status@ == v.status
        &&& self.created_at@ == rfc3339_text(v.created_at)
    }

    /// The answer that shows `reservation`.
    pub fn from(reservation: Reservation) -> (r: Self)
        ensures
            r.id == reservation.id,
            r.room_id == reservation.room_id,
            r.user_id == reservation.user_id,
            r.start_time@ == rfc3339_text(reservation.start_time),
            r.end_time@ == rfc3339_text(reservation.end_time),
            r.status@ == reservation.status@,
            r.created_at@ == rfc3339_text(reservation.created_at),
            r.shows(reservation@),
    {
        let start_time = format_rfc3339(reservation.start_time);
        let end_time = format_rfc3339(reservation.end_time);
        let created_at = format_rfc3339(reservation.created_at);
        ReservationResponse {
            id: reservation.id,
            room_id: reservation.room_id,
            user_id: reservation.user_id,
            start_time,
            end_time,
            status: reservation.status,
            created_at,
        }
    }
}

} // verus!
