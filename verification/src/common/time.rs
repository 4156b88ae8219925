//! Points in time and half-open time slots.
//!
//! A point in time is an `i64`: nanoseconds since 1970-01-01T00:00:00Z, the
//! range of chrono's nanosecond timestamps (1677-09-21 to 2262-04-11).

use vstd::prelude::*;

use crate::common::error::ValidationError;

verus! {

/// Whether the slots `[start1, end1)` and `[start2, end2)` share an instant.
pub open spec fn intervals_overlap(start1: i64, end1: i64, start2: i64, end2: i64) -> bool {
    start1 < end2 && end1 > start2
}

/// The text that `chrono` gives a point in time in RFC 3339 form (offset `+00:00`,
/// sub-second digits only where they are not zero).
pub uninterp spec fn rfc3339_text(nanos: i64) -> Seq<char>;

/// Reads the system clock with `std::time::SystemTime::now` and measures it from the
/// Unix epoch with `SystemTime::duration_since`, in nanoseconds (`Duration::as_nanos`).
/// A clock set before 1970, for which `duration_since` fails, gives `None`. Which
/// instant comes back depends on the time, so nothing is stated of it.
#[verifier::external_body]
fn system_clock_nanos() -> (r: Option<u128>) {
    match std::time::SystemTime::now().duration_since(std::time::UNIX_EPOCH) {
        Ok(elapsed) => Some(elapsed.as_nanos()),
        Err(_) => None,
    }
}

/// The current time in nanoseconds since the Unix epoch, or `None` for a clock that
/// no such timestamp holds: one set before 1970 or after 2262-04-11.
pub(crate) fn clock_now() -> (r: Option<i64>)
    ensures
        r matches Some(t) ==> t >= 0,
{
    match system_clock_nanos() {
        Some(nanos) => if nanos <= i64::MAX as u128 {
            Some(nanos as i64)
        } else {
            None
        },
        None => None,
    }
}

/// Formats a point in time with `chrono::DateTime::from_timestamp_nanos` (defined for
/// every `i64`) and `DateTime::<Utc>::to_rfc3339`. The contract claims only that the
/// result is `rfc3339_text` of the argument, a function of it alone.
#[verifier::external_body]
pub(crate) fn format_rfc3339(nanos: i64) -> (r: String)
    ensures
        r@ == rfc3339_text(nanos),
{
    chrono::DateTime::from_timestamp_nanos(nanos).to_rfc3339()
}

/// Nanoseconds in a second.
pub const NANOS_PER_SECOND: i64 = 1_000_000_000;

/// The instant `t` cut down to the whole second that holds it.
pub open spec fn whole_second(t: i64) -> i64 {
    (t - t % NANOS_PER_SECOND) as i64
}

/// Cuts a reading of the clock down to the whole second that holds it, as the time
/// at which a row is stored is kept.
pub fn truncate_to_second(t: i64) -> (r: i64)
    requires
        t >= 0,
    ensures
        r == whole_second(t),
        r >= 0,
        r % NANOS_PER_SECOND == 0,
{
    t - t % NANOS_PER_SECOND
}

/// A slot of time `[start, end)` whose end lies after its start.
#[derive(Debug, Clone, Copy)]
pub struct TimeSlot {
    start: i64,
    end: i64,
}

impl TimeSlot {
    #[verifier::type_invariant]
    pub closed spec fn is_ordered(self) -> bool {
        self.start < self.end
    }

    pub closed spec fn spec_start(self) -> i64 {
        self.start
    }

    pub closed spec fn spec_end(self) -> i64 {
        self.end
    }

    /// The slot from `start` to `end`; refused when the end does not come after the start.
    pub fn new(start: i64, end: i64) -> (r: Result<Self, ValidationError>)
        ensures
            match r {
                Ok(slot) => start < end && slot.spec_start() == start && slot.spec_end() == end,
                Err(e) => end <= start && e == ValidationError::EndBeforeStart,
            },
    {
        if end <= start {
            return Err(ValidationError::EndBeforeStart);
        }
        Ok(Self { start, end })
    }

    /// The slot from `start` to `end` checked against the instant `now`: a start before
    /// `now` is refused first, then an end that does not come after the start.
    pub fn new_future_at(start: i64, end: i64, now: i64) -> (r: Result<Self, ValidationError>)
        ensures
            match r {
                Ok(slot) => now <= start && start < end && slot.spec_start() == start
                    && slot.spec_end() == end,
                Err(ValidationError::ReservationInPast) => start < now,
                Err(ValidationError::EndBeforeStart) => now <= start && end <= start,
                Err(_) => false,
            },
    {
        if start < now {
            return Err(ValidationError::ReservationInPast);
        }
        Self::new(start, end)
    }

    /// The slot from `start` to `end`, which must not start before the current time.
    /// A clock that no timestamp holds (set before 1970 or after 2262) refuses every
    /// slot as in the past.
    pub fn new_future(start: i64, end: i64) -> (r: Result<Self, ValidationError>)
        ensures
            match r {
                Ok(slot) => start < end && slot.spec_start() == start && slot.spec_end() == end,
                Err(ValidationError::ReservationInPast) => true,
                Err(ValidationError::EndBeforeStart) => end <= start,
                Err(_) => false,
            },
    {
        match clock_now() {
            Some(now) => Self::new_future_at(start, end, now),
            None => Err(ValidationError::ReservationInPast),
        }
    }

    pub fn start(&self) -> (r: i64)
        ensures
            r == self.spec_start(),
            self.spec_start() < self.spec_end(),
    {
        proof {
            use_type_invariant(self);
        }
        self.start
    }

    pub fn end(&self) -> (r: i64)
        ensures
            r == self.spec_end(),
            self.spec_start() < self.spec_end(),
    {
        proof {
            use_type_invariant(self);
        }
        self.end
    }

    /// Whether the two slots share an instant.
    pub fn overlaps(&self, other: &TimeSlot) -> (r: bool)
        ensures
            r == intervals_overlap(
                self.spec_start(),
                self.spec_end(),
                other.spec_start(),
                other.spec_end(),
            ),
    {
        self.start < other.end && self.end > other.start
    }
}

/// Overlap does not depend on the order of the two slots.
pub proof fn lemma_overlap_symmetric(start1: i64, end1: i64, start2: i64, end2: i64)
    ensures
        intervals_overlap(start1, end1, start2, end2) == intervals_overlap(
            start2,
            end2,
            start1,
            end1,
        ),
{
}

/// A slot that is not empty overlaps itself.
pub proof fn lemma_overlap_reflexive(start: i64, end: i64)
    requires
        start < end,
    ensures
        intervals_overlap(start, end, start, end),
{
}

/// Slots are half-open: one that ends where another starts does not overlap it.
pub proof fn lemma_adjacent_slots_disjoint(start1: i64, middle: i64, end2: i64)
    ensures
        !intervals_overlap(start1, middle, middle, end2),
{
}

} // verus!
