use rs2026::common::error::ValidationError;
use rs2026::common::time::TimeSlot;

const HOUR: i64 = 3_600_000_000_000;

fn now() -> i64 {
    chrono::Utc::now().timestamp_nanos_opt().unwrap()
}

#[test]
fn test_valid_time_slot() {
    let start = now() + HOUR;
    let end = start + HOUR;
    let slot = TimeSlot::new(start, end);
    assert!(slot.is_ok());
}

#[test]
fn test_invalid_time_slot_end_before_start() {
    let start = now() + 2 * HOUR;
    let end = now() + HOUR;
    let slot = TimeSlot::new(start, end);
    assert!(matches!(slot, Err(ValidationError::EndBeforeStart)));
}

#[test]
fn test_overlapping_slots() {
    let now = now();
    let slot1 = TimeSlot::new(now, now + 2 * HOUR).unwrap();
    let slot2 = TimeSlot::new(now + HOUR, now + 3 * HOUR).unwrap();
    assert!(slot1.overlaps(&slot2));
}

#[test]
fn test_non_overlapping_slots() {
    let now = now();
    let slot1 = TimeSlot::new(now, now + HOUR).unwrap();
    let slot2 = TimeSlot::new(now + 2 * HOUR, now + 3 * HOUR).unwrap();
    assert!(!slot1.overlaps(&slot2));
}

#[test]
fn equal_start_and_end_is_refused() {
    assert!(matches!(TimeSlot::new(5, 5), Err(ValidationError::EndBeforeStart)));
}

#[test]
fn slot_keeps_its_bounds() {
    let slot = TimeSlot::new(10, 20).unwrap();
    assert_eq!(slot.start(), 10);
    assert_eq!(slot.end(), 20);
}

#[test]
fn overlap_is_symmetric_and_reflexive() {
    let a = TimeSlot::new(0, 10).unwrap();
    let b = TimeSlot::new(5, 15).unwrap();
    assert_eq!(a.overlaps(&b), b.overlaps(&a));
    assert!(a.overlaps(&a));
}

#[test]
fn adjacent_slots_do_not_overlap() {
    let a = TimeSlot::new(0, 10).unwrap();
    let b = TimeSlot::new(10, 20).unwrap();
    assert!(!a.overlaps(&b));
    assert!(!b.overlaps(&a));
}

#[test]
fn slot_inside_another_overlaps() {
    let outer = TimeSlot::new(0, 100).unwrap();
    let inner = TimeSlot::new(40, 60).unwrap();
    assert!(outer.overlaps(&inner));
    assert!(inner.overlaps(&outer));
}

#[test]
fn new_future_at_checks_the_past_first() {
    assert!(matches!(
        TimeSlot::new_future_at(5, 1, 10),
        Err(ValidationError::ReservationInPast)
    ));
    assert!(matches!(
        TimeSlot::new_future_at(20, 15, 10),
        Err(ValidationError::EndBeforeStart)
    ));
    let slot = TimeSlot::new_future_at(10, 15, 10).unwrap();
    assert_eq!(slot.start(), 10);
    assert_eq!(slot.end(), 15);
}

#[test]
fn new_future_reads_the_clock() {
    let start = now() - HOUR;
    assert!(matches!(
        TimeSlot::new_future(start, start + 2 * HOUR),
        Err(ValidationError::ReservationInPast)
    ));
    let start = now() + HOUR;
    assert!(TimeSlot::new_future(start, start + HOUR).is_ok());
    assert!(matches!(
        TimeSlot::new_future(start, start - 1),
        Err(ValidationError::EndBeforeStart)
    ));
}
