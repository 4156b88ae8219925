use rs2026::common::error::{AppError, ConflictError};
use rs2026::common::time::TimeSlot;
use rs2026::db::Database;
use rs2026::reservation::repository::{
    cancel_reservation, create_reservation, create_reservation_at, get_reservation_by_id,
    list_reservations_for_room,
};
use rs2026::reservation::validation::ValidatedCreateReservation;
use rs2026::reservation::ReservationId;
use rs2026::room::repository::create_room;
use rs2026::room::RoomId;
use rs2026::user::repository::create_user;
use rs2026::user::types::Email;
use rs2026::user::UserId;

const HOUR: i64 = 3_600_000_000_000;

fn test_pool() -> Database {
    Database::new()
}

fn create_test_validated_reservation(
    room_id: RoomId,
    user_id: UserId,
    start_hours_from_now: i64,
    duration_hours: i64,
) -> ValidatedCreateReservation {
    let start = chrono::Utc::now().timestamp_nanos_opt().unwrap() + start_hours_from_now * HOUR;
    let end = start + duration_hours * HOUR;
    let time_slot = TimeSlot::new(start, end).unwrap();

    ValidatedCreateReservation {
        room_id,
        user_id,
        time_slot,
    }
}

fn slot(room: i32, user: i32, start: i64, end: i64) -> ValidatedCreateReservation {
    ValidatedCreateReservation {
        room_id: RoomId(room),
        user_id: UserId(user),
        time_slot: TimeSlot::new(start, end).unwrap(),
    }
}

#[test]
fn test_create_reservation() {
    let mut pool = test_pool();

    let room = create_room(&mut pool, "Huone", 10).unwrap();
    let email = Email::parse("test@test.com").unwrap();
    let user = create_user(&mut pool, &email, "Testi Käyttäjä").unwrap();

    let validated = create_test_validated_reservation(RoomId(room.id), UserId(user.id), 1, 2);

    let reservation = create_reservation(&mut pool, validated).unwrap();

    assert_eq!(reservation.id, 1);
    assert_eq!(reservation.room_id, room.id);
    assert_eq!(reservation.user_id, user.id);
    assert_eq!(reservation.status, "active");
}

#[test]
fn test_create_reservation_overlapping() {
    let mut pool = test_pool();

    let room = create_room(&mut pool, "Huone", 10).unwrap();
    let email = Email::parse("test@test.com").unwrap();
    let user = create_user(&mut pool, &email, "Testi Käyttäjä").unwrap();

    // Create first reservation: hours 1-3
    let validated1 = create_test_validated_reservation(RoomId(room.id), UserId(user.id), 1, 2);
    create_reservation(&mut pool, validated1).unwrap();

    // Try to create overlapping reservation: hours 2-4
    let validated2 = create_test_validated_reservation(RoomId(room.id), UserId(user.id), 2, 2);
    let result = create_reservation(&mut pool, validated2);

    assert!(matches!(
        result,
        Err(AppError::Conflict(ConflictError::OverlappingReservation))
    ));
}

#[test]
fn test_get_reservation_by_id() {
    let mut pool = test_pool();

    let room = create_room(&mut pool, "Huone", 10).unwrap();
    let email = Email::parse("test@test.com").unwrap();
    let user = create_user(&mut pool, &email, "Testi Käyttäjä").unwrap();

    let validated = create_test_validated_reservation(RoomId(room.id), UserId(user.id), 1, 2);
    let created = create_reservation(&mut pool, validated).unwrap();

    let fetched = get_reservation_by_id(&pool, ReservationId(created.id)).unwrap();

    assert_eq!(fetched.id, created.id);
    assert_eq!(fetched.room_id, room.id);
}

#[test]
fn test_list_reservations_for_room() {
    let mut pool = test_pool();

    let room1 = create_room(&mut pool, "Huone 1", 10).unwrap();
    let room2 = create_room(&mut pool, "Huone 2", 10).unwrap();
    let email = Email::parse("test@test.com").unwrap();
    let user = create_user(&mut pool, &email, "Testi Käyttäjä").unwrap();

    // Create reservations for room1
    let v1 = create_test_validated_reservation(RoomId(room1.id), UserId(user.id), 1, 1);
    let v2 = create_test_validated_reservation(RoomId(room1.id), UserId(user.id), 3, 1);
    create_reservation(&mut pool, v1).unwrap();
    create_reservation(&mut pool, v2).unwrap();

    // Create reservation for room2
    let v3 = create_test_validated_reservation(RoomId(room2.id), UserId(user.id), 1, 1);
    create_reservation(&mut pool, v3).unwrap();

    let room1_reservations = list_reservations_for_room(&pool, RoomId(room1.id)).unwrap();
    let room2_reservations = list_reservations_for_room(&pool, RoomId(room2.id)).unwrap();

    assert_eq!(room1_reservations.len(), 2);
    assert_eq!(room2_reservations.len(), 1);
}

#[test]
fn test_cancel_reservation() {
    let mut pool = test_pool();

    let room = create_room(&mut pool, "Huone", 10).unwrap();
    let email = Email::parse("test@test.com").unwrap();
    let user = create_user(&mut pool, &email, "Testi Käyttäjä").unwrap();

    let validated = create_test_validated_reservation(RoomId(room.id), UserId(user.id), 1, 2);
    let reservation = create_reservation(&mut pool, validated).unwrap();

    assert_eq!(reservation.status, "active");

    let cancelled = cancel_reservation(&mut pool, ReservationId(reservation.id)).unwrap();

    assert_eq!(cancelled.status, "cancelled");
}

#[test]
fn test_cancelled_reservation_does_not_block_new() {
    let mut pool = test_pool();

    let room = create_room(&mut pool, "Huone", 10).unwrap();
    let email = Email::parse("test@test.com").unwrap();
    let user = create_user(&mut pool, &email, "Testi Käyttäjä").unwrap();

    // Create and cancel a reservation
    let validated1 = create_test_validated_reservation(RoomId(room.id), UserId(user.id), 1, 2);
    let reservation = create_reservation(&mut pool, validated1).unwrap();
    cancel_reservation(&mut pool, ReservationId(reservation.id)).unwrap();

    // Create new reservation for same time slot - should succeed
    let validated2 = create_test_validated_reservation(RoomId(room.id), UserId(user.id), 1, 2);
    let new_reservation = create_reservation(&mut pool, validated2);

    assert!(new_reservation.is_ok());
}

#[test]
fn listing_is_ordered_by_start_then_key() {
    let mut db = test_pool();
    create_reservation_at(&mut db, slot(1, 1, 300, 400), 0).unwrap();
    create_reservation_at(&mut db, slot(1, 1, 100, 200), 0).unwrap();
    create_reservation_at(&mut db, slot(2, 1, 100, 200), 0).unwrap();
    let r4 = create_reservation_at(&mut db, slot(1, 1, 200, 300), 0).unwrap();
    cancel_reservation(&mut db, ReservationId(r4.id)).unwrap();
    create_reservation_at(&mut db, slot(1, 1, 200, 250), 0).unwrap();
    let list = list_reservations_for_room(&db, RoomId(1)).unwrap();
    let keys: Vec<i32> = list.iter().map(|r| r.id).collect();
    assert_eq!(keys, vec![2, 4, 5, 1]);
    assert_eq!(list[1].status, "cancelled");
    assert!(list_reservations_for_room(&db, RoomId(9)).unwrap().is_empty());
}

#[test]
fn other_rooms_and_touching_slots_do_not_conflict() {
    let mut db = test_pool();
    create_reservation_at(&mut db, slot(1, 1, 100, 200), 0).unwrap();
    assert!(create_reservation_at(&mut db, slot(2, 1, 100, 200), 0).is_ok());
    assert!(create_reservation_at(&mut db, slot(1, 1, 200, 300), 0).is_ok());
    assert!(create_reservation_at(&mut db, slot(1, 1, 50, 100), 0).is_ok());
    let result = create_reservation_at(&mut db, slot(1, 2, 150, 160), 0);
    assert!(matches!(
        result,
        Err(AppError::Conflict(ConflictError::OverlappingReservation))
    ));
}

#[test]
fn created_reservation_reads_back() {
    let mut db = test_pool();
    let created = create_reservation_at(&mut db, slot(3, 4, 10, 20), 99).unwrap();
    let fetched = get_reservation_by_id(&db, ReservationId(created.id)).unwrap();
    assert_eq!(fetched.id, 1);
    assert_eq!(fetched.room_id, 3);
    assert_eq!(fetched.user_id, 4);
    assert_eq!(fetched.start_time, 10);
    assert_eq!(fetched.end_time, 20);
    assert_eq!(fetched.status, "active");
    assert_eq!(fetched.created_at, 99);
    assert!(fetched.is_active());
    let slot = fetched.time_slot();
    assert_eq!((slot.start(), slot.end()), (10, 20));
}

#[test]
fn cancel_twice_and_missing_reservations() {
    let mut db = test_pool();
    let created = create_reservation_at(&mut db, slot(1, 1, 10, 20), 0).unwrap();
    let once = cancel_reservation(&mut db, ReservationId(created.id)).unwrap();
    let twice = cancel_reservation(&mut db, ReservationId(created.id)).unwrap();
    assert_eq!(once.status, "cancelled");
    assert_eq!(twice.status, "cancelled");
    assert!(!twice.is_active());
    match cancel_reservation(&mut db, ReservationId(2)) {
        Err(AppError::NotFound(msg)) => assert_eq!(msg, "Resource not found"),
        other => panic!("unexpected {:?}", other),
    }
    assert!(matches!(
        get_reservation_by_id(&db, ReservationId(0)),
        Err(AppError::NotFound(_))
    ));
}
