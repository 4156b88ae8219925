use rs2026::reservation::validation::ValidatedCreateReservation;
use rs2026::room::RoomId;
use rs2026::user::UserId;
use rs2026::reservation::handlers::create_reservation_at;
use rs2026::room::handlers::create_room_at;
use rs2026::user::handlers::create_user_at;
use rs2026::common::error::{AppError, ConflictError, ValidationError};
use rs2026::db::Database;
use rs2026::reservation::handlers::{cancel_reservation, create_reservation, list_reservations};
use rs2026::reservation::types::CreateReservationRequest;
use rs2026::room::handlers::{create_room, list_rooms};
use rs2026::room::types::{CreateRoomRequest, RoomFilter};
use rs2026::user::handlers::{create_user, get_user};
use rs2026::user::types::CreateUserRequest;

const HOUR: i64 = 3_600_000_000_000;

fn now() -> i64 {
    chrono::Utc::now().timestamp_nanos_opt().unwrap()
}

fn setup() -> Database {
    let mut db = Database::new();
    create_room(&mut db, CreateRoomRequest { name: "Neuvotteluhuone A".to_string(), capacity: 10 })
        .unwrap();
    create_room(&mut db, CreateRoomRequest { name: "B".to_string(), capacity: 4 }).unwrap();
    create_user(
        &mut db,
        CreateUserRequest { email: "Maija@Example.com".to_string(), name: "Maija".to_string() },
    )
    .unwrap();
    db
}

fn request(start: i64, end: i64) -> CreateReservationRequest {
    CreateReservationRequest { user_id: 1, start_time: start, end_time: end }
}

#[test]
fn user_requests() {
    let mut db = setup();
    let user = get_user(&db, 1).unwrap();
    assert_eq!(user.email, "maija@example.com");
    assert_eq!(user.name, "Maija");
    let bad = create_user(&mut db, CreateUserRequest { email: "xx".to_string(), name: "x".to_string() });
    assert!(matches!(bad, Err(AppError::Validation(ValidationError::InvalidEmail))));
    let dup = create_user(
        &mut db,
        CreateUserRequest { email: "maija@example.COM".to_string(), name: "M".to_string() },
    );
    assert!(matches!(dup, Err(AppError::Conflict(ConflictError::EmailAlreadyExists))));
    assert!(matches!(get_user(&db, 2), Err(AppError::NotFound(_))));
}

#[test]
fn room_requests() {
    let db = setup();
    let rooms = list_rooms(&db, RoomFilter { min_capacity: Some(5), max_capacity: Some(20) }).unwrap();
    assert_eq!(rooms.len(), 1);
    assert_eq!(rooms[0].name, "Neuvotteluhuone A");
    assert_eq!(rooms[0].id, 1);
}

#[test]
fn reservation_validation_order() {
    let mut db = setup();
    let t = now();
    assert!(matches!(
        create_reservation(&mut db, 1, request(t - HOUR, t - 2 * HOUR)),
        Err(AppError::Validation(ValidationError::ReservationInPast))
    ));
    assert!(matches!(
        create_reservation(&mut db, 1, request(t + 2 * HOUR, t + HOUR)),
        Err(AppError::Validation(ValidationError::EndBeforeStart))
    ));
    assert!(matches!(
        create_reservation(&mut db, 7, request(t + HOUR, t + 2 * HOUR)),
        Err(AppError::Validation(ValidationError::InvalidRoomId))
    ));
    let mut req = request(t + HOUR, t + 2 * HOUR);
    req.user_id = 5;
    assert!(matches!(
        create_reservation(&mut db, 1, req),
        Err(AppError::Validation(ValidationError::InvalidUserId))
    ));
    assert!(list_reservations(&db, 1).unwrap().is_empty());
}

#[test]
fn reserve_list_and_cancel() {
    let mut db = setup();
    // 2100-01-01T10:00:00Z and 11:00
    let start = 4_102_480_800_000_000_000;
    let created = create_reservation(&mut db, 1, request(start, start + HOUR)).unwrap();
    assert_eq!(created.id, 1);
    assert_eq!(created.status, "active");
    assert_eq!(created.start_time, "2100-01-01T10:00:00+00:00");
    assert_eq!(created.end_time, "2100-01-01T11:00:00+00:00");
    assert!(matches!(
        create_reservation(&mut db, 1, request(start + HOUR / 2, start + 2 * HOUR)),
        Err(AppError::Conflict(ConflictError::OverlappingReservation))
    ));
    assert!(create_reservation(&mut db, 2, request(start, start + HOUR)).is_ok());
    let listed = list_reservations(&db, 1).unwrap();
    assert_eq!(listed.len(), 1);
    assert_eq!(listed[0].id, 1);
    match cancel_reservation(&mut db, 2, 1) {
        Err(AppError::NotFound(msg)) => assert_eq!(msg, "Reservation not found in this room"),
        other => panic!("unexpected {:?}", other),
    }
    match cancel_reservation(&mut db, 1, 9) {
        Err(AppError::NotFound(msg)) => assert_eq!(msg, "Resource not found"),
        other => panic!("unexpected {:?}", other),
    }
    let cancelled = cancel_reservation(&mut db, 1, 1).unwrap();
    assert_eq!(cancelled.status, "cancelled");
    assert!(create_reservation(&mut db, 1, request(start, start + HOUR)).is_ok());
}

#[test]
fn validation_against_a_given_instant_runs_in_order() {
    let db = setup();
    let now = 1_000;
    // a past start wins over a missing room and a reversed slot
    assert!(matches!(
        ValidatedCreateReservation::new_at(&db, RoomId(9), UserId(9), 999, 10, now),
        Err(AppError::Validation(ValidationError::ReservationInPast))
    ));
    // an end not after the start wins over a missing room
    assert!(matches!(
        ValidatedCreateReservation::new_at(&db, RoomId(9), UserId(9), 1_000, 1_000, now),
        Err(AppError::Validation(ValidationError::EndBeforeStart))
    ));
    // the room is checked before the user
    assert!(matches!(
        ValidatedCreateReservation::new_at(&db, RoomId(9), UserId(9), 1_000, 2_000, now),
        Err(AppError::Validation(ValidationError::InvalidRoomId))
    ));
    assert!(matches!(
        ValidatedCreateReservation::new_at(&db, RoomId(1), UserId(9), 1_000, 2_000, now),
        Err(AppError::Validation(ValidationError::InvalidUserId))
    ));
    let v = ValidatedCreateReservation::new_at(&db, RoomId(1), UserId(1), 1_000, 2_000, now).unwrap();
    assert_eq!((v.room_id, v.user_id), (RoomId(1), UserId(1)));
    assert_eq!((v.time_slot.start(), v.time_slot.end()), (1_000, 2_000));
}

#[test]
fn reservation_at_a_given_instant() {
    let mut db = setup();
    let now = 1_000_000_000_000_000_000;
    let created = create_reservation_at(&mut db, 1, request(now + HOUR, now + 2 * HOUR), now, 7_000_000_000)
        .unwrap();
    assert_eq!(created.id, 1);
    assert_eq!(created.created_at, "1970-01-01T00:00:07+00:00");
    assert!(matches!(
        create_reservation_at(&mut db, 1, request(now - 1, now + HOUR), now, 0),
        Err(AppError::Validation(ValidationError::ReservationInPast))
    ));
    assert!(matches!(
        create_reservation_at(&mut db, 1, request(now + HOUR, now + 3 * HOUR), now, 0),
        Err(AppError::Conflict(ConflictError::OverlappingReservation))
    ));
}

#[test]
fn stored_rows_are_stamped_in_whole_seconds() {
    let mut db = Database::new();
    let room = rs2026::room::repository::create_room(&mut db, "A", 1).unwrap();
    assert_eq!(room.created_at % 1_000_000_000, 0);
    let resp = create_user(
        &mut db,
        CreateUserRequest { email: "x@y".to_string(), name: "X".to_string() },
    )
    .unwrap();
    assert!(!resp.created_at.contains('.'));
    let t = now();
    let created = create_reservation(&mut db, 1, request(t + HOUR, t + 2 * HOUR)).unwrap();
    assert!(!created.created_at.contains('.'));
}

#[test]
fn room_and_user_at_a_given_instant() {
    let mut db = Database::new();
    let room = create_room_at(&mut db, CreateRoomRequest { name: "A".to_string(), capacity: 2 }, 3_000_000_000).unwrap();
    assert_eq!(room.created_at, "1970-01-01T00:00:03+00:00");
    let user = create_user_at(
        &mut db,
        CreateUserRequest { email: "Q@Z".to_string(), name: "Q".to_string() },
        4_000_000_000,
    )
    .unwrap();
    assert_eq!(user.email, "q@z");
    assert_eq!(user.created_at, "1970-01-01T00:00:04+00:00");
    assert!(matches!(
        create_user_at(&mut db, CreateUserRequest { email: "bad".to_string(), name: "B".to_string() }, 0),
        Err(AppError::Validation(ValidationError::InvalidEmail))
    ));
}
