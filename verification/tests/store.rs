use rs2026::common::time::TimeSlot;
use rs2026::reservation::repository::{cancel_reservation, create_reservation_at};
use rs2026::reservation::validation::ValidatedCreateReservation;
use rs2026::room::repository::create_room_at;
use rs2026::room::RoomId;
use rs2026::user::repository::create_user_at;
use rs2026::user::types::Email;
use rs2026::user::UserId;
use rs2026::db::Database;
use rs2026::reservation::types::{Reservation, ReservationStatus};
use rs2026::reservation::ReservationId;
use rs2026::room::types::Room;
use rs2026::user::types::User;

fn room(id: i32) -> Room {
    Room { id, name: format!("r{}", id), capacity: 5, created_at: 0 }
}

fn user(id: i32, email: &str) -> User {
    User { id, email: email.to_string(), name: "n".to_string(), created_at: 0 }
}

fn reservation(id: i32, room_id: i32, start: i64, end: i64, status: &str) -> Reservation {
    Reservation {
        id,
        room_id,
        user_id: 1,
        start_time: start,
        end_time: end,
        status: status.to_string(),
        created_at: 0,
    }
}

#[test]
fn restore_accepts_well_formed_rows() {
    let db = Database::restore(
        vec![room(1), room(2)],
        vec![user(1, "a@x"), user(2, "b@x")],
        vec![
            reservation(1, 1, 0, 10, "active"),
            reservation(2, 1, 5, 15, "cancelled"),
            reservation(3, 1, 10, 20, "active"),
            reservation(4, 2, 0, 10, "active"),
        ],
    )
    .unwrap();
    assert_eq!(db.room_count(), 2);
    assert_eq!(db.user_count(), 2);
    assert_eq!(db.reservation_count(), 4);
    assert_eq!(db.reservation_at(1).status, ReservationStatus::Cancelled);
    let back = rs2026::reservation::repository::get_reservation_by_id(&db, ReservationId(3)).unwrap();
    assert_eq!(back.status, "active");
}

#[test]
fn restore_refuses_broken_rows() {
    assert!(Database::restore(vec![room(2)], vec![], vec![]).is_none());
    assert!(Database::restore(vec![], vec![user(1, "a@x"), user(2, "a@x")], vec![]).is_none());
    assert!(Database::restore(vec![], vec![], vec![reservation(1, 1, 0, 10, "done")]).is_none());
    assert!(Database::restore(vec![], vec![], vec![reservation(1, 1, 10, 10, "active")]).is_none());
    assert!(Database::restore(
        vec![],
        vec![],
        vec![reservation(1, 1, 0, 10, "active"), reservation(2, 1, 9, 12, "active")]
    )
    .is_none());
}

#[test]
fn status_texts_round_trip() {
    for status in [ReservationStatus::Active, ReservationStatus::Cancelled] {
        assert_eq!(ReservationStatus::parse(status.as_str()), Ok(status));
        assert_eq!(status.as_str().parse::<ReservationStatus>(), Ok(status));
    }
    assert!(ReservationStatus::parse("Active").is_err());
}

#[test]
fn rows_written_out_restore_the_same_store() {

    let mut db = Database::new();
    create_room_at(&mut db, "A", 3, 1).unwrap();
    create_user_at(&mut db, &Email::parse("u@x").unwrap(), "U", 2).unwrap();
    for (start, end) in [(0, 10), (10, 20)] {
        let v = ValidatedCreateReservation {
            room_id: RoomId(1),
            user_id: UserId(1),
            time_slot: TimeSlot::new(start, end).unwrap(),
        };
        create_reservation_at(&mut db, v, 3).unwrap();
    }
    cancel_reservation(&mut db, ReservationId(1)).unwrap();

    let rooms: Vec<Room> = (0..db.room_count()).map(|i| db.room_at(i).clone()).collect();
    let users: Vec<User> = (0..db.user_count()).map(|i| db.user_at(i).clone()).collect();
    let reservations: Vec<Reservation> =
        (0..db.reservation_count()).map(|i| db.reservation_at(i).to_reservation()).collect();
    let back = Database::restore(rooms, users, reservations).unwrap();
    assert_eq!(back.room_count(), 1);
    assert_eq!(back.room_at(0).name, "A");
    assert_eq!(back.user_at(0).email, "u@x");
    assert_eq!(back.reservation_at(0), db.reservation_at(0));
    assert_eq!(back.reservation_at(1), db.reservation_at(1));
    assert_eq!(back.reservation_at(0).status, ReservationStatus::Cancelled);
}
