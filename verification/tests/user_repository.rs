use rs2026::common::error::{AppError, ConflictError, ValidationError};
use rs2026::db::Database;
use rs2026::user::repository::{create_user, create_user_at, get_user_by_id, user_exists};
use rs2026::user::types::{Email, UserResponse};
use rs2026::user::UserId;

fn test_pool() -> Database {
    Database::new()
}

#[test]
fn test_create_user() {
    let mut pool = test_pool();

    let email = Email::parse("TEST@TeSt.com").unwrap();
    let uname = "Test Testson";

    let user = create_user(&mut pool, &email, uname).unwrap();

    assert_eq!(user.id, 1);
    assert_eq!(user.email, "test@test.com");
    assert_eq!(user.name, "Test Testson");
}

#[test]
fn email_needs_an_at_sign() {
    assert!(matches!(Email::parse("xx"), Err(ValidationError::InvalidEmail)));
    assert!(Email::parse("a@b").is_ok());
}

#[test]
fn email_length_counts_bytes() {
    let ok = format!("{}@x", "a".repeat(252));
    assert_eq!(ok.len(), 254);
    assert!(Email::parse(&ok).is_ok());
    let too_long = format!("{}@x", "a".repeat(253));
    assert!(matches!(Email::parse(&too_long), Err(ValidationError::InvalidEmail)));
    // 127 two-byte characters and "@": 255 bytes although only 128 characters
    let wide = format!("{}@", "ä".repeat(127));
    assert!(matches!(Email::parse(&wide), Err(ValidationError::InvalidEmail)));
}

#[test]
fn email_is_kept_in_lower_case() {
    let email = Email::parse("ÄIJÄ@Example.COM").unwrap();
    assert_eq!(email.as_str(), "äijä@example.com");
}

#[test]
fn second_user_with_same_address_conflicts() {
    let mut db = test_pool();
    let email = Email::parse("a@b.fi").unwrap();
    create_user(&mut db, &email, "First").unwrap();
    let again = Email::parse("A@B.FI").unwrap();
    let result = create_user(&mut db, &again, "Second");
    assert!(matches!(
        result,
        Err(AppError::Conflict(ConflictError::EmailAlreadyExists))
    ));
    assert!(user_exists(&db, UserId(1)).unwrap());
    assert!(!user_exists(&db, UserId(2)).unwrap());
}

#[test]
fn users_get_keys_from_one_upwards() {
    let mut db = test_pool();
    let a = create_user_at(&mut db, &Email::parse("a@x").unwrap(), "A", 7).unwrap();
    let b = create_user_at(&mut db, &Email::parse("b@x").unwrap(), "B", 8).unwrap();
    assert_eq!(a.id, 1);
    assert_eq!(b.id, 2);
    assert_eq!(b.created_at, 8);
    let fetched = get_user_by_id(&db, UserId(2)).unwrap();
    assert_eq!(fetched.email, "b@x");
    assert_eq!(fetched.name, "B");
}

#[test]
fn missing_user_is_not_found() {
    let db = test_pool();
    match get_user_by_id(&db, UserId(1)) {
        Err(AppError::NotFound(msg)) => assert_eq!(msg, "Resource not found"),
        other => panic!("unexpected {:?}", other),
    }
    assert!(!user_exists(&db, UserId(0)).unwrap());
}

#[test]
fn user_response_formats_the_creation_time() {
    let mut db = test_pool();
    // 2026-01-21T14:00:00Z
    let user = create_user_at(&mut db, &Email::parse("a@x").unwrap(), "A", 1_769_004_000_000_000_000).unwrap();
    let response = UserResponse::from(user);
    assert_eq!(response.created_at, "2026-01-21T14:00:00+00:00");
    assert_eq!(response.email, "a@x");
}
