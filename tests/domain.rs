use app_core::json::parse_decimal;
use app_core::error::{storage_error, DomainError, StorageFailure};
use app_core::events::{DomainEvent, PayloadValue, UserCreatedEvent, UserDeletedEvent, UserUpdatedEvent};
use app_core::storage::{delete_outcome, insert_row, user_from_row, UserRow, USERS_TABLE_SCHEMA};
use app_core::timestamp::Timestamp;
use app_core::user::{Email, NewUser, User, UserId, UserRole, UserStatus};

fn new_user(name: &str, email: &str, role: UserRole) -> NewUser {
    NewUser { name: name.to_string(), email: Email::new(email).unwrap(), role }
}

#[test]
fn email_accepts_at_and_dot() {
    let e = Email::new("alice@example.com").unwrap();
    assert_eq!(e.as_str(), "alice@example.com");
}

#[test]
fn email_without_at_is_validation_error() {
    for raw in ["alice.example.com", "", "plain", "a.b.c"] {
        match Email::new(raw) {
            Err(DomainError::ValidationError(_)) => {}
            other => panic!("unexpected {:?}", other),
        }
    }
}

#[test]
fn email_error_names_the_refused_text() {
    match Email::new("nobody") {
        Err(DomainError::ValidationError(m)) => assert_eq!(m, "Invalid email format: nobody"),
        other => panic!("unexpected {:?}", other),
    }
}

#[test]
fn decimal_text_parses_like_std() {
    for t in ["0", "42", "-17", "+5", "007", "9223372036854775807", "-9223372036854775808",
              "9223372036854775808", "-9223372036854775809", "", "-", "+", "1a", " 1", "99999999999999999999", "٣"] {
        assert_eq!(parse_decimal(t), t.parse::<i64>().ok(), "text {:?}", t);
    }
}

#[test]
fn email_without_dot_is_validation_error() {
    assert!(matches!(Email::new("alice@localhost"), Err(DomainError::ValidationError(_))));
}

#[test]
fn role_tags_round_trip() {
    for r in [UserRole::Admin, UserRole::User, UserRole::Guest] {
        assert_eq!(UserRole::from_str(r.as_str()), r);
    }
    assert_eq!(UserRole::Admin.as_str(), "Admin");
    assert_eq!(UserRole::Guest.as_str(), "Guest");
    assert_eq!(UserRole::User.as_str(), "User");
}

#[test]
fn unknown_role_tag_falls_back_to_user() {
    assert_eq!(UserRole::from_str("Superuser"), UserRole::User);
    assert_eq!(UserRole::from_str("admin"), UserRole::User);
    assert_eq!(UserRole::from_str(""), UserRole::User);
}

#[test]
fn status_tags_round_trip() {
    for s in [UserStatus::Active, UserStatus::Inactive, UserStatus::Suspended] {
        assert_eq!(UserStatus::from_str(s.as_str()), s);
    }
    assert_eq!(UserStatus::Suspended.as_str(), "Suspended");
}

#[test]
fn unknown_status_tag_falls_back_to_active() {
    assert_eq!(UserStatus::from_str("Pending"), UserStatus::Active);
    assert_eq!(UserStatus::from_str("inactive"), UserStatus::Active);
}

#[test]
fn create_stamps_active_and_id_zero() {
    let u = User::create(new_user("Alice", "alice@example.com", UserRole::Admin)).unwrap();
    assert_eq!(u.id, UserId(0));
    assert_eq!(u.name, "Alice");
    assert_eq!(u.email.as_str(), "alice@example.com");
    assert_eq!(u.role, UserRole::Admin);
    assert_eq!(u.status, UserStatus::Active);
    assert!(u.created_at.seconds > 1_600_000_000);
}

#[test]
fn create_with_empty_name_is_validation_error() {
    let r = User::create(new_user("", "alice@example.com", UserRole::User));
    assert!(matches!(r, Err(DomainError::ValidationError(_))));
}

#[test]
fn error_messages_name_their_kind() {
    assert_eq!(DomainError::ValidationError("x".to_string()).message(), "Validation error: x");
    assert_eq!(DomainError::NotFound("y".to_string()).message(), "Not found: y");
    assert_eq!(DomainError::AlreadyExists("z".to_string()).message(), "Already exists: z");
    assert_eq!(DomainError::InvalidOperation("w".to_string()).message(), "Invalid operation: w");
}

#[test]
fn storage_failures_map_to_error_kinds() {
    match storage_error(StorageFailure::NoRows) {
        DomainError::NotFound(m) => assert_eq!(m, "Record not found"),
        other => panic!("unexpected {:?}", other),
    }
    match storage_error(StorageFailure::UniqueViolation("users.email".to_string())) {
        DomainError::AlreadyExists(m) => assert_eq!(m, "users.email"),
        other => panic!("unexpected {:?}", other),
    }
    match storage_error(StorageFailure::Other("disk I/O error".to_string())) {
        DomainError::InvalidOperation(m) => assert_eq!(m, "disk I/O error"),
        other => panic!("unexpected {:?}", other),
    }
}

fn row(email: &str, role: &str, status: &str, created_at: &str) -> UserRow {
    UserRow {
        id: 7,
        name: "Bob".to_string(),
        email: email.to_string(),
        role: role.to_string(),
        status: status.to_string(),
        created_at: created_at.to_string(),
    }
}

#[test]
fn row_decodes_to_user() {
    let u = user_from_row(row("bob@example.com", "Guest", "Suspended", "2015-05-15T00:00:00Z")).unwrap();
    assert_eq!(u.id, UserId(7));
    assert_eq!(u.name, "Bob");
    assert_eq!(u.email.as_str(), "bob@example.com");
    assert_eq!(u.role, UserRole::Guest);
    assert_eq!(u.status, UserStatus::Suspended);
    assert_eq!(u.created_at, Timestamp { seconds: 1431648000, nanos: 0 });
}

#[test]
fn row_creation_time_reads_offsets_and_fractions() {
    let u = user_from_row(row("bob@example.com", "User", "Active", "2015-05-15T02:00:00.5+02:00")).unwrap();
    assert_eq!(u.created_at, Timestamp { seconds: 1431648000, nanos: 500_000_000 });
}

#[test]
fn row_with_unknown_tags_uses_defaults() {
    let u = user_from_row(row("bob@example.com", "Owner", "Gone", "2015-05-15T00:00:00Z")).unwrap();
    assert_eq!(u.role, UserRole::User);
    assert_eq!(u.status, UserStatus::Active);
}

#[test]
fn row_with_bad_timestamp_is_invalid_operation() {
    let r = user_from_row(row("bob@example.com", "User", "Active", "not a time"));
    assert!(matches!(r, Err(DomainError::InvalidOperation(_))));
}

#[test]
fn row_with_bad_email_is_invalid_operation() {
    let r = user_from_row(row("bob", "User", "Active", "2015-05-15T00:00:00Z"));
    assert!(matches!(r, Err(DomainError::InvalidOperation(_))));
}

#[test]
fn insert_row_encodes_tags_and_time() {
    let nu = new_user("Carol", "carol@example.com", UserRole::Guest);
    let r = insert_row(&nu, Timestamp { seconds: 1431648000, nanos: 0 }).unwrap();
    assert_eq!(r.name, "Carol");
    assert_eq!(r.email, "carol@example.com");
    assert_eq!(r.role, "Guest");
    assert_eq!(r.status, "Active");
    assert_eq!(r.created_at, "2015-05-15T00:00:00+00:00");
}

#[test]
fn insert_row_out_of_range_time_is_invalid_operation() {
    let nu = new_user("Carol", "carol@example.com", UserRole::Guest);
    let r = insert_row(&nu, Timestamp { seconds: i64::MAX, nanos: 0 });
    assert!(matches!(r, Err(DomainError::InvalidOperation(_))));
}

#[test]
fn written_row_reads_back_the_same_user() {
    for role in [UserRole::Admin, UserRole::User, UserRole::Guest] {
        let nu = new_user("Dan", "dan@example.org", role);
        let w = insert_row(&nu, Timestamp { seconds: 1700000000, nanos: 123 }).unwrap();
        let back = user_from_row(UserRow {
            id: 3,
            name: w.name,
            email: w.email,
            role: w.role,
            status: w.status,
            created_at: w.created_at,
        })
        .unwrap();
        assert_eq!(back.name, "Dan");
        assert_eq!(back.email.as_str(), "dan@example.org");
        assert_eq!(back.role, role);
        assert_eq!(back.status, UserStatus::Active);
        assert_eq!(back.created_at, Timestamp { seconds: 1700000000, nanos: 123 });
    }
}

#[test]
fn delete_of_no_row_is_not_found() {
    assert!(matches!(delete_outcome(0), Err(DomainError::NotFound(_))));
    assert!(delete_outcome(1).is_ok());
}

#[test]
fn schema_declares_the_users_table() {
    assert!(USERS_TABLE_SCHEMA.contains("CREATE TABLE IF NOT EXISTS users"));
    assert!(USERS_TABLE_SCHEMA.contains("email TEXT NOT NULL UNIQUE"));
    assert!(USERS_TABLE_SCHEMA.contains("status TEXT NOT NULL DEFAULT 'Active'"));
}

#[test]
fn user_events_carry_type_subject_and_payload() {
    let c = UserCreatedEvent::new(UserId(42), "Eve".to_string(), "eve@example.com".to_string());
    assert_eq!(c.event_type(), "user.created");
    assert_eq!(c.aggregate_id(), "42");
    let p = c.payload();
    assert_eq!(p.fields.len(), 3);
    assert_eq!(p.fields[0].key, "user_id");
    assert_eq!(p.fields[0].value, PayloadValue::Int(42));
    assert_eq!(p.fields[2].value, PayloadValue::Text("eve@example.com".to_string()));

    let d = UserDeletedEvent::new(UserId(-17));
    assert_eq!(d.event_type(), "user.deleted");
    assert_eq!(d.aggregate_id(), "-17");

    let u = UserUpdatedEvent::new(UserId(1234567890), None, Some("x@y.z".to_string()));
    assert_eq!(u.event_type(), "user.updated");
    assert_eq!(u.aggregate_id(), "1234567890");
    assert_eq!(u.payload().fields[1].value, PayloadValue::Null);
}

#[test]
fn aggregate_id_of_extreme_ids() {
    assert_eq!(UserDeletedEvent::new(UserId(i64::MIN)).aggregate_id(), "-9223372036854775808");
    assert_eq!(UserDeletedEvent::new(UserId(i64::MAX)).aggregate_id(), "9223372036854775807");
    assert_eq!(UserDeletedEvent::new(UserId(0)).aggregate_id(), "0");
}
