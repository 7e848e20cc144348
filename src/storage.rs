use vstd::prelude::*;
use crate::error::DomainError;
use crate::timestamp::{format_rfc3339, parse_rfc3339, rfc3339_instant, rfc3339_text, Timestamp};
use crate::user::{
    role_from_tag, role_tag, status_from_tag, status_tag, valid_email, Email, NewUser, User,
    UserId, UserRole, UserStatus,
};

verus! {

/// The statement that creates the users table when it is absent.
pub const USERS_TABLE_SCHEMA: &'static str = "CREATE TABLE IF NOT EXISTS users (
    id INTEGER PRIMARY KEY AUTOINCREMENT,
    name TEXT NOT NULL,
    email TEXT NOT NULL UNIQUE,
    role TEXT NOT NULL,
    status TEXT NOT NULL DEFAULT 'Active',
    created_at TEXT NOT NULL
)";

/// One row of the users table as the driver hands it over.
pub struct UserRow {
    pub id: i64,
    pub name: String,
    pub email: String,
    pub role: String,
    pub status: String,
    pub created_at: String,
}

/// `u` is what the row `row` reads as: its id, name and address, the role
/// and status its tags name, and the instant its creation text denotes.
pub open spec fn decoded_from(row: UserRow, u: User) -> bool {
    u.id.0 == row.id && u.name@ == row.name@ && u.email@ == row.email@
        && u.role == role_from_tag(row.role@) && u.status == status_from_tag(row.status@)
        && rfc3339_instant(row.created_at@) == Some((u.created_at.seconds, u.created_at.nanos))
}

/// Decodes a stored row. Role and status tags fall back to their defaults;
/// an address that breaks the validation rule, or a creation time that is
/// not RFC 3339, fails with `InvalidOperation`.
pub fn user_from_row(row: UserRow) -> (r: Result<User, DomainError>)
    ensures
        (valid_email(row.email@) && rfc3339_instant(row.created_at@) is Some) <==> r is Ok,
        r matches Ok(u) ==> decoded_from(row, u),
        r matches Err(e) ==> e is InvalidOperation,
{
    let email = match Email::new(row.email.as_str()) {
        Ok(e) => e,
        Err(_) => {
            return Err(DomainError::InvalidOperation(String::from_str("Stored email is malformed")));
        },
    };
    let created_at = match parse_rfc3339(row.created_at.as_str()) {
        Some(t) => t,
        None => {
            return Err(DomainError::InvalidOperation(String::from_str("Stored timestamp is malformed")));
        },
    };
    Ok(User {
        id: UserId(row.id),
        name: row.name,
        email,
        role: UserRole::from_str(row.role.as_str()),
        status: UserStatus::from_str(row.status.as_str()),
        created_at,
    })
}

/// The values written by an insertion, in column order after the id.
pub struct InsertRow {
    pub name: String,
    pub email: String,
    pub role: String,
    pub status: String,
    pub created_at: String,
}

/// `row` is what inserting `user` with creation time `t` writes: name and
/// address as given, the role's tag, status `Active`, and the RFC 3339 text
/// of `t`.
pub open spec fn encoded_from(user: NewUser, t: Timestamp, row: InsertRow) -> bool {
    row.name@ == user.name@ && row.email@ == user.email@ && row.role@ == role_tag(user.role)
        && row.status@ == status_tag(UserStatus::Active)
        && rfc3339_text(t.seconds, t.nanos) == Some(row.created_at@)
}

/// Encodes a new user for insertion with status `Active` and the given
/// creation time; a time that has no RFC 3339 text fails with
/// `InvalidOperation`.
pub fn insert_row(user: &NewUser, created_at: Timestamp) -> (r: Result<InsertRow, DomainError>)
    ensures
        rfc3339_text(created_at.seconds, created_at.nanos) is Some <==> r is Ok,
        r matches Ok(row) ==> encoded_from(*user, created_at, row),
        r matches Err(e) ==> e is InvalidOperation,
{
    let stamp = match format_rfc3339(created_at) {
        Some(s) => s,
        None => {
            return Err(DomainError::InvalidOperation(String::from_str("Creation time out of range")));
        },
    };
    Ok(InsertRow {
        name: user.name.clone(),
        email: user.email.as_str().to_owned(),
        role: String::from_str(user.role.as_str()),
        status: String::from_str(UserStatus::Active.as_str()),
        created_at: stamp,
    })
}

/// The outcome of a deletion that changed `rows` rows: deleting an id that
/// is not stored fails with `NotFound`.
pub fn delete_outcome(rows: usize) -> (r: Result<(), DomainError>)
    ensures
        r is Ok <==> rows > 0,
        r matches Err(e) ==> e is NotFound,
{
    if rows == 0 {
        Err(DomainError::NotFound(String::from_str("User not found")))
    } else {
        Ok(())
    }
}

} // verus!
