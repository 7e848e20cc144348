use vstd::prelude::*;
use crate::application::{CreateUserCommand, DeleteUserCommand};
use crate::error::DomainError;
use crate::timestamp::{format_rfc3339, rfc3339_text};
use crate::user::{role_tag, status_tag, User};

verus! {

/// A user as the interface shows it: every field as text but the id.
pub struct UserDto {
    pub id: i64,
    pub name: String,
    pub email: String,
    pub role: String,
    pub status: String,
    pub created_at: String,
}

impl UserDto {
    /// The interface form of a user; the creation time is its RFC 3339
    /// text, empty where the instant has none.
    pub fn from_user(u: &User) -> (r: UserDto)
        ensures
            r.id == u.id.0,
            r.name@ == u.name@,
            r.email@ == u.email@,
            r.role@ == role_tag(u.role),
            r.status@ == status_tag(u.status),
            r.created_at@ == match rfc3339_text(u.created_at.seconds, u.created_at.nanos) {
                Some(t) => t,
                None => Seq::<char>::empty(),
            },
    {
        let created_at = match format_rfc3339(u.created_at) {
            Some(t) => t,
            None => String::new(),
        };
        UserDto {
            id: u.id.0,
            name: u.name.clone(),
            email: u.email.as_str().to_owned(),
            role: String::from_str(u.role.as_str()),
            status: String::from_str(u.status.as_str()),
            created_at,
        }
    }
}

/// The body of a create request; the role may be left out.
pub struct CreateUserRequest {
    pub name: String,
    pub email: String,
    pub role: Option<String>,
}

impl CreateUserRequest {
    /// The command for the request; a missing role reads as `User`.
    pub fn into_command(self) -> (r: CreateUserCommand)
        ensures
            r.name == self.name,
            r.email == self.email,
            r.role@ == match self.role {
                Some(t) => t@,
                None => "User"@,
            },
    {
        let role = match self.role {
            Some(t) => t,
            None => String::from_str("User"),
        };
        CreateUserCommand { name: self.name, email: self.email, role }
    }
}

/// The body of a delete request.
pub struct DeleteUserRequest {
    pub id: i64,
}

impl DeleteUserRequest {
    pub fn into_command(self) -> (r: DeleteUserCommand)
        ensures
            r.id == self.id,
    {
        DeleteUserCommand { id: self.id }
    }
}

/// The envelope of every answer to the interface.
pub struct ApiResponse<T> {
    pub success: bool,
    pub data: Option<T>,
    pub error: Option<String>,
}

impl<T> ApiResponse<T> {
    pub fn success(data: T) -> (r: ApiResponse<T>)
        ensures
            r.success,
            r.data == Some(data),
            r.error is None,
    {
        ApiResponse { success: true, data: Some(data), error: None }
    }

    pub fn error(message: String) -> (r: ApiResponse<T>)
        ensures
            !r.success,
            r.data is None,
            r.error == Some(message),
    {
        ApiResponse { success: false, data: None, error: Some(message) }
    }

    /// The answer for an outcome of the core: its value, or its error's
    /// message.
    pub fn from_outcome(outcome: Result<T, DomainError>) -> (r: ApiResponse<T>)
        ensures
            match outcome {
                Ok(v) => r.success && r.data == Some(v) && r.error is None,
                Err(e) => !r.success && r.data is None
                    && (r.error matches Some(m) && m@ == e.spec_prefix() + e.spec_detail()),
            },
    {
        match outcome {
            Ok(v) => ApiResponse::success(v),
            Err(e) => ApiResponse::error(e.message()),
        }
    }
}

} // verus!
