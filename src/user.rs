use vstd::prelude::*;
use crate::error::DomainError;
use crate::mvvm::{EmailError, ValueObject};
use crate::text::{has_char, same_text};
use crate::timestamp::{now_utc, Timestamp};

verus! {

/// Identifier of a stored user; 0 before the repository assigns one.
#[derive(Clone, Copy, Debug, PartialEq, Eq, Structural)]
pub struct UserId(pub i64);

/// The validation rule for e-mail addresses: an `@` and at least one `.`.
pub open spec fn valid_email(s: Seq<char>) -> bool {
    s.contains('@') && s.contains('.')
}

/// A validated e-mail address.
#[derive(Debug)]
pub struct Email {
    address: String,
}

impl View for Email {
    type V = Seq<char>;

    closed spec fn view(&self) -> Seq<char> {
        self.address@
    }
}

impl Email {
    #[verifier::type_invariant]
    pub closed spec fn well_formed(self) -> bool {
        valid_email(self.address@)
    }

    /// Accepts `raw` when it holds an `@` and a `.`; otherwise fails with a
    /// `ValidationError`.
    pub fn new(raw: &str) -> (r: Result<Email, DomainError>)
        ensures
            valid_email(raw@) <==> r is Ok,
            r matches Ok(e) ==> e@ == raw@,
            r matches Err(e) ==> e is ValidationError && e.spec_detail() == "Invalid email format: "@ + raw@,
    {
        if has_char(raw, '@') && has_char(raw, '.') {
            Ok(Email { address: raw.to_owned() })
        } else {
            Err(DomainError::ValidationError(String::from_str("Invalid email format: ").concat(raw)))
        }
    }

    /// The address as text.
    pub fn as_str(&self) -> (r: &str)
        ensures
            r@ == self@,
    {
        self.address.as_str()
    }

    /// A copy of the address.
    pub fn duplicate(&self) -> (r: Email)
        ensures
            r@ == self@,
    {
        proof { use_type_invariant(self); }
        Email { address: self.address.clone() }
    }
}

impl ValueObject for Email {
    type ValidationError = EmailError;

    /// An address obeys the rule from construction on, so this never fails.
    fn validate(&self) -> (r: Result<(), EmailError>)
        ensures
            r is Ok,
            valid_email(self@),
    {
        proof {
            use_type_invariant(self);
        }
        Ok(())
    }
}

/// The role of a user.
#[derive(Clone, Copy, Debug, PartialEq, Eq, Structural)]
pub enum UserRole {
    Admin,
    User,
    Guest,
}

/// The text tag of a role.
pub open spec fn role_tag(r: UserRole) -> Seq<char> {
    match r {
        UserRole::Admin => "Admin"@,
        UserRole::User => "User"@,
        UserRole::Guest => "Guest"@,
    }
}

/// The role a tag names; any tag but `Admin` and `Guest` reads as `User`.
pub open spec fn role_from_tag(s: Seq<char>) -> UserRole {
    if s == "Admin"@ {
        UserRole::Admin
    } else if s == "Guest"@ {
        UserRole::Guest
    } else {
        UserRole::User
    }
}

impl UserRole {
    pub fn as_str(&self) -> (r: &'static str)
        ensures
            r@ == role_tag(*self),
    {
        match self {
            UserRole::Admin => "Admin",
            UserRole::User => "User",
            UserRole::Guest => "Guest",
        }
    }

    /// Reads a tag; an unrecognized tag falls back to `User`, never an error.
    pub fn from_str(s: &str) -> (r: UserRole)
        ensures
            r == role_from_tag(s@),
    {
        if same_text(s, "Admin") {
            UserRole::Admin
        } else if same_text(s, "Guest") {
            UserRole::Guest
        } else {
            UserRole::User
        }
    }
}

/// The status of a user.
#[derive(Clone, Copy, Debug, PartialEq, Eq, Structural)]
pub enum UserStatus {
    Active,
    Inactive,
    Suspended,
}

/// The text tag of a status.
pub open spec fn status_tag(s: UserStatus) -> Seq<char> {
    match s {
        UserStatus::Active => "Active"@,
        UserStatus::Inactive => "Inactive"@,
        UserStatus::Suspended => "Suspended"@,
    }
}

/// The status a tag names; any tag but `Inactive` and `Suspended` reads as
/// `Active`.
pub open spec fn status_from_tag(s: Seq<char>) -> UserStatus {
    if s == "Inactive"@ {
        UserStatus::Inactive
    } else if s == "Suspended"@ {
        UserStatus::Suspended
    } else {
        UserStatus::Active
    }
}

impl UserStatus {
    pub fn as_str(&self) -> (r: &'static str)
        ensures
            r@ == status_tag(*self),
    {
        match self {
            UserStatus::Active => "Active",
            UserStatus::Inactive => "Inactive",
            UserStatus::Suspended => "Suspended",
        }
    }

    /// Reads a tag; an unrecognized tag falls back to `Active`, never an error.
    pub fn from_str(s: &str) -> (r: UserStatus)
        ensures
            r == status_from_tag(s@),
    {
        if same_text(s, "Inactive") {
            UserStatus::Inactive
        } else if same_text(s, "Suspended") {
            UserStatus::Suspended
        } else {
            UserStatus::Active
        }
    }
}

/// Every role survives the trip to its tag and back.
pub proof fn lemma_role_tag_round_trip(r: UserRole)
    ensures
        role_from_tag(role_tag(r)) == r,
{
    reveal_strlit("Admin");
    reveal_strlit("User");
    reveal_strlit("Guest");
    assert("Admin"@[0] != "Guest"@[0]);
    assert("User"@.len() != "Admin"@.len());
    assert("User"@.len() != "Guest"@.len());
}

/// Every status survives the trip to its tag and back.
pub proof fn lemma_status_tag_round_trip(s: UserStatus)
    ensures
        status_from_tag(status_tag(s)) == s,
{
    reveal_strlit("Active");
    reveal_strlit("Inactive");
    reveal_strlit("Suspended");
    assert("Inactive"@.len() != "Suspended"@.len());
    assert("Active"@.len() != "Inactive"@.len());
    assert("Active"@.len() != "Suspended"@.len());
}

/// The payload of the create command: a user before it is stored.
#[derive(Debug)]
pub struct NewUser {
    pub name: String,
    pub email: Email,
    pub role: UserRole,
}

impl NewUser {
    pub fn duplicate(&self) -> (r: NewUser)
        ensures
            r.name@ == self.name@,
            r.email@ == self.email@,
            r.role == self.role,
    {
        NewUser { name: self.name.clone(), email: self.email.duplicate(), role: self.role }
    }
}

/// The user aggregate.
#[derive(Debug)]
pub struct User {
    pub id: UserId,
    pub name: String,
    pub email: Email,
    pub role: UserRole,
    pub status: UserStatus,
    pub created_at: Timestamp,
}

/// The plain-value form of a user, which contracts compare.
pub struct UserView {
    pub id: i64,
    pub name: Seq<char>,
    pub email: Seq<char>,
    pub role: UserRole,
    pub status: UserStatus,
    pub created_at: Timestamp,
}

impl View for User {
    type V = UserView;

    open spec fn view(&self) -> UserView {
        UserView {
            id: self.id.0,
            name: self.name@,
            email: self.email@,
            role: self.role,
            status: self.status,
            created_at: self.created_at,
        }
    }
}

impl User {
    /// Builds the entity for a new user: status `Active`, `created_at` now,
    /// id 0 until stored. An empty name fails with `ValidationError`.
    pub fn create(new_user: NewUser) -> (r: Result<User, DomainError>)
        ensures
            valid_email(new_user.email@),
            (new_user.name@.len() > 0 && valid_email(new_user.email@)) <==> r is Ok,
            r matches Ok(u) ==> u.id.0 == 0 && u.name@ == new_user.name@
                && u.email@ == new_user.email@ && u.role == new_user.role
                && u.status == UserStatus::Active,
            r matches Err(e) ==> e is ValidationError,
    {
        proof {
            use_type_invariant(&new_user.email);
        }
        if new_user.name.as_str().unicode_len() == 0 {
            return Err(DomainError::ValidationError(String::from_str("Name must not be empty")));
        }
        Ok(User {
            id: UserId(0),
            name: new_user.name,
            email: new_user.email,
            role: new_user.role,
            status: UserStatus::Active,
            created_at: now_utc(),
        })
    }

    /// A copy of the user.
    pub fn duplicate(&self) -> (r: User)
        ensures
            r@ == self@,
    {
        User {
            id: self.id,
            name: self.name.clone(),
            email: self.email.duplicate(),
            role: self.role,
            status: self.status,
            created_at: self.created_at,
        }
    }
}

} // verus!
