use vstd::prelude::*;
use crate::error::DomainError;
use crate::event_bus::EventBus;
use crate::repository::{create_outcome, lookup_outcome, removal_outcome, views, UserRepository};
use crate::service::UserServiceImpl;
use crate::user::{role_from_tag, valid_email, Email, NewUser, User, UserId, UserRole};

verus! {

/// A use case that changes state.
pub trait CommandHandler<C> {
    type Output;

    /// The handler's own invariant.
    spec fn ready(&self) -> bool;

    fn handle(&mut self, command: C) -> (r: Result<Self::Output, DomainError>)
        requires
            old(self).ready(),
        ensures
            final(self).ready(),
    ;
}

/// A use case that reads state.
pub trait QueryHandler<Q> {
    type Output;

    /// The handler's own invariant.
    spec fn ready(&self) -> bool;

    fn handle(&self, query: Q) -> (r: Result<Self::Output, DomainError>)
        requires
            self.ready(),
    ;
}

/// Request to create a user, as the transport hands it over.
pub struct CreateUserCommand {
    pub name: String,
    pub email: String,
    pub role: String,
}

/// Request to delete a user.
pub struct DeleteUserCommand {
    pub id: i64,
}

/// Request for one user.
pub struct GetUserByIdQuery {
    pub id: i64,
}

/// Request for every user.
pub struct GetUsersQuery;

/// Creates a user from raw strings: the address must pass the validation
/// rule (else `ValidationError`, nothing stored), the role tag is read
/// leniently (unknown tags give `User`), and the rest is `create_user`.
pub struct CreateUserHandler<R: UserRepository, B: EventBus> {
    user_service: UserServiceImpl<R, B>,
}

impl<R: UserRepository, B: EventBus> CreateUserHandler<R, B> {
    pub fn new(user_service: UserServiceImpl<R, B>) -> (r: Self)
        ensures
            r.service() == user_service,
    {
        CreateUserHandler { user_service }
    }

    pub closed spec fn service(&self) -> UserServiceImpl<R, B> {
        self.user_service
    }

    /// The service the handler delegates to.
    pub fn user_service(&self) -> (r: &UserServiceImpl<R, B>)
        ensures
            *r == self.service(),
    {
        &self.user_service
    }

    /// Hands the service back.
    pub fn into_service(self) -> (r: UserServiceImpl<R, B>)
        ensures
            r == self.service(),
    {
        self.user_service
    }
}

/// Deletes the user with the id; the result is that of `delete_user`.
pub struct DeleteUserHandler<R: UserRepository, B: EventBus> {
    user_service: UserServiceImpl<R, B>,
}

impl<R: UserRepository, B: EventBus> DeleteUserHandler<R, B> {
    pub fn new(user_service: UserServiceImpl<R, B>) -> (r: Self)
        ensures
            r.service() == user_service,
    {
        DeleteUserHandler { user_service }
    }

    pub closed spec fn service(&self) -> UserServiceImpl<R, B> {
        self.user_service
    }

    /// The service the handler delegates to.
    pub fn user_service(&self) -> (r: &UserServiceImpl<R, B>)
        ensures
            *r == self.service(),
    {
        &self.user_service
    }

    /// Hands the service back.
    pub fn into_service(self) -> (r: UserServiceImpl<R, B>)
        ensures
            r == self.service(),
    {
        self.user_service
    }
}

/// Reads the user with the id; the result is that of `get_user`.
pub struct GetUserByIdHandler<R: UserRepository, B: EventBus> {
    user_service: UserServiceImpl<R, B>,
}

impl<R: UserRepository, B: EventBus> GetUserByIdHandler<R, B> {
    pub fn new(user_service: UserServiceImpl<R, B>) -> (r: Self)
        ensures
            r.service() == user_service,
    {
        GetUserByIdHandler { user_service }
    }

    pub closed spec fn service(&self) -> UserServiceImpl<R, B> {
        self.user_service
    }

    /// The service the handler delegates to.
    pub fn user_service(&self) -> (r: &UserServiceImpl<R, B>)
        ensures
            *r == self.service(),
    {
        &self.user_service
    }

    /// Hands the service back.
    pub fn into_service(self) -> (r: UserServiceImpl<R, B>)
        ensures
            r == self.service(),
    {
        self.user_service
    }
}

/// Reads every user; the result is that of `get_all_users`.
pub struct GetUsersHandler<R: UserRepository, B: EventBus> {
    user_service: UserServiceImpl<R, B>,
}

impl<R: UserRepository, B: EventBus> GetUsersHandler<R, B> {
    pub fn new(user_service: UserServiceImpl<R, B>) -> (r: Self)
        ensures
            r.service() == user_service,
    {
        GetUsersHandler { user_service }
    }

    pub closed spec fn service(&self) -> UserServiceImpl<R, B> {
        self.user_service
    }

    /// The service the handler delegates to.
    pub fn user_service(&self) -> (r: &UserServiceImpl<R, B>)
        ensures
            *r == self.service(),
    {
        &self.user_service
    }

    /// Hands the service back.
    pub fn into_service(self) -> (r: UserServiceImpl<R, B>)
        ensures
            r == self.service(),
    {
        self.user_service
    }
}

impl<R: UserRepository, B: EventBus> CommandHandler<CreateUserCommand> for CreateUserHandler<R, B> {
    type Output = UserId;

    open spec fn ready(&self) -> bool {
        self.service().well_formed()
    }

    fn handle(&mut self, command: CreateUserCommand) -> (r: Result<UserId, DomainError>)
        ensures
            !valid_email(command.email@) ==> (r matches Err(e) && e is ValidationError
                && final(self).service().repo().users() == old(self).service().repo().users()
                && final(self).service().repo().next_id() == old(self).service().repo().next_id()),
            valid_email(command.email@) && command.name@.len() == 0 ==> (r matches Err(e)
                && e is ValidationError
                && final(self).service().repo().users() == old(self).service().repo().users()
                && final(self).service().repo().next_id() == old(self).service().repo().next_id()),
            valid_email(command.email@) && command.name@.len() > 0 ==> exists|u: NewUser|
                u.name@ == command.name@ && u.email@ == command.email@
                    && u.role == role_from_tag(command.role@)
                    && #[trigger] create_outcome(
                    old(self).service().repo().users(),
                    old(self).service().repo().next_id(),
                    final(self).service().repo().users(),
                    final(self).service().repo().next_id(),
                    u,
                    r,
                ),
    {
        let email = match Email::new(command.email.as_str()) {
            Ok(e) => e,
            Err(e) => {
                return Err(e);
            },
        };
        let new_user = NewUser { name: command.name, email, role: UserRole::from_str(command.role.as_str()) };
        let ghost u = new_user;
        let r = self.user_service.create_user(new_user);
        assert(create_outcome(
            old(self).service().repo().users(),
            old(self).service().repo().next_id(),
            self.service().repo().users(),
            self.service().repo().next_id(),
            u,
            r,
        ) || u.name@.len() == 0);
        r
    }
}

impl<R: UserRepository, B: EventBus> CommandHandler<DeleteUserCommand> for DeleteUserHandler<R, B> {
    type Output = ();

    open spec fn ready(&self) -> bool {
        self.service().well_formed()
    }

    fn handle(&mut self, command: DeleteUserCommand) -> (r: Result<(), DomainError>)
        ensures
            removal_outcome(
                old(self).service().repo().users(),
                final(self).service().repo().users(),
                command.id,
                r,
            ),
            final(self).service().repo().next_id() == old(self).service().repo().next_id(),
    {
        self.user_service.delete_user(UserId(command.id))
    }
}

impl<R: UserRepository, B: EventBus> QueryHandler<GetUserByIdQuery> for GetUserByIdHandler<R, B> {
    type Output = User;

    open spec fn ready(&self) -> bool {
        self.service().well_formed()
    }

    fn handle(&self, query: GetUserByIdQuery) -> (r: Result<User, DomainError>)
        ensures
            lookup_outcome(self.service().repo().users(), query.id, r),
    {
        self.user_service.get_user(UserId(query.id))
    }
}

impl<R: UserRepository, B: EventBus> QueryHandler<GetUsersQuery> for GetUsersHandler<R, B> {
    type Output = Vec<User>;

    open spec fn ready(&self) -> bool {
        self.service().well_formed()
    }

    fn handle(&self, query: GetUsersQuery) -> (r: Result<Vec<User>, DomainError>)
        ensures
            r matches Ok(v) && views(v@) == self.service().repo().users(),
    {
        self.user_service.get_all_users()
    }
}

} // verus!
