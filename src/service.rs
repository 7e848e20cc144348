use vstd::prelude::*;
use crate::error::DomainError;
use crate::event_bus::EventBus;
use crate::events::{UserCreatedEvent, UserDeletedEvent};
use crate::repository::{
    create_outcome, ids_ascending, lookup_outcome, removal_outcome, views, UserRepository,
};
use crate::user::{valid_email, NewUser, User, UserId};

verus! {

/// The domain service: it checks the domain rules before any write, then
/// delegates to the repository. After a successful create or delete it
/// publishes `UserCreatedEvent` or `UserDeletedEvent` on the bus, whose
/// outcome does not affect the result.
pub struct UserServiceImpl<R: UserRepository, B: EventBus> {
    repository: R,
    event_bus: B,
}

impl<R: UserRepository, B: EventBus> UserServiceImpl<R, B> {
    pub closed spec fn repo(&self) -> R {
        self.repository
    }

    pub closed spec fn bus(&self) -> B {
        self.event_bus
    }

    pub open spec fn well_formed(&self) -> bool {
        self.repo().well_formed() && self.bus().ready()
    }

    pub fn new(repository: R, event_bus: B) -> (r: Self)
        ensures
            r.repo() == repository,
            r.bus() == event_bus,
    {
        UserServiceImpl { repository, event_bus }
    }

    /// The repository behind the service.
    pub fn repository(&self) -> (r: &R)
        ensures
            *r == self.repo(),
    {
        &self.repository
    }

    /// The event bus behind the service.
    pub fn event_bus(&self) -> (r: &B)
        ensures
            *r == self.bus(),
    {
        &self.event_bus
    }

    /// Every stored user, ascending by id.
    pub fn get_all_users(&self) -> (r: Result<Vec<User>, DomainError>)
        requires
            self.well_formed(),
        ensures
            r matches Ok(v) && views(v@) == self.repo().users(),
            ids_ascending(self.repo().users()),
    {
        self.repository.get_all()
    }

    /// The user with the id; `NotFound` if there is none.
    pub fn get_user(&self, id: UserId) -> (r: Result<User, DomainError>)
        requires
            self.well_formed(),
        ensures
            lookup_outcome(self.repo().users(), id.0, r),
    {
        self.repository.get_by_id(id)
    }

    /// Validates the new user as an entity (an empty name fails with
    /// `ValidationError` and stores nothing), then stores it.
    pub fn create_user(&mut self, new_user: NewUser) -> (r: Result<UserId, DomainError>)
        requires
            old(self).well_formed(),
        ensures
            final(self).well_formed(),
            r is Ok ==> final(self).bus().handed() == old(self).bus().handed().push("user.created"@),
            r is Err ==> final(self).bus().handed() == old(self).bus().handed(),
            if new_user.name@.len() == 0 || !valid_email(new_user.email@) {
                r matches Err(e) && e is ValidationError
                    && final(self).repo().users() == old(self).repo().users()
                    && final(self).repo().next_id() == old(self).repo().next_id()
            } else {
                create_outcome(
                    old(self).repo().users(),
                    old(self).repo().next_id(),
                    final(self).repo().users(),
                    final(self).repo().next_id(),
                    new_user,
                    r,
                )
            },
    {
        match User::create(new_user.duplicate()) {
            Ok(_) => {},
            Err(e) => {
                return Err(e);
            },
        }
        let created = self.repository.create(&new_user);
        if let Ok(id) = created {
            let event = UserCreatedEvent::new(id, new_user.name, new_user.email.as_str().to_owned());
            let _ = self.event_bus.publish(&event);
        }
        created
    }

    /// Removes the user with the id without announcing it on the bus: for
    /// undoing a create that could not be carried through to storage.
    pub fn withdraw_user(&mut self, id: UserId) -> (r: Result<(), DomainError>)
        requires
            old(self).well_formed(),
        ensures
            final(self).well_formed(),
            removal_outcome(old(self).repo().users(), final(self).repo().users(), id.0, r),
            final(self).repo().next_id() == old(self).repo().next_id(),
            final(self).bus() == old(self).bus(),
    {
        self.repository.delete(id)
    }

    /// Removes the user with the id; `NotFound` when there is none.
    pub fn delete_user(&mut self, id: UserId) -> (r: Result<(), DomainError>)
        requires
            old(self).well_formed(),
        ensures
            final(self).well_formed(),
            removal_outcome(old(self).repo().users(), final(self).repo().users(), id.0, r),
            r is Ok ==> final(self).bus().handed() == old(self).bus().handed().push("user.deleted"@),
            r is Err ==> final(self).bus().handed() == old(self).bus().handed(),
            final(self).repo().next_id() == old(self).repo().next_id(),
    {
        let removed = self.repository.delete(id);
        if removed.is_ok() {
            let event = UserDeletedEvent::new(id);
            let _ = self.event_bus.publish(&event);
        }
        removed
    }
}

} // verus!
