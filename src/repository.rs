use vstd::prelude::*;
use crate::error::DomainError;
use crate::text::same_text;
use crate::timestamp::now_utc;
use crate::user::{Email, NewUser, User, UserId, UserStatus, UserView};

verus! {

/// The views of a sequence of users.
pub open spec fn views(s: Seq<User>) -> Seq<UserView> {
    s.map_values(|u: User| u@)
}

/// Ids strictly ascending along the sequence (so no id repeats).
pub open spec fn ids_ascending(s: Seq<UserView>) -> bool {
    forall|i: int, j: int| 0 <= i < j < s.len() ==> #[trigger] s[i].id < #[trigger] s[j].id
}

/// No two users share an e-mail address.
pub open spec fn emails_unique(s: Seq<UserView>) -> bool {
    forall|i: int, j: int|
        0 <= i < s.len() && 0 <= j < s.len() && i != j ==> #[trigger] s[i].email != #[trigger] s[j].email
}

/// Some stored user has the id.
pub open spec fn has_id(s: Seq<UserView>, id: i64) -> bool {
    exists|i: int| 0 <= i < s.len() && #[trigger] s[i].id == id
}

/// The position of the user with the id (meaningful where `has_id`).
pub open spec fn index_of(s: Seq<UserView>, id: i64) -> int {
    choose|i: int| 0 <= i < s.len() && #[trigger] s[i].id == id
}

/// The stored user with the id, if any.
pub open spec fn find_user(s: Seq<UserView>, id: i64) -> Option<UserView> {
    if has_id(s, id) {
        Some(s[index_of(s, id)])
    } else {
        None
    }
}

/// Some stored user has the e-mail address.
pub open spec fn email_taken(s: Seq<UserView>, email: Seq<char>) -> bool {
    exists|i: int| 0 <= i < s.len() && #[trigger] s[i].email == email
}

/// Some stored user other than the one with `id` has the e-mail address.
pub open spec fn email_taken_by_other(s: Seq<UserView>, email: Seq<char>, id: i64) -> bool {
    exists|i: int| 0 <= i < s.len() && #[trigger] s[i].email == email && s[i].id != id
}

/// `v` is what storing `u` under `id` records: the given fields, status
/// `Active`, and a creation time chosen by the repository.
pub open spec fn stored_from(v: UserView, id: i64, u: NewUser) -> bool {
    v.id == id && v.name == u.name@ && v.email == u.email@ && v.role == u.role
        && v.status == UserStatus::Active
}

/// The shape every store keeps: ids ascending, each at least 1 and below
/// the next id to assign, and addresses unique.
pub open spec fn store_invariant(s: Seq<UserView>, next: int) -> bool {
    &&& ids_ascending(s)
    &&& emails_unique(s)
    &&& forall|i: int| 0 <= i < s.len() ==> 1 <= #[trigger] s[i].id < next
}

/// What `create` of `user` does to a store holding `before` whose next id
/// is `before_next`, leaving `after` and `after_next` and returning `r`.
pub open spec fn create_outcome(
    before: Seq<UserView>,
    before_next: int,
    after: Seq<UserView>,
    after_next: int,
    user: NewUser,
    r: Result<UserId, DomainError>,
) -> bool {
    if email_taken(before, user.email@) {
        r matches Err(e) && e is AlreadyExists && after == before && after_next == before_next
    } else if before_next >= i64::MAX {
        r matches Err(e) && e is InvalidOperation && after == before && after_next == before_next
    } else {
        r == Ok::<UserId, DomainError>(UserId(before_next as i64))
            && after.len() == before.len() + 1
            && after.drop_last() == before
            && stored_from(after.last(), before_next as i64, user)
            && after_next == before_next + 1
    }
}

/// What looking up `id` in a store holding `s` returns.
pub open spec fn lookup_outcome(s: Seq<UserView>, id: i64, r: Result<User, DomainError>) -> bool {
    match find_user(s, id) {
        Some(v) => r matches Ok(u) && u@ == v,
        None => r matches Err(e) && e is NotFound,
    }
}

/// What deleting `id` from a store holding `before` does.
pub open spec fn removal_outcome(
    before: Seq<UserView>,
    after: Seq<UserView>,
    id: i64,
    r: Result<(), DomainError>,
) -> bool {
    if has_id(before, id) {
        r is Ok && after == before.remove(index_of(before, id))
    } else {
        r matches Err(e) && e is NotFound && after == before
    }
}

/// The port through which the core persists users. Its model is the ordered
/// sequence of stored users and the id the next insertion receives.
pub trait UserRepository {
    /// The stored users, ascending by id.
    spec fn users(&self) -> Seq<UserView>;

    /// The id that the next successful `create` assigns.
    spec fn next_id(&self) -> int;

    /// The adapter's own invariant.
    spec fn well_formed(&self) -> bool;

    /// A well-formed adapter keeps the shape of a store.
    proof fn lemma_store_shape(&self)
        requires
            self.well_formed(),
        ensures
            store_invariant(self.users(), self.next_id()),
    ;

    /// Every stored user, ascending by id.
    fn get_all(&self) -> (r: Result<Vec<User>, DomainError>)
        requires
            self.well_formed(),
        ensures
            r matches Ok(v) && views(v@) == self.users(),
            ids_ascending(self.users()),
            emails_unique(self.users()),
    ;

    /// The user with the id; `NotFound` if there is none.
    fn get_by_id(&self, id: UserId) -> (r: Result<User, DomainError>)
        requires
            self.well_formed(),
        ensures
            lookup_outcome(self.users(), id.0, r),
    ;

    /// Stores a new user under the next id. Fails with `AlreadyExists` when
    /// the address is taken, and with `InvalidOperation` when ids run out;
    /// a failure stores nothing.
    fn create(&mut self, user: &NewUser) -> (r: Result<UserId, DomainError>)
        requires
            old(self).well_formed(),
        ensures
            final(self).well_formed(),
            create_outcome(
                old(self).users(),
                old(self).next_id(),
                final(self).users(),
                final(self).next_id(),
                *user,
                r,
            ),
    ;

    /// Replaces the stored user that has `user`'s id with `user`, whole.
    /// Fails with `NotFound` when no user has the id, and with
    /// `AlreadyExists` when another user has the address.
    fn update(&mut self, user: &User) -> (r: Result<(), DomainError>)
        requires
            old(self).well_formed(),
        ensures
            final(self).well_formed(),
            final(self).next_id() == old(self).next_id(),
            if !has_id(old(self).users(), user.id.0) {
                r matches Err(e) && e is NotFound && final(self).users() == old(self).users()
            } else if email_taken_by_other(old(self).users(), user.email@, user.id.0) {
                r matches Err(e) && e is AlreadyExists && final(self).users() == old(self).users()
            } else {
                r is Ok && final(self).users() == old(self).users().update(
                    index_of(old(self).users(), user.id.0),
                    user@,
                )
            },
    ;

    /// Removes the user with the id; `NotFound` when there is none.
    fn delete(&mut self, id: UserId) -> (r: Result<(), DomainError>)
        requires
            old(self).well_formed(),
        ensures
            final(self).well_formed(),
            final(self).next_id() == old(self).next_id(),
            removal_outcome(old(self).users(), final(self).users(), id.0, r),
    ;

    /// The number of stored users.
    fn count(&self) -> (r: Result<i64, DomainError>)
        requires
            self.well_formed(),
        ensures
            r matches Ok(n) && n == self.users().len(),
    ;
}

/// A repository held in memory: the users in a vector, ascending by id.
pub struct InMemoryUserRepository {
    users: Vec<User>,
    next_id: i64,
}

impl InMemoryUserRepository {
    /// An empty repository whose first id is 1.
    pub fn new() -> (r: InMemoryUserRepository)
        ensures
            r.well_formed(),
            r.users() == Seq::<UserView>::empty(),
            r.next_id() == 1,
    {
        let r = InMemoryUserRepository { users: Vec::new(), next_id: 1 };
        assert(views(r.users@) =~= Seq::<UserView>::empty());
        r
    }

    /// A repository holding `users`, whose next id is `next_id`, as read
    /// back from storage. Fails with `InvalidOperation` unless the ids
    /// ascend, each is at least 1 and below `next_id`, and no address repeats.
    pub fn restore(users: Vec<User>, next_id: i64) -> (r: Result<InMemoryUserRepository, DomainError>)
        ensures
            (store_invariant(views(users@), next_id as int) && next_id >= 1) <==> r is Ok,
            r matches Ok(repo) ==> repo.well_formed() && repo.users() == views(users@)
                && repo.next_id() == next_id,
            r matches Err(e) ==> e is InvalidOperation,
    {
        let ghost s = views(users@);
        if next_id < 1 {
            return Err(DomainError::InvalidOperation(String::from_str("Next id out of range")));
        }
        let n = users.len();
        let mut i: usize = 0;
        while i < n
            invariant
                n == users@.len(),
                s == views(users@),
                i <= n,
                forall|a: int| 0 <= a < i ==> 1 <= #[trigger] s[a].id < next_id,
                forall|a: int, b: int| 0 <= a < b < i ==> #[trigger] s[a].id < #[trigger] s[b].id,
                forall|a: int, b: int|
                    0 <= a < i && 0 <= b < i && a != b ==> #[trigger] s[a].email != #[trigger] s[b].email,
            decreases n - i,
        {
            let id = users[i].id.0;
            assert(s[i as int].id == id);
            if id < 1 || id >= next_id {
                return Err(DomainError::InvalidOperation(String::from_str("Stored id out of range")));
            }
            if i > 0 && users[i - 1].id.0 >= id {
                assert(s[i - 1].id >= s[i as int].id);
                return Err(DomainError::InvalidOperation(String::from_str("Stored ids out of order")));
            }
            let mut j: usize = 0;
            while j < i
                invariant
                    n == users@.len(),
                    s == views(users@),
                    j <= i < n,
                    forall|b: int| 0 <= b < j ==> s[b].email != s[i as int].email,
                decreases i - j,
            {
                if same_text(users[j].email.as_str(), users[i].email.as_str()) {
                    assert(s[j as int].email == s[i as int].email);
                    return Err(DomainError::InvalidOperation(String::from_str("Stored email repeated")));
                }
                j = j + 1;
            }
            proof {
                assert forall|a: int, b: int| 0 <= a < b < i + 1 implies #[trigger] s[a].id < #[trigger] s[b].id by {
                    if b == i as int && a < i - 1 {
                        assert(s[a].id < s[i - 1].id);
                    }
                }
            }
            i = i + 1;
        }
        Ok(InMemoryUserRepository { users, next_id })
    }

    /// The position of the user with the id, if any.
    fn position(&self, id: i64) -> (r: Option<usize>)
        requires
            self.well_formed(),
        ensures
            match r {
                Some(i) => has_id(self.users(), id) && i == index_of(self.users(), id),
                None => !has_id(self.users(), id),
            },
    {
        let ghost s = self.users();
        let mut i: usize = 0;
        while i < self.users.len()
            invariant
                s == views(self.users@),
                self.well_formed(),
                i <= self.users@.len(),
                forall|j: int| 0 <= j < i ==> s[j].id != id,
            decreases self.users@.len() - i,
        {
            if self.users[i].id.0 == id {
                assert(s[i as int].id == id);
                assert(has_id(s, id));
                let ghost k = index_of(s, id);
                assert(s[k].id == id);
                assert(k == i as int) by {
                    if k < i as int {
                        assert(s[k].id < s[i as int].id);
                    } else if k > i as int {
                        assert(s[i as int].id < s[k].id);
                    }
                }
                return Some(i);
            }
            i = i + 1;
        }
        None
    }

    /// Whether a user other than the one with `except` has the address;
    /// `except` of `None` makes every user count.
    fn address_in_use(&self, email: &Email, except: Option<i64>) -> (r: bool)
        requires
            self.well_formed(),
        ensures
            match except {
                Some(id) => r == email_taken_by_other(self.users(), email@, id),
                None => r == email_taken(self.users(), email@),
            },
    {
        let ghost s = self.users();
        let mut i: usize = 0;
        while i < self.users.len()
            invariant
                s == views(self.users@),
                i <= self.users@.len(),
                forall|j: int|
                    0 <= j < i ==> #[trigger] s[j].email != email@ || match except {
                        Some(id) => s[j].id == id,
                        None => false,
                    },
            decreases self.users@.len() - i,
        {
            let u = &self.users[i];
            let skip = match except {
                Some(id) => u.id.0 == id,
                None => false,
            };
            if !skip && same_text(u.email.as_str(), email.as_str()) {
                assert(s[i as int].email == email@);
                return true;
            }
            i = i + 1;
        }
        false
    }
}

impl UserRepository for InMemoryUserRepository {
    closed spec fn users(&self) -> Seq<UserView> {
        views(self.users@)
    }

    closed spec fn next_id(&self) -> int {
        self.next_id as int
    }

    closed spec fn well_formed(&self) -> bool {
        let s = views(self.users@);
        &&& ids_ascending(s)
        &&& emails_unique(s)
        &&& self.next_id >= 1
        &&& forall|i: int| 0 <= i < s.len() ==> 1 <= #[trigger] s[i].id < self.next_id
    }

    proof fn lemma_store_shape(&self) {
    }

    fn get_all(&self) -> (r: Result<Vec<User>, DomainError>) {
        let mut out: Vec<User> = Vec::new();
        let mut i: usize = 0;
        while i < self.users.len()
            invariant
                i <= self.users@.len(),
                views(out@) == views(self.users@).subrange(0, i as int),
            decreases self.users@.len() - i,
        {
            let d = self.users[i].duplicate();
            let ghost before = out@;
            out.push(d);
            assert(out@ == before.push(d));
            assert(views(out@) =~= views(before).push(d@));
            assert(views(out@) =~= views(self.users@).subrange(0, i + 1));
            i = i + 1;
        }
        assert(views(self.users@).subrange(0, i as int) =~= views(self.users@));
        Ok(out)
    }

    fn get_by_id(&self, id: UserId) -> (r: Result<User, DomainError>) {
        match self.position(id.0) {
            Some(i) => Ok(self.users[i].duplicate()),
            None => Err(DomainError::NotFound(String::from_str("User not found"))),
        }
    }

    fn create(&mut self, user: &NewUser) -> (r: Result<UserId, DomainError>) {
        if self.address_in_use(&user.email, None) {
            return Err(DomainError::AlreadyExists(String::from_str("Email already registered")));
        }
        if self.next_id == i64::MAX {
            return Err(DomainError::InvalidOperation(String::from_str("User ids exhausted")));
        }
        let id = self.next_id;
        let stored = User {
            id: UserId(id),
            name: user.name.clone(),
            email: user.email.duplicate(),
            role: user.role,
            status: UserStatus::Active,
            created_at: now_utc(),
        };
        let ghost before = self.users();
        self.users.push(stored);
        self.next_id = id + 1;
        assert(self.users().drop_last() =~= before);
        assert(self.users().last() == stored@);
        proof {
            let s = self.users();
            assert forall|i: int, j: int| 0 <= i < s.len() && 0 <= j < s.len() && i != j implies
                #[trigger] s[i].email != #[trigger] s[j].email by {
                if i < before.len() && j < before.len() {
                    assert(s[i] == before[i] && s[j] == before[j]);
                } else if i < before.len() {
                    assert(s[i] == before[i]);
                } else {
                    assert(s[j] == before[j]);
                }
            }
            assert forall|i: int, j: int| 0 <= i < j < s.len() implies
                #[trigger] s[i].id < #[trigger] s[j].id by {
                assert(s[i] == before[i]);
                if j < before.len() {
                    assert(s[j] == before[j]);
                }
            }
            assert forall|i: int| 0 <= i < s.len() implies 1 <= #[trigger] s[i].id < self.next_id by {
                if i < before.len() {
                    assert(s[i] == before[i]);
                }
            }
        }
        Ok(UserId(id))
    }

    fn update(&mut self, user: &User) -> (r: Result<(), DomainError>) {
        let pos = self.position(user.id.0);
        match pos {
            None => Err(DomainError::NotFound(String::from_str("User not found"))),
            Some(i) => {
                if self.address_in_use(&user.email, Some(user.id.0)) {
                    return Err(DomainError::AlreadyExists(String::from_str("Email already registered")));
                }
                let ghost before = self.users();
                self.users.set(i, user.duplicate());
                proof {
                    let s = self.users();
                    assert(s =~= before.update(i as int, user@));
                    assert(before[i as int].id == user.id.0);
                    assert forall|a: int, b: int| 0 <= a < s.len() && 0 <= b < s.len() && a != b implies
                        #[trigger] s[a].email != #[trigger] s[b].email by {
                        if a == i as int {
                            assert(!(before[b].email == user.email@ && before[b].id != user.id.0));
                            assert(before[b].id != user.id.0);
                        } else if b == i as int {
                            assert(!(before[a].email == user.email@ && before[a].id != user.id.0));
                            assert(before[a].id != user.id.0);
                        }
                    }
                    assert forall|a: int, b: int| 0 <= a < b < s.len() implies
                        #[trigger] s[a].id < #[trigger] s[b].id by {
                        assert(before[a].id < before[b].id);
                    }
                    assert forall|a: int| 0 <= a < s.len() implies 1 <= #[trigger] s[a].id < self.next_id by {
                        assert(1 <= before[a].id < self.next_id);
                    }
                }
                Ok(())
            },
        }
    }

    fn delete(&mut self, id: UserId) -> (r: Result<(), DomainError>) {
        match self.position(id.0) {
            None => Err(DomainError::NotFound(String::from_str("User not found"))),
            Some(i) => {
                let ghost before = self.users();
                let _ = self.users.remove(i);
                proof {
                    let s = self.users();
                    assert(s =~= before.remove(i as int));
                    assert forall|a: int, b: int| 0 <= a < s.len() && 0 <= b < s.len() && a != b implies
                        #[trigger] s[a].email != #[trigger] s[b].email by {
                        let a2 = if a < i as int { a } else { a + 1 };
                        let b2 = if b < i as int { b } else { b + 1 };
                        assert(s[a] == before[a2] && s[b] == before[b2]);
                    }
                    assert forall|a: int, b: int| 0 <= a < b < s.len() implies
                        #[trigger] s[a].id < #[trigger] s[b].id by {
                        let a2 = if a < i as int { a } else { a + 1 };
                        let b2 = if b < i as int { b } else { b + 1 };
                        assert(s[a] == before[a2] && s[b] == before[b2]);
                    }
                    assert forall|a: int| 0 <= a < s.len() implies 1 <= #[trigger] s[a].id < self.next_id by {
                        let a2 = if a < i as int { a } else { a + 1 };
                        assert(s[a] == before[a2]);
                    }
                }
                Ok(())
            },
        }
    }

    fn count(&self) -> (r: Result<i64, DomainError>) {
        proof {
            let s = self.users();
            if s.len() > 0 {
                assert forall|i: int| 0 <= i < s.len() implies #[trigger] s[i].id >= i + 1 by {
                    assert(s[0].id >= 1);
                    lemma_ids_at_least_position(s, i);
                }
                assert(s[s.len() - 1].id >= s.len());
            }
        }
        Ok(self.users.len() as i64)
    }
}

/// In a sequence with ascending ids, each of them at least 1, the id at
/// position `i` is at least `i + 1`.
proof fn lemma_ids_at_least_position(s: Seq<UserView>, i: int)
    requires
        ids_ascending(s),
        0 <= i < s.len(),
        forall|k: int| 0 <= k < s.len() ==> 1 <= #[trigger] s[k].id,
    ensures
        s[i].id >= i + 1,
    decreases i,
{
    if i > 0 {
        lemma_ids_at_least_position(s, i - 1);
        assert(s[i - 1].id < s[i].id);
    } else {
        assert(1 <= s[0].id);
    }
}

} // verus!
