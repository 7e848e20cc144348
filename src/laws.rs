use vstd::prelude::*;
use crate::error::DomainError;
use crate::event_bus::{ids_distinct, recipients, subscription_index};
use crate::repository::{
    create_outcome, has_id, ids_ascending, index_of, lookup_outcome, removal_outcome,
    store_invariant, views,
};
use crate::storage::{decoded_from, encoded_from, InsertRow, UserRow};
use crate::timestamp::Timestamp;
use crate::user::{
    role_from_tag, role_tag, status_from_tag, status_tag, NewUser, User, UserId, UserRole,
    UserStatus, UserView,
};

verus! {

/// Creating a user whose name is non-empty and whose address is free, while
/// ids remain, succeeds; reading the returned id back yields a user with the
/// given name, address and role and the status `Active`.
pub proof fn lemma_create_then_get(
    before: Seq<UserView>,
    before_next: int,
    after: Seq<UserView>,
    after_next: int,
    user: NewUser,
    r: Result<UserId, DomainError>,
    found: Result<User, DomainError>,
)
    requires
        store_invariant(before, before_next),
        user.name@.len() > 0,
        !crate::repository::email_taken(before, user.email@),
        before_next < i64::MAX,
        create_outcome(before, before_next, after, after_next, user, r),
        lookup_outcome(after, before_next as i64, found),
    ensures
        r == Ok::<UserId, DomainError>(UserId(before_next as i64)),
        forall|i: int| 0 <= i < before.len() ==> #[trigger] before[i].id != before_next,
        after.len() == before.len() + 1,
        found matches Ok(u) && u.name@ == user.name@ && u.email@ == user.email@
            && u.role == user.role && u.status == UserStatus::Active,
{
    let id = before_next as i64;
    let last = after.len() - 1;
    assert(after[last] == after.last());
    assert(after[last].id == id);
    assert(has_id(after, id));
    let k = index_of(after, id);
    assert(after[k].id == id);
    if k < last {
        assert(after[k] == before[k]);
        assert(before[k].id < before_next);
    }
    assert(k == last);
}

/// After a user is deleted, looking up its id fails with `NotFound`.
pub proof fn lemma_delete_then_get(
    before: Seq<UserView>,
    next: int,
    after: Seq<UserView>,
    id: i64,
    r: Result<(), DomainError>,
    found: Result<User, DomainError>,
)
    requires
        store_invariant(before, next),
        has_id(before, id),
        removal_outcome(before, after, id, r),
        lookup_outcome(after, id, found),
    ensures
        r is Ok,
        found matches Err(e) && e is NotFound,
{
    let k = index_of(before, id);
    assert(before[k].id == id);
    if has_id(after, id) {
        let j = index_of(after, id);
        assert(after[j].id == id);
        if j < k {
            assert(after[j] == before[j]);
            assert(before[j].id < before[k].id);
        } else {
            assert(after[j] == before[j + 1]);
            assert(before[k].id < before[j + 1].id);
        }
    }
}

/// A second user with the same address is refused with `AlreadyExists`,
/// stores nothing, and the first user stays retrievable as it was stored.
pub proof fn lemma_duplicate_email_refused(
    s0: Seq<UserView>,
    n0: int,
    s1: Seq<UserView>,
    n1: int,
    s2: Seq<UserView>,
    n2: int,
    first: NewUser,
    second: NewUser,
    r1: Result<UserId, DomainError>,
    r2: Result<UserId, DomainError>,
    found: Result<User, DomainError>,
)
    requires
        store_invariant(s0, n0),
        create_outcome(s0, n0, s1, n1, first, r1),
        r1 is Ok,
        second.email@ == first.email@,
        create_outcome(s1, n1, s2, n2, second, r2),
        lookup_outcome(s2, r1->Ok_0.0, found),
    ensures
        r2 matches Err(e) && e is AlreadyExists,
        s2 == s1,
        found matches Ok(u) && u.name@ == first.name@ && u.email@ == first.email@
            && u.role == first.role && u.status == UserStatus::Active,
{
    let last = s1.len() - 1;
    assert(s1[last] == s1.last());
    assert(s1[last].email == second.email@);
    assert(crate::repository::email_taken(s1, second.email@));
    let id = n0 as i64;
    assert(s1[last].id == id);
    assert(has_id(s2, id));
    let k = index_of(s2, id);
    assert(s2[k].id == id);
    if k < last {
        assert(s1[k] == s0[k]);
        assert(s0[k].id < n0);
    }
}

/// The listing and the count agree, and the listing is ascending by id.
pub proof fn lemma_listing_matches_count(s: Seq<UserView>, next: int, listed: Seq<User>, count: i64)
    requires
        store_invariant(s, next),
        views(listed) == s,
        count == s.len(),
    ensures
        listed.len() == count,
        ids_ascending(views(listed)),
{
    assert(views(listed).len() == listed.len());
}

/// Two reads of one id with no write in between give the same user.
pub proof fn lemma_reads_repeat(s: Seq<UserView>, id: i64, a: Result<User, DomainError>, b: Result<User, DomainError>)
    requires
        lookup_outcome(s, id, a),
        lookup_outcome(s, id, b),
    ensures
        a is Ok <==> b is Ok,
        a matches Ok(x) ==> (b matches Ok(y) && x@ == y@),
{
}

/// A user written as a row and read back unchanged from storage has the
/// same name, address and role, and the status `Active`; the role and status
/// tags survive the trip for every role and status.
pub proof fn lemma_row_round_trip(
    user: NewUser,
    created_at: Timestamp,
    written: InsertRow,
    read: UserRow,
    back: User,
)
    requires
        encoded_from(user, created_at, written),
        read.name@ == written.name@,
        read.email@ == written.email@,
        read.role@ == written.role@,
        read.status@ == written.status@,
        read.created_at@ == written.created_at@,
        decoded_from(read, back),
    ensures
        back.name@ == user.name@,
        back.email@ == user.email@,
        back.role == user.role,
        back.status == UserStatus::Active,
        forall|r: UserRole| #[trigger] role_from_tag(role_tag(r)) == r,
        forall|s: UserStatus| #[trigger] status_from_tag(status_tag(s)) == s,
{
    crate::user::lemma_role_tag_round_trip(user.role);
    crate::user::lemma_status_tag_round_trip(UserStatus::Active);
    assert forall|r: UserRole| #[trigger] role_from_tag(role_tag(r)) == r by {
        crate::user::lemma_role_tag_round_trip(r);
    }
    assert forall|s: UserStatus| #[trigger] status_from_tag(status_tag(s)) == s by {
        crate::user::lemma_status_tag_round_trip(s);
    }
}

/// Two registrations under one event type are both among the recipients of
/// that type, once each, in registration order, after any earlier
/// registrations; once the first is removed only the second remains a
/// recipient; with no registrations there is no recipient. (`publish` calls
/// the handlers of exactly these registrations.)
pub proof fn lemma_fan_out(
    subs: Seq<(Seq<char>, Seq<char>)>,
    event_type: Seq<char>,
    first: Seq<char>,
    second: Seq<char>,
)
    requires
        ids_distinct(subs.push((first, event_type)).push((second, event_type))),
    ensures
        recipients(subs.push((first, event_type)).push((second, event_type)), event_type)
            == recipients(subs, event_type).push(first).push(second),
        recipients(
            subs.push((first, event_type)).push((second, event_type)).remove(
                subscription_index(subs.push((first, event_type)).push((second, event_type)), first),
            ),
            event_type,
        ) == recipients(subs, event_type).push(second),
        recipients(Seq::<(Seq<char>, Seq<char>)>::empty(), event_type) == Seq::<Seq<char>>::empty(),
{
    let s1 = subs.push((first, event_type));
    let s2 = s1.push((second, event_type));
    assert(s2.drop_last() == s1);
    assert(s1.drop_last() == subs);
    assert(s2.last() == (second, event_type));
    assert(s1.last() == (first, event_type));
    assert(recipients(s1, event_type) == recipients(subs, event_type).push(first));
    assert(recipients(s2, event_type) == recipients(s1, event_type).push(second));
    let k = subscription_index(s2, first);
    assert(s2[subs.len() as int].0 == first);
    assert(s2[k].0 == first);
    assert(k == subs.len());
    assert(s2.remove(k) =~= subs.push((second, event_type)));
    assert(subs.push((second, event_type)).drop_last() == subs);
    assert(subs.push((second, event_type)).last() == (second, event_type));
}

} // verus!
