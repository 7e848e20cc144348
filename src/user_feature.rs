use vstd::prelude::*;
use crate::json::{
    member_or, decimal_value, json_int_field, json_int_member, json_string, json_string_text,
    json_syntax_check, json_syntax_error, json_text_field, json_text_member, parse_decimal,
};
use crate::mvvm::{EmailError, ViewModel, ViewModelError, ViewModelState};
use crate::text::{count_text, decimal, decimal_text, digits, same_text};
use crate::timestamp::{format_rfc3339, now_utc, rfc3339_text, Timestamp};
use crate::user::{valid_email, Email, UserId};

verus! {

/// The role of a user of the user feature.
#[derive(Clone, Copy, Debug, PartialEq, Eq, Structural)]
pub enum UserRole {
    Admin,
    Editor,
    User,
    Guest,
}

/// The display text of a role.
pub open spec fn role_text(r: UserRole) -> Seq<char> {
    match r {
        UserRole::Admin => "Admin"@,
        UserRole::Editor => "Editor"@,
        UserRole::User => "User"@,
        UserRole::Guest => "Guest"@,
    }
}

/// The role a lower-case request tag names; anything else is `Guest`.
pub open spec fn role_from_request(s: Seq<char>) -> UserRole {
    if s == "admin"@ {
        UserRole::Admin
    } else if s == "editor"@ {
        UserRole::Editor
    } else if s == "user"@ {
        UserRole::User
    } else {
        UserRole::Guest
    }
}

impl UserRole {
    pub fn as_str(&self) -> (r: &'static str)
        ensures
            r@ == role_text(*self),
    {
        match self {
            UserRole::Admin => "Admin",
            UserRole::Editor => "Editor",
            UserRole::User => "User",
            UserRole::Guest => "Guest",
        }
    }

    /// Reads a request tag: `admin`, `editor`, `user`, anything else `Guest`.
    pub fn from_request(s: &str) -> (r: UserRole)
        ensures
            r == role_from_request(s@),
    {
        if same_text(s, "admin") {
            UserRole::Admin
        } else if same_text(s, "editor") {
            UserRole::Editor
        } else if same_text(s, "user") {
            UserRole::User
        } else {
            UserRole::Guest
        }
    }
}

/// The status of a user of the user feature.
#[derive(Clone, Copy, Debug, PartialEq, Eq, Structural)]
pub enum UserStatus {
    Active,
    Inactive,
    Pending,
    Suspended,
}

/// The display text of a status.
pub open spec fn status_text(s: UserStatus) -> Seq<char> {
    match s {
        UserStatus::Active => "Active"@,
        UserStatus::Inactive => "Inactive"@,
        UserStatus::Pending => "Pending"@,
        UserStatus::Suspended => "Suspended"@,
    }
}

impl UserStatus {
    pub fn as_str(&self) -> (r: &'static str)
        ensures
            r@ == status_text(*self),
    {
        match self {
            UserStatus::Active => "Active",
            UserStatus::Inactive => "Inactive",
            UserStatus::Pending => "Pending",
            UserStatus::Suspended => "Suspended",
        }
    }
}

/// The data of a user to be added.
#[derive(Debug)]
pub struct NewUser {
    pub name: String,
    pub email: Email,
    pub role: UserRole,
}

/// A user held by the view model.
#[derive(Debug)]
pub struct User {
    pub id: UserId,
    pub name: String,
    pub email: Email,
    pub role: UserRole,
    pub status: UserStatus,
    pub created_at: Timestamp,
    pub updated_at: Timestamp,
}

/// The plain-value form of a feature user.
pub struct FeatureUserView {
    pub id: i64,
    pub name: Seq<char>,
    pub email: Seq<char>,
    pub role: UserRole,
    pub status: UserStatus,
    pub created_at: Timestamp,
}

impl View for User {
    type V = FeatureUserView;

    open spec fn view(&self) -> FeatureUserView {
        FeatureUserView {
            id: self.id.0,
            name: self.name@,
            email: self.email@,
            role: self.role,
            status: self.status,
            created_at: self.created_at,
        }
    }
}

impl User {
    /// A new user under `id`, `Pending`, created and updated now.
    pub fn new(id: UserId, data: NewUser) -> (r: User)
        ensures
            r.id == id,
            r.name@ == data.name@,
            r.email@ == data.email@,
            r.role == data.role,
            r.status == UserStatus::Pending,
            r.created_at == r.updated_at,
    {
        let now = now_utc();
        User {
            id,
            name: data.name,
            email: data.email,
            role: data.role,
            status: UserStatus::Pending,
            created_at: now,
            updated_at: now,
        }
    }

    /// Marks the user `Active` and stamps the update time.
    pub fn activate(&mut self)
        ensures
            final(self)@ == (FeatureUserView { status: UserStatus::Active, ..old(self)@ }),
    {
        self.status = UserStatus::Active;
        self.updated_at = now_utc();
    }

    /// Marks the user `Inactive` and stamps the update time.
    pub fn deactivate(&mut self)
        ensures
            final(self)@ == (FeatureUserView { status: UserStatus::Inactive, ..old(self)@ }),
    {
        self.status = UserStatus::Inactive;
        self.updated_at = now_utc();
    }

    pub fn duplicate(&self) -> (r: User)
        ensures
            r@ == self@,
            r.updated_at == self.updated_at,
    {
        User {
            id: self.id,
            name: self.name.clone(),
            email: self.email.duplicate(),
            role: self.role,
            status: self.status,
            created_at: self.created_at,
            updated_at: self.updated_at,
        }
    }
}

/// The views of a sequence of feature users.
pub open spec fn feature_views(s: Seq<User>) -> Seq<FeatureUserView> {
    s.map_values(|u: User| u@)
}

/// The JSON object of a user as the interface reads it, keys in order.
pub open spec fn user_object(u: FeatureUserView) -> Seq<char> {
    "{\"email\":"@ + json_string(u.email) + ",\"id\":"@ + decimal(u.id as int) + ",\"name\":"@
        + json_string(u.name) + ",\"role\":"@ + json_string(role_text(u.role)) + ",\"status\":"@
        + json_string(status_text(u.status)) + "}"@
}

/// The creation time as RFC 3339 text, empty where it has none.
pub open spec fn created_text(t: Timestamp) -> Seq<char> {
    match rfc3339_text(t.seconds, t.nanos) {
        Some(s) => s,
        None => Seq::empty(),
    }
}

/// A user in a listing: the object with its creation time first.
pub open spec fn listed_object(u: FeatureUserView) -> Seq<char> {
    "{\"created_at\":"@ + json_string(created_text(u.created_at)) + ",\"email\":"@
        + json_string(u.email) + ",\"id\":"@ + decimal(u.id as int) + ",\"name\":"@
        + json_string(u.name) + ",\"role\":"@ + json_string(role_text(u.role)) + ",\"status\":"@
        + json_string(status_text(u.status)) + "}"@
}

/// The listed objects of `s`, comma-separated.
pub open spec fn listed_objects(s: Seq<FeatureUserView>) -> Seq<char>
    decreases s.len(),
{
    if s.len() == 0 {
        Seq::empty()
    } else if s.len() == 1 {
        listed_object(s[0])
    } else {
        listed_objects(s.drop_last()) + ","@ + listed_object(s.last())
    }
}

/// The position of the first user with the id, if any.
pub open spec fn first_with_id(s: Seq<FeatureUserView>, id: i64) -> Option<int> {
    if exists|i: int| 0 <= i < s.len() && #[trigger] s[i].id == id {
        Some(choose|i: int| 0 <= i < s.len() && #[trigger] s[i].id == id
            && forall|j: int| 0 <= j < i ==> s[j].id != id)
    } else {
        None
    }
}

fn append_user_fields(out: &mut String, u: &User)
    ensures
        final(out)@ == old(out)@ + "\"email\":"@ + json_string(u.email@) + ",\"id\":"@
            + decimal(u.id.0 as int) + ",\"name\":"@ + json_string(u.name@) + ",\"role\":"@
            + json_string(role_text(u.role)) + ",\"status\":"@ + json_string(status_text(u.status))
            + "}"@,
{
    out.append("\"email\":");
    out.append(json_string_text(u.email.as_str()).as_str());
    out.append(",\"id\":");
    out.append(decimal_text(u.id.0).as_str());
    out.append(",\"name\":");
    out.append(json_string_text(u.name.as_str()).as_str());
    out.append(",\"role\":");
    out.append(json_string_text(u.role.as_str()).as_str());
    out.append(",\"status\":");
    out.append(json_string_text(u.status.as_str()).as_str());
    out.append("}");
    assert(final(out)@ =~= old(out)@ + "\"email\":"@ + json_string(u.email@) + ",\"id\":"@
        + decimal(u.id.0 as int) + ",\"name\":"@ + json_string(u.name@) + ",\"role\":"@
        + json_string(role_text(u.role)) + ",\"status\":"@ + json_string(status_text(u.status))
        + "}"@);
}

/// The JSON object of a user, keys in order.
pub fn user_object_text(u: &User) -> (r: String)
    ensures
        r@ == user_object(u@),
{
    let mut out = String::from_str("{");
    append_user_fields(&mut out, u);
    proof {
        reveal_strlit("{");
        reveal_strlit("{\"email\":");
        reveal_strlit("\"email\":");
        assert("{"@ + "\"email\":"@ =~= "{\"email\":"@);
    }
    assert(out@ =~= user_object(u@));
    out
}

/// The users of `s` whose id is not `id`, in order.
pub open spec fn without_id(s: Seq<FeatureUserView>, id: i64) -> Seq<FeatureUserView>
    decreases s.len(),
{
    if s.len() == 0 {
        Seq::empty()
    } else if s.last().id == id {
        without_id(s.drop_last(), id)
    } else {
        without_id(s.drop_last(), id).push(s.last())
    }
}

/// The largest id among the users, 0 when none is positive.
pub open spec fn largest_id(s: Seq<FeatureUserView>) -> int
    decreases s.len(),
{
    if s.len() == 0 {
        0
    } else {
        let earlier = largest_id(s.drop_last());
        if s.last().id > earlier {
            s.last().id as int
        } else {
            earlier
        }
    }
}

/// No user holds an id above the largest.
pub proof fn lemma_largest_id_bounds(s: Seq<FeatureUserView>)
    ensures
        largest_id(s) >= 0,
        largest_id(s) <= i64::MAX,
        forall|i: int| 0 <= i < s.len() ==> #[trigger] s[i].id <= largest_id(s),
    decreases s.len(),
{
    if s.len() > 0 {
        lemma_largest_id_bounds(s.drop_last());
        assert forall|i: int| 0 <= i < s.len() implies #[trigger] s[i].id <= largest_id(s) by {
            if i < s.len() - 1 {
                assert(s[i] == s.drop_last()[i]);
            }
        }
    }
}

/// What `create_user(name, email, role)` does to a view model holding
/// `before`, leaving `after` and returning `r`: an address that breaks the
/// rule fails with `ExecutionFailed`; otherwise the user gets the id one past
/// the largest id held (so no user holds it), the role the tag names, status `Pending`.
pub open spec fn creation(
    before: Seq<FeatureUserView>,
    after: Seq<FeatureUserView>,
    name: Seq<char>,
    email: Seq<char>,
    role: Seq<char>,
    r: Result<User, ViewModelError>,
) -> bool {
    if !valid_email(email) {
        after == before && (r matches Err(ViewModelError::ExecutionFailed(m))
            && m@ == "Invalid email format: "@ + email)
    } else if largest_id(before) >= i64::MAX {
        after == before && (r matches Err(e) && e is ExecutionFailed)
    } else {
        r matches Ok(u) && u@.id == largest_id(before) + 1 && u@.name == name && u@.email == email
            && u@.role == role_from_request(role) && u@.status == UserStatus::Pending
            && after == before.push(u@)
    }
}

/// The id named by a command payload, 0 when there is none.
pub open spec fn payload_id(payload: Seq<char>) -> i64 {
    match json_int_member(payload, "id"@) {
        Some(n) => n,
        None => 0,
    }
}

/// The id named by the first query parameter, 0 when there is none.
pub open spec fn param_id(params: Seq<String>) -> i64 {
    if params.len() > 0 {
        match decimal_value(params[0]@) {
            Some(n) => n,
            None => 0,
        }
    } else {
        0
    }
}

/// The reply to a successful command.
pub open spec fn success_reply() -> Seq<char> {
    "{\"success\":true}"@
}

/// The reply carrying one user.
pub open spec fn user_reply(u: FeatureUserView) -> Seq<char> {
    "{\"success\":true,\"user\":"@ + user_object(u) + "}"@
}

/// The reply carrying every user.
pub open spec fn users_reply(s: Seq<FeatureUserView>) -> Seq<char> {
    "{\"count\":"@ + digits(s.len()) + ",\"success\":true,\"users\":["@ + listed_objects(s) + "]}"@
}

/// The users of the user feature, held in memory, with the state of the
/// view that shows them.
pub struct UserViewModel {
    state: ViewModelState,
    users: Vec<User>,
    current_user_id: Option<UserId>,
}

impl UserViewModel {
    /// The users, in the order they were added.
    pub closed spec fn users(&self) -> Seq<FeatureUserView> {
        feature_views(self.users@)
    }

    pub closed spec fn spec_state(&self) -> ViewModelState {
        self.state
    }

    pub fn new() -> (r: UserViewModel)
        ensures
            r.users() == Seq::<FeatureUserView>::empty(),
            r.spec_state() == ViewModelState::Initial,
    {
        let r = UserViewModel { state: ViewModelState::Initial, users: Vec::new(), current_user_id: None };
        assert(r.users() =~= Seq::<FeatureUserView>::empty());
        r
    }

    pub fn set_state(&mut self, state: ViewModelState)
        ensures
            final(self).spec_state() == state,
            final(self).users() == old(self).users(),
    {
        self.state = state;
    }

    /// Copies of the users, in order.
    pub fn get_users(&self) -> (r: Vec<User>)
        ensures
            feature_views(r@) == self.users(),
    {
        let mut out: Vec<User> = Vec::new();
        let mut i: usize = 0;
        while i < self.users.len()
            invariant
                i <= self.users@.len(),
                feature_views(out@) == self.users().subrange(0, i as int),
            decreases self.users@.len() - i,
        {
            let d = self.users[i].duplicate();
            let ghost before = out@;
            out.push(d);
            assert(feature_views(out@) =~= feature_views(before).push(d@));
            assert(feature_views(out@) =~= self.users().subrange(0, i + 1));
            i = i + 1;
        }
        assert(self.users().subrange(0, i as int) =~= self.users());
        out
    }

    /// Appends a user.
    pub fn add_user(&mut self, user: User)
        ensures
            final(self).users() == old(self).users().push(user@),
            final(self).spec_state() == old(self).spec_state(),
    {
        self.users.push(user);
        assert(self.users() =~= old(self).users().push(user@));
    }

    fn position(&self, id: i64) -> (r: Option<usize>)
        ensures
            match r {
                Some(i) => first_with_id(self.users(), id) == Some(i as int) && i < self.users@.len(),
                None => first_with_id(self.users(), id) is None,
            },
    {
        let ghost s = self.users();
        let mut i: usize = 0;
        while i < self.users.len()
            invariant
                s == self.users(),
                i <= self.users@.len(),
                forall|j: int| 0 <= j < i ==> s[j].id != id,
            decreases self.users@.len() - i,
        {
            if self.users[i].id.0 == id {
                assert(s[i as int].id == id);
                let ghost k = choose|k: int| 0 <= k < s.len() && #[trigger] s[k].id == id
                    && forall|j: int| 0 <= j < k ==> s[j].id != id;
                assert(0 <= k < s.len() && s[k].id == id && forall|j: int| 0 <= j < k ==> s[j].id != id) by {
                    assert(forall|j: int| 0 <= j < i ==> s[j].id != id);
                }
                proof {
                    if k < i as int {
                        assert(s[k].id != id);
                    }
                    if k > i as int {
                        assert(s[i as int].id != id);
                    }
                }
                return Some(i);
            }
            i = i + 1;
        }
        None
    }

    /// A copy of the first user with the id, if any.
    pub fn find_by_id(&self, id: &UserId) -> (r: Option<User>)
        ensures
            match first_with_id(self.users(), id.0) {
                Some(i) => r matches Some(u) && u@ == self.users()[i],
                None => r is None,
            },
    {
        match self.position(id.0) {
            Some(i) => Some(self.users[i].duplicate()),
            None => None,
        }
    }

    /// The largest id held, 0 when none is positive.
    fn largest(&self) -> (r: i64)
        ensures
            r == largest_id(self.users()),
    {
        let ghost s = self.users();
        let mut best: i64 = 0;
        let mut i: usize = 0;
        while i < self.users.len()
            invariant
                s == self.users(),
                i <= self.users@.len(),
                best == largest_id(s.subrange(0, i as int)),
            decreases self.users@.len() - i,
        {
            proof {
                let t = s.subrange(0, i + 1);
                assert(t.drop_last() =~= s.subrange(0, i as int));
                assert(t.last() == s[i as int]);
            }
            if self.users[i].id.0 > best {
                best = self.users[i].id.0;
            }
            i = i + 1;
        }
        assert(s.subrange(0, i as int) =~= s);
        best
    }

    /// Adds a user built from request text (see `creation`) and returns a
    /// copy of it.
    pub fn create_user(&mut self, name: &str, email: &str, role: &str) -> (r: Result<User, ViewModelError>)
        ensures
            creation(old(self).users(), final(self).users(), name@, email@, role@, r),
            r matches Ok(u) ==> forall|i: int|
                0 <= i < old(self).users().len() ==> #[trigger] old(self).users()[i].id != u@.id,
            final(self).spec_state() == old(self).spec_state(),
    {
        proof {
            lemma_largest_id_bounds(self.users());
        }
        let address = match Email::new(email) {
            Ok(a) => a,
            Err(_) => {
                return Err(ViewModelError::ExecutionFailed(EmailError::InvalidFormat(email.to_owned()).message()));
            },
        };
        let largest = self.largest();
        if largest == i64::MAX {
            return Err(ViewModelError::ExecutionFailed(String::from_str("User ids exhausted")));
        }
        let data = NewUser { name: name.to_owned(), email: address, role: UserRole::from_request(role) };
        let user = User::new(UserId(largest + 1), data);
        let copy = user.duplicate();
        self.add_user(user);
        Ok(copy)
    }

    /// Drops every user with the id.
    fn remove_id(&mut self, id: i64)
        ensures
            final(self).users() == without_id(old(self).users(), id),
            final(self).spec_state() == old(self).spec_state(),
    {
        let ghost s = self.users();
        let mut kept: Vec<User> = Vec::new();
        let mut i: usize = 0;
        while i < self.users.len()
            invariant
                s == self.users(),
                i <= self.users@.len(),
                feature_views(kept@) == without_id(s.subrange(0, i as int), id),
            decreases self.users@.len() - i,
        {
            proof {
                let t = s.subrange(0, i + 1);
                assert(t.drop_last() =~= s.subrange(0, i as int));
                assert(t.last() == s[i as int]);
            }
            if self.users[i].id.0 != id {
                let d = self.users[i].duplicate();
                let ghost before = kept@;
                kept.push(d);
                assert(feature_views(kept@) =~= feature_views(before).push(d@));
            }
            i = i + 1;
        }
        assert(s.subrange(0, i as int) =~= s);
        self.users = kept;
    }

    /// Marks the user at the position `Active`.
    fn activate_at(&mut self, i: usize)
        requires
            i < old(self).users@.len(),
        ensures
            final(self).users() == old(self).users().update(
                i as int,
                FeatureUserView { status: UserStatus::Active, ..old(self).users()[i as int] },
            ),
            final(self).spec_state() == old(self).spec_state(),
    {
        let mut u = self.users[i].duplicate();
        u.activate();
        self.users.set(i, u);
        assert(self.users() =~= old(self).users().update(
            i as int,
            FeatureUserView { status: UserStatus::Active, ..old(self).users()[i as int] },
        ));
    }
}

fn listed_object_text(u: &User) -> (r: String)
    ensures
        r@ == listed_object(u@),
{
    let created = match format_rfc3339(u.created_at) {
        Some(t) => t,
        None => String::new(),
    };
    let mut out = String::from_str("{\"created_at\":");
    out.append(json_string_text(created.as_str()).as_str());
    out.append(",");
    append_user_fields(&mut out, u);
    proof {
        reveal_strlit(",");
        reveal_strlit("\"email\":");
        reveal_strlit(",\"email\":");
        assert(","@ + "\"email\":"@ =~= ",\"email\":"@);
    }
    assert(out@ =~= listed_object(u@));
    out
}

impl UserViewModel {
    /// The listed objects of every user, comma-separated.
    fn listed_text(&self) -> (r: String)
        ensures
            r@ == listed_objects(self.users()),
    {
        let ghost s = self.users();
        let mut out = String::new();
        let mut i: usize = 0;
        while i < self.users.len()
            invariant
                s == self.users(),
                i <= self.users@.len(),
                out@ == listed_objects(s.subrange(0, i as int)),
            decreases self.users@.len() - i,
        {
            proof {
                let t = s.subrange(0, i + 1);
                assert(t.drop_last() =~= s.subrange(0, i as int));
                assert(t.last() == s[i as int]);
                reveal_strlit(",");
            }
            if i > 0 {
                out.append(",");
            } else {
                assert(s.subrange(0, 1) =~= seq![s[0]]);
            }
            out.append(listed_object_text(&self.users[i]).as_str());
            i = i + 1;
        }
        assert(s.subrange(0, i as int) =~= s);
        out
    }
}

/// The message `User <id>`.
fn user_label(id: i64) -> (r: String)
    ensures
        r@ == "User "@ + decimal(id as int),
{
    String::from_str("User ").concat(decimal_text(id).as_str())
}

impl ViewModel for UserViewModel {
    fn name(&self) -> (r: String)
        ensures
            r@ == "UserViewModel"@,
    {
        String::from_str("UserViewModel")
    }

    fn state(&self) -> (r: ViewModelState)
        ensures
            r == self.spec_state(),
    {
        match &self.state {
            ViewModelState::Initial => ViewModelState::Initial,
            ViewModelState::Loading => ViewModelState::Loading,
            ViewModelState::Ready => ViewModelState::Ready,
            ViewModelState::Error(m) => ViewModelState::Error(m.clone()),
            ViewModelState::Busy => ViewModelState::Busy,
        }
    }

    /// Runs `create_user`, `delete_user` or `activate_user` with a JSON
    /// payload; a payload that is not JSON is an `InvalidCommand`.
    fn handle_command(&mut self, command: &str, payload: &str) -> (r: Result<String, ViewModelError>)
        ensures
            final(self).spec_state() == old(self).spec_state(),
            command@ == "create_user"@ ==> match json_syntax_error(payload@) {
                Some(m) => (r matches Err(ViewModelError::InvalidCommand(x)) && x@ == m)
                    && final(self).users() == old(self).users(),
                None => exists|c: Result<User, ViewModelError>|
                    #[trigger] creation(
                        old(self).users(),
                        final(self).users(),
                        member_or(payload@, "name"@, "Unknown"@),
                        member_or(payload@, "email"@, "unknown@example.com"@),
                        member_or(payload@, "role"@, "user"@),
                        c,
                    ) && match c {
                        Ok(u) => r matches Ok(t) && t@ == user_reply(u@),
                        Err(e) => r == Err::<String, ViewModelError>(e),
                    },
            },
            command@ == "delete_user"@ ==> match json_syntax_error(payload@) {
                Some(m) => (r matches Err(ViewModelError::InvalidCommand(x)) && x@ == m)
                    && final(self).users() == old(self).users(),
                None => (r matches Ok(t) && t@ == success_reply())
                    && final(self).users() == without_id(old(self).users(), payload_id(payload@)),
            },
            command@ == "activate_user"@ ==> match json_syntax_error(payload@) {
                Some(m) => (r matches Err(ViewModelError::InvalidCommand(x)) && x@ == m)
                    && final(self).users() == old(self).users(),
                None => match first_with_id(old(self).users(), payload_id(payload@)) {
                    Some(i) => (r matches Ok(t) && t@ == success_reply())
                        && final(self).users() == old(self).users().update(
                        i,
                        FeatureUserView { status: UserStatus::Active, ..old(self).users()[i] },
                    ),
                    None => (r matches Err(ViewModelError::NotFound(x))
                        && x@ == "User "@ + decimal(payload_id(payload@) as int))
                        && final(self).users() == old(self).users(),
                },
            },
            command@ != "create_user"@ && command@ != "delete_user"@ && command@ != "activate_user"@
                ==> (r matches Err(ViewModelError::InvalidCommand(x)) && x@ == "Unknown command: "@ + command@)
                && final(self).users() == old(self).users(),
    {
        proof {
            reveal_strlit("create_user");
            reveal_strlit("delete_user");
            reveal_strlit("activate_user");
            assert("create_user"@[0] != "delete_user"@[0]);
            assert("create_user"@.len() != "activate_user"@.len());
            assert("delete_user"@.len() != "activate_user"@.len());
        }
        let known = same_text(command, "create_user") || same_text(command, "delete_user")
            || same_text(command, "activate_user");
        if !known {
            return Err(ViewModelError::InvalidCommand(String::from_str("Unknown command: ").concat(command)));
        }
        if let Some(m) = json_syntax_check(payload) {
            return Err(ViewModelError::InvalidCommand(m));
        }
        if same_text(command, "create_user") {
            let name = match json_text_field(payload, "name") {
                Some(t) => t,
                None => String::from_str("Unknown"),
            };
            let email = match json_text_field(payload, "email") {
                Some(t) => t,
                None => String::from_str("unknown@example.com"),
            };
            let role = match json_text_field(payload, "role") {
                Some(t) => t,
                None => String::from_str("user"),
            };
            let created = self.create_user(name.as_str(), email.as_str(), role.as_str());
            let ghost c = created;
            assert(creation(
                old(self).users(),
                self.users(),
                member_or(payload@, "name"@, "Unknown"@),
                member_or(payload@, "email"@, "unknown@example.com"@),
                member_or(payload@, "role"@, "user"@),
                c,
            ));
            match created {
                Ok(u) => {
                    proof {
                        reveal_strlit("{\"success\":true,\"user\":");
                        reveal_strlit("}");
                    }
                    let t = String::from_str("{\"success\":true,\"user\":")
                        .concat(user_object_text(&u).as_str())
                        .concat("}");
                    assert(t@ =~= user_reply(u@));
                    Ok(t)
                },
                Err(e) => Err(e),
            }
        } else if same_text(command, "delete_user") {
            let id = match json_int_field(payload, "id") {
                Some(n) => n,
                None => 0,
            };
            self.remove_id(id);
            Ok(String::from_str("{\"success\":true}"))
        } else {
            let id = match json_int_field(payload, "id") {
                Some(n) => n,
                None => 0,
            };
            match self.position(id) {
                Some(i) => {
                    self.activate_at(i);
                    Ok(String::from_str("{\"success\":true}"))
                },
                None => Err(ViewModelError::NotFound(user_label(id))),
            }
        }
    }

    /// Answers `get_users` and `get_user_by_id` (whose first parameter is the
    /// id in decimal).
    fn handle_query(&self, query: &str, params: &[String]) -> (r: Result<String, ViewModelError>)
        ensures
            query@ == "get_users"@ ==> (r matches Ok(t) && t@ == users_reply(self.users())),
            query@ == "get_user_by_id"@ ==> match first_with_id(self.users(), param_id(params@)) {
                Some(i) => 0 <= i < self.users().len() && (r matches Ok(t) && t@ == user_reply(self.users()[i])),
                None => (r matches Err(ViewModelError::NotFound(x)) && x@ == "User "@ + decimal(param_id(params@) as int)),
            },
            query@ != "get_users"@ && query@ != "get_user_by_id"@ ==>
                (r matches Err(ViewModelError::InvalidQuery(x)) && x@ == "Unknown query: "@ + query@),
    {
        proof {
            reveal_strlit("get_users");
            reveal_strlit("get_user_by_id");
            assert("get_users"@.len() != "get_user_by_id"@.len());
        }
        if same_text(query, "get_users") {
            proof {
                reveal_strlit("{\"count\":");
                reveal_strlit(",\"success\":true,\"users\":[");
                reveal_strlit("]}");
            }
            let count = count_text(self.users.len());
            let t = String::from_str("{\"count\":")
                .concat(count.as_str())
                .concat(",\"success\":true,\"users\":[")
                .concat(self.listed_text().as_str())
                .concat("]}");
            assert(t@ =~= users_reply(self.users()));
            Ok(t)
        } else if same_text(query, "get_user_by_id") {
            let id = if params.len() > 0 {
                match parse_decimal(params[0].as_str()) {
                    Some(n) => n,
                    None => 0,
                }
            } else {
                0
            };
            assert(id == param_id(params@));
            match self.position(id) {
                Some(i) => {
                    proof {
                        reveal_strlit("{\"success\":true,\"user\":");
                        reveal_strlit("}");
                    }
                    let t = String::from_str("{\"success\":true,\"user\":")
                        .concat(user_object_text(&self.users[i]).as_str())
                        .concat("}");
                    assert(self.users()[i as int] == self.users@[i as int]@);
                    assert(t@ =~= user_reply(self.users()[i as int]));
                    Ok(t)
                },
                None => Err(ViewModelError::NotFound(user_label(id))),
            }
        } else {
            Err(ViewModelError::InvalidQuery(String::from_str("Unknown query: ").concat(query)))
        }
    }
}

/// A fresh view model for the user feature.
pub fn create_user_viewmodel() -> (r: UserViewModel)
    ensures
        r.users() == Seq::<FeatureUserView>::empty(),
        r.spec_state() == ViewModelState::Initial,
{
    UserViewModel::new()
}

} // verus!
