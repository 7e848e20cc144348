use vstd::prelude::*;
use crate::text::{decimal, decimal_text};
use crate::timestamp::{now_utc, Timestamp};
use crate::user::UserId;

verus! {

/// A scalar in an event payload.
#[derive(Clone, Debug, PartialEq, Eq)]
pub enum PayloadValue {
    Int(i64),
    Text(String),
    Null,
}

/// One named field of an event payload.
#[derive(Clone, Debug, PartialEq, Eq)]
pub struct PayloadField {
    pub key: String,
    pub value: PayloadValue,
}

/// The structured body of an event: named fields in a fixed order.
#[derive(Clone, Debug, PartialEq, Eq)]
pub struct EventPayload {
    pub fields: Vec<PayloadField>,
}

/// The field at position `i` of the payload has the key and the value.
pub open spec fn has_field(p: EventPayload, i: int, key: Seq<char>, value: PayloadValue) -> bool {
    0 <= i < p.fields@.len() && p.fields@[i].key@ == key && p.fields@[i].value == value
}

/// `v` is the text of `o` when `o` holds one, and `Null` otherwise.
pub open spec fn text_or_null(v: PayloadValue, o: Option<String>) -> bool {
    match o {
        Some(s) => v matches PayloadValue::Text(t) && t@ == s@,
        None => v is Null,
    }
}

/// A payload value as text or nothing.
pub fn optional_text(v: &Option<String>) -> (r: PayloadValue)
    ensures
        text_or_null(r, *v),
{
    match v {
        Some(s) => PayloadValue::Text(s.clone()),
        None => PayloadValue::Null,
    }
}

fn field(key: &str, value: PayloadValue) -> (r: PayloadField)
    ensures
        r.key@ == key@,
        r.value == value,
{
    PayloadField { key: key.to_owned(), value }
}

/// An immutable record of a state change.
pub trait DomainEvent {
    /// The stable type tag of the event.
    spec fn kind(&self) -> Seq<char>;

    fn event_type(&self) -> (r: &'static str)
        ensures
            r@ == self.kind(),
    ;

    fn occurred_at(&self) -> Timestamp;

    /// The identifier of the subject, as text.
    fn aggregate_id(&self) -> String;

    fn payload(&self) -> EventPayload;
}

/// Relies on `uuid::Uuid::new_v4` and its `Display`: a random identifier in
/// the hyphenated form, 36 characters long.
#[verifier::external_body]
pub(crate) fn random_identifier() -> (r: String)
    ensures
        r@.len() == 36,
{
    uuid::Uuid::new_v4().to_string()
}

/// Tracing data attached to an event.
#[derive(Clone, Debug)]
pub struct EventMetadata {
    pub event_id: String,
    pub correlation_id: Option<String>,
    pub causation_id: Option<String>,
    pub source: String,
    pub version: u32,
}

impl EventMetadata {
    /// Fresh metadata: a random event id, no correlation or causation,
    /// version 1.
    pub fn new(source: &str) -> (r: EventMetadata)
        ensures
            r.event_id@.len() == 36,
            r.correlation_id is None,
            r.causation_id is None,
            r.source@ == source@,
            r.version == 1,
    {
        EventMetadata {
            event_id: random_identifier(),
            correlation_id: None,
            causation_id: None,
            source: source.to_owned(),
            version: 1,
        }
    }

    pub fn with_correlation(self, correlation_id: String) -> (r: EventMetadata)
        ensures
            r.correlation_id == Some(correlation_id),
            r.event_id == self.event_id,
            r.causation_id == self.causation_id,
            r.source == self.source,
            r.version == self.version,
    {
        let mut m = self;
        m.correlation_id = Some(correlation_id);
        m
    }

    pub fn with_causation(self, causation_id: String) -> (r: EventMetadata)
        ensures
            r.causation_id == Some(causation_id),
            r.event_id == self.event_id,
            r.correlation_id == self.correlation_id,
            r.source == self.source,
            r.version == self.version,
    {
        let mut m = self;
        m.causation_id = Some(causation_id);
        m
    }
}

/// An event together with its metadata.
pub struct Envelope<T: DomainEvent> {
    pub metadata: EventMetadata,
    pub payload: T,
}

impl<T: DomainEvent> Envelope<T> {
    pub fn new(payload: T, source: &str) -> (r: Envelope<T>)
        ensures
            r.payload == payload,
            r.metadata.source@ == source@,
            r.metadata.correlation_id is None,
            r.metadata.causation_id is None,
            r.metadata.version == 1,
    {
        Envelope { metadata: EventMetadata::new(source), payload }
    }

    pub fn with_correlation(self, correlation_id: String) -> (r: Envelope<T>)
        ensures
            r.payload == self.payload,
            r.metadata.correlation_id == Some(correlation_id),
            r.metadata.causation_id == self.metadata.causation_id,
            r.metadata.event_id == self.metadata.event_id,
    {
        Envelope { metadata: self.metadata.with_correlation(correlation_id), payload: self.payload }
    }

    pub fn with_causation(self, causation_id: String) -> (r: Envelope<T>)
        ensures
            r.payload == self.payload,
            r.metadata.causation_id == Some(causation_id),
            r.metadata.correlation_id == self.metadata.correlation_id,
            r.metadata.event_id == self.metadata.event_id,
    {
        Envelope { metadata: self.metadata.with_causation(causation_id), payload: self.payload }
    }
}

/// A user was stored.
#[derive(Clone, Debug)]
pub struct UserCreatedEvent {
    pub user_id: UserId,
    pub name: String,
    pub email: String,
    pub occurred_at: Timestamp,
}

impl UserCreatedEvent {
    pub fn new(user_id: UserId, name: String, email: String) -> (r: UserCreatedEvent)
        ensures
            r.user_id == user_id,
            r.name == name,
            r.email == email,
    {
        UserCreatedEvent { user_id, name, email, occurred_at: now_utc() }
    }
}

impl DomainEvent for UserCreatedEvent {
    open spec fn kind(&self) -> Seq<char> {
        "user.created"@
    }

    fn event_type(&self) -> (r: &'static str) {
        "user.created"
    }

    fn occurred_at(&self) -> (r: Timestamp)
        ensures
            r == self.occurred_at,
    {
        self.occurred_at
    }

    fn aggregate_id(&self) -> (r: String)
        ensures
            r@ == decimal(self.user_id.0 as int),
    {
        decimal_text(self.user_id.0)
    }

    fn payload(&self) -> (r: EventPayload)
        ensures
            r.fields@.len() == 3,
            has_field(r, 0, "user_id"@, PayloadValue::Int(self.user_id.0)),
            has_field(r, 1, "name"@, PayloadValue::Text(self.name)),
            has_field(r, 2, "email"@, PayloadValue::Text(self.email)),
    {
        EventPayload {
            fields: vec![
                field("user_id", PayloadValue::Int(self.user_id.0)),
                field("name", PayloadValue::Text(self.name.clone())),
                field("email", PayloadValue::Text(self.email.clone())),
            ],
        }
    }
}

/// A user was removed.
#[derive(Clone, Debug)]
pub struct UserDeletedEvent {
    pub user_id: UserId,
    pub occurred_at: Timestamp,
}

impl UserDeletedEvent {
    pub fn new(user_id: UserId) -> (r: UserDeletedEvent)
        ensures
            r.user_id == user_id,
    {
        UserDeletedEvent { user_id, occurred_at: now_utc() }
    }
}

impl DomainEvent for UserDeletedEvent {
    open spec fn kind(&self) -> Seq<char> {
        "user.deleted"@
    }

    fn event_type(&self) -> (r: &'static str) {
        "user.deleted"
    }

    fn occurred_at(&self) -> (r: Timestamp)
        ensures
            r == self.occurred_at,
    {
        self.occurred_at
    }

    fn aggregate_id(&self) -> (r: String)
        ensures
            r@ == decimal(self.user_id.0 as int),
    {
        decimal_text(self.user_id.0)
    }

    fn payload(&self) -> (r: EventPayload)
        ensures
            r.fields@.len() == 1,
            has_field(r, 0, "user_id"@, PayloadValue::Int(self.user_id.0)),
    {
        EventPayload { fields: vec![field("user_id", PayloadValue::Int(self.user_id.0))] }
    }
}

/// Some fields of a user changed.
#[derive(Clone, Debug)]
pub struct UserUpdatedEvent {
    pub user_id: UserId,
    pub name: Option<String>,
    pub email: Option<String>,
    pub occurred_at: Timestamp,
}

impl UserUpdatedEvent {
    pub fn new(user_id: UserId, name: Option<String>, email: Option<String>) -> (r: UserUpdatedEvent)
        ensures
            r.user_id == user_id,
            r.name == name,
            r.email == email,
    {
        UserUpdatedEvent { user_id, name, email, occurred_at: now_utc() }
    }
}

impl DomainEvent for UserUpdatedEvent {
    open spec fn kind(&self) -> Seq<char> {
        "user.updated"@
    }

    fn event_type(&self) -> (r: &'static str) {
        "user.updated"
    }

    fn occurred_at(&self) -> (r: Timestamp)
        ensures
            r == self.occurred_at,
    {
        self.occurred_at
    }

    fn aggregate_id(&self) -> (r: String)
        ensures
            r@ == decimal(self.user_id.0 as int),
    {
        decimal_text(self.user_id.0)
    }

    fn payload(&self) -> (r: EventPayload)
        ensures
            r.fields@.len() == 3,
            has_field(r, 0, "user_id"@, PayloadValue::Int(self.user_id.0)),
            r.fields@[1].key@ == "name"@ && text_or_null(r.fields@[1].value, self.name),
            r.fields@[2].key@ == "email"@ && text_or_null(r.fields@[2].value, self.email),
    {
        EventPayload {
            fields: vec![
                field("user_id", PayloadValue::Int(self.user_id.0)),
                field("name", optional_text(&self.name)),
                field("email", optional_text(&self.email)),
            ],
        }
    }
}

/// The application came up.
#[derive(Clone, Debug)]
pub struct ApplicationStartedEvent {
    pub app_name: String,
    pub version: String,
    pub occurred_at: Timestamp,
}

impl ApplicationStartedEvent {
    pub fn new(app_name: String, version: String) -> (r: ApplicationStartedEvent)
        ensures
            r.app_name == app_name,
            r.version == version,
    {
        ApplicationStartedEvent { app_name, version, occurred_at: now_utc() }
    }
}

impl DomainEvent for ApplicationStartedEvent {
    open spec fn kind(&self) -> Seq<char> {
        "application.started"@
    }

    fn event_type(&self) -> (r: &'static str) {
        "application.started"
    }

    fn occurred_at(&self) -> (r: Timestamp)
        ensures
            r == self.occurred_at,
    {
        self.occurred_at
    }

    fn aggregate_id(&self) -> (r: String)
        ensures
            r@ == self.app_name@,
    {
        self.app_name.clone()
    }

    fn payload(&self) -> (r: EventPayload)
        ensures
            r.fields@.len() == 2,
            has_field(r, 0, "app_name"@, PayloadValue::Text(self.app_name)),
            has_field(r, 1, "version"@, PayloadValue::Text(self.version)),
    {
        EventPayload {
            fields: vec![
                field("app_name", PayloadValue::Text(self.app_name.clone())),
                field("version", PayloadValue::Text(self.version.clone())),
            ],
        }
    }
}

/// The application is going down.
#[derive(Clone, Debug)]
pub struct ApplicationShutdownEvent {
    pub app_name: String,
    pub reason: Option<String>,
    pub occurred_at: Timestamp,
}

impl ApplicationShutdownEvent {
    pub fn new(app_name: String, reason: Option<String>) -> (r: ApplicationShutdownEvent)
        ensures
            r.app_name == app_name,
            r.reason == reason,
    {
        ApplicationShutdownEvent { app_name, reason, occurred_at: now_utc() }
    }
}

impl DomainEvent for ApplicationShutdownEvent {
    open spec fn kind(&self) -> Seq<char> {
        "application.shutdown"@
    }

    fn event_type(&self) -> (r: &'static str) {
        "application.shutdown"
    }

    fn occurred_at(&self) -> (r: Timestamp)
        ensures
            r == self.occurred_at,
    {
        self.occurred_at
    }

    fn aggregate_id(&self) -> (r: String)
        ensures
            r@ == self.app_name@,
    {
        self.app_name.clone()
    }

    fn payload(&self) -> (r: EventPayload)
        ensures
            r.fields@.len() == 2,
            has_field(r, 0, "app_name"@, PayloadValue::Text(self.app_name)),
            r.fields@[1].key@ == "reason"@ && text_or_null(r.fields@[1].value, self.reason),
    {
        EventPayload {
            fields: vec![
                field("app_name", PayloadValue::Text(self.app_name.clone())),
                field("reason", optional_text(&self.reason)),
            ],
        }
    }
}

} // verus!
