use std::cell::RefCell;
use std::rc::Rc;

use app_core::error::DomainError;
use app_core::event_bus::{EventBus, EventBusConfig, EventBusMetrics, EventHandler, InMemoryEventBus};
use app_core::events::{EventPayload, PayloadValue, UserCreatedEvent, UserDeletedEvent};
use app_core::repository::InMemoryUserRepository;
use app_core::service::UserServiceImpl;
use app_core::user::{Email, NewUser, UserId, UserRole};

type Log = Rc<RefCell<Vec<(String, String)>>>;

struct Recorder {
    label: String,
    log: Log,
}

impl EventHandler for Recorder {
    fn handle(&mut self, event_type: &str, _payload: &EventPayload) {
        self.log.borrow_mut().push((self.label.clone(), event_type.to_string()));
    }
}

fn recorder(label: &str, log: &Log) -> Recorder {
    Recorder { label: label.to_string(), log: log.clone() }
}

fn bus() -> InMemoryEventBus<Recorder> {
    InMemoryEventBus::new(EventBusConfig::new())
}

fn labels(log: &Log) -> Vec<String> {
    log.borrow().iter().map(|(l, _)| l.clone()).collect()
}

#[test]
fn both_subscribers_run_once_in_order() {
    let log: Log = Rc::new(RefCell::new(Vec::new()));
    let mut b = bus();
    b.subscribe("user.deleted", recorder("first", &log)).unwrap();
    b.subscribe("user.deleted", recorder("second", &log)).unwrap();
    b.publish(&UserDeletedEvent::new(UserId(1))).unwrap();
    assert_eq!(labels(&log), vec!["first", "second"]);
}

#[test]
fn unsubscribed_handler_no_longer_runs() {
    let log: Log = Rc::new(RefCell::new(Vec::new()));
    let mut b = bus();
    let a = b.subscribe("user.deleted", recorder("first", &log)).unwrap();
    b.subscribe("user.deleted", recorder("second", &log)).unwrap();
    b.unsubscribe(&a).unwrap();
    b.publish(&UserDeletedEvent::new(UserId(1))).unwrap();
    assert_eq!(labels(&log), vec!["second"]);
}

#[test]
fn clear_resets_metrics_and_silences_handlers() {
    let log: Log = Rc::new(RefCell::new(Vec::new()));
    let mut b = bus();
    b.subscribe("user.deleted", recorder("first", &log)).unwrap();
    b.subscribe("user.deleted", recorder("second", &log)).unwrap();
    b.publish(&UserDeletedEvent::new(UserId(1))).unwrap();
    b.clear();
    let m = b.get_metrics();
    assert_eq!(m.events_published, 0);
    assert_eq!(m.events_handled, 0);
    assert_eq!(m.events_failed, 0);
    assert!(m.last_event_type.is_none());
    assert!(b.get_subscriptions().is_empty());
    b.publish(&UserDeletedEvent::new(UserId(2))).unwrap();
    assert_eq!(labels(&log), vec!["first", "second"]);
}

#[test]
fn only_matching_type_runs() {
    let log: Log = Rc::new(RefCell::new(Vec::new()));
    let mut b = bus();
    b.subscribe("user.created", recorder("created", &log)).unwrap();
    b.subscribe("user.deleted", recorder("deleted", &log)).unwrap();
    b.publish(&UserCreatedEvent::new(UserId(5), "N".to_string(), "n@x.io".to_string())).unwrap();
    assert_eq!(*log.borrow(), vec![("created".to_string(), "user.created".to_string())]);
}

#[test]
fn metrics_count_publishes_and_handlers() {
    let log: Log = Rc::new(RefCell::new(Vec::new()));
    let mut b = bus();
    b.subscribe("user.deleted", recorder("a", &log)).unwrap();
    b.subscribe("user.deleted", recorder("b", &log)).unwrap();
    b.publish(&UserDeletedEvent::new(UserId(1))).unwrap();
    b.publish(&UserCreatedEvent::new(UserId(2), "N".to_string(), "n@x.io".to_string())).unwrap();
    let m = b.get_metrics();
    assert_eq!(m.events_published, 1);
    assert_eq!(m.events_handled, 2);
    assert_eq!(m.events_failed, 0);
    assert_eq!(m.last_event_type.as_deref(), Some("user.deleted"));
}

#[test]
fn metrics_count_whatever_the_setting() {
    let log: Log = Rc::new(RefCell::new(Vec::new()));
    let mut b: InMemoryEventBus<Recorder> = InMemoryEventBus::new(EventBusConfig::new().with_metrics(false));
    b.subscribe("user.deleted", recorder("a", &log)).unwrap();
    b.publish(&UserDeletedEvent::new(UserId(1))).unwrap();
    assert_eq!(labels(&log), vec!["a"]);
    let m = b.get_metrics();
    assert_eq!(m.events_published, 1);
    assert_eq!(m.events_handled, 1);
    assert_eq!(m.last_event_type.as_deref(), Some("user.deleted"));
}

#[test]
fn subscribing_to_an_empty_bus_succeeds() {
    let log: Log = Rc::new(RefCell::new(Vec::new()));
    let mut b = bus();
    assert!(b.subscribe("x", recorder("a", &log)).is_ok());
}

#[test]
fn unsubscribe_unknown_id_is_not_found() {
    let mut b = bus();
    assert!(matches!(b.unsubscribe("nope"), Err(DomainError::NotFound(_))));
}

#[test]
fn subscription_ids_are_random_uuids() {
    let log: Log = Rc::new(RefCell::new(Vec::new()));
    let mut b = bus();
    let a = b.subscribe("x", recorder("a", &log)).unwrap();
    let c = b.subscribe("x", recorder("c", &log)).unwrap();
    assert_eq!(a.len(), 36);
    assert_eq!(a.matches('-').count(), 4);
    assert_ne!(a, c);
}

#[test]
fn reused_subscription_id_is_refused() {
    let log: Log = Rc::new(RefCell::new(Vec::new()));
    let mut b = bus();
    b.subscribe_with_id("s1".to_string(), "x", recorder("a", &log)).unwrap();
    let r = b.subscribe_with_id("s1".to_string(), "y", recorder("b", &log));
    assert!(matches!(r, Err(DomainError::AlreadyExists(_))));
    let subs = b.get_subscriptions();
    assert_eq!(subs.len(), 1);
    assert_eq!(subs[0].id, "s1");
    assert_eq!(subs[0].event_type, "x");
}

#[test]
fn subscriptions_listed_in_registration_order() {
    let log: Log = Rc::new(RefCell::new(Vec::new()));
    let mut b = bus();
    b.subscribe_with_id("s1".to_string(), "x", recorder("a", &log)).unwrap();
    b.subscribe_with_id("s2".to_string(), "y", recorder("b", &log)).unwrap();
    b.subscribe_with_id("s3".to_string(), "x", recorder("c", &log)).unwrap();
    b.unsubscribe("s2").unwrap();
    let ids: Vec<String> = b.get_subscriptions().into_iter().map(|s| s.id).collect();
    assert_eq!(ids, vec!["s1", "s3"]);
}

struct Capture(Rc<RefCell<Option<EventPayload>>>);

impl EventHandler for Capture {
    fn handle(&mut self, _t: &str, p: &EventPayload) {
        *self.0.borrow_mut() = Some(p.clone());
    }
}

#[test]
fn handler_sees_payload() {
    let seen = Rc::new(RefCell::new(None));
    let mut b: InMemoryEventBus<Capture> = InMemoryEventBus::new(EventBusConfig::new());
    b.subscribe("user.deleted", Capture(seen.clone())).unwrap();
    b.publish(&UserDeletedEvent::new(UserId(9))).unwrap();
    let p = seen.borrow().clone().unwrap();
    assert_eq!(p.fields[0].value, PayloadValue::Int(9));
}

#[test]
fn service_publishes_created_and_deleted() {
    let log: Log = Rc::new(RefCell::new(Vec::new()));
    let mut b = bus();
    b.subscribe("user.created", recorder("c", &log)).unwrap();
    b.subscribe("user.deleted", recorder("d", &log)).unwrap();
    let mut s = UserServiceImpl::new(InMemoryUserRepository::new(), b);
    let nu = NewUser { name: "Zed".to_string(), email: Email::new("zed@x.io").unwrap(), role: UserRole::User };
    let id = s.create_user(nu).unwrap();
    let dup = NewUser { name: "Zed".to_string(), email: Email::new("zed@x.io").unwrap(), role: UserRole::User };
    assert!(s.create_user(dup).is_err());
    s.delete_user(id).unwrap();
    assert!(s.delete_user(id).is_err());
    assert_eq!(*log.borrow(), vec![
        ("c".to_string(), "user.created".to_string()),
        ("d".to_string(), "user.deleted".to_string()),
    ]);
    assert_eq!(s.event_bus().get_metrics().events_published, 2);
}

#[test]
fn config_builders_set_one_field() {
    let c = EventBusConfig::new();
    assert_eq!(c.max_queue_size, 10000);
    assert!(c.enable_logging && c.enable_metrics);
    let c = c.with_max_queue_size(5).with_logging(false);
    assert_eq!(c.max_queue_size, 5);
    assert!(!c.enable_logging);
    assert!(c.enable_metrics);
    assert_eq!(EventBusConfig::default(), EventBusConfig::new());
}

#[test]
fn fresh_metrics_are_zero() {
    let m = EventBusMetrics::new();
    assert_eq!(m.events_published + m.events_handled + m.events_failed, 0);
    assert!(m.last_event_type.is_none());
}
