use vstd::prelude::*;
use crate::error::DomainError;
use crate::events::{random_identifier, DomainEvent, EventPayload};
use crate::text::same_text;

verus! {

/// The port through which the core hands events to subscribers.
pub trait EventBus {
    /// The bus's own invariant.
    spec fn ready(&self) -> bool;

    /// The types of the events handed to the bus so far, in order.
    spec fn handed(&self) -> Seq<Seq<char>>;

    /// Delivers the event to the current subscribers of its type.
    fn publish<E: DomainEvent>(&mut self, event: &E) -> (r: Result<(), DomainError>)
        requires
            old(self).ready(),
        ensures
            final(self).ready(),
            final(self).handed() == old(self).handed().push(event.kind()),
    ;
}

/// The bus that drops every event: the default when nothing subscribes.
pub struct NoopEventBus {
    handed: Ghost<Seq<Seq<char>>>,
}

impl NoopEventBus {
    pub fn new() -> (r: NoopEventBus)
        ensures
            r.handed() == Seq::<Seq<char>>::empty(),
    {
        NoopEventBus { handed: Ghost(Seq::empty()) }
    }
}

impl EventBus for NoopEventBus {
    open spec fn ready(&self) -> bool {
        true
    }

    closed spec fn handed(&self) -> Seq<Seq<char>> {
        self.handed@
    }

    fn publish<E: DomainEvent>(&mut self, event: &E) -> (r: Result<(), DomainError>)
        ensures
            r is Ok,
    {
        proof {
            self.handed@ = self.handed@.push(event.kind());
        }
        Ok(())
    }
}

/// A receiver of events, implemented by the parties that subscribe.
pub trait EventHandler {
    /// The event types this handler has been called with, in order.
    closed spec fn received(&self) -> Seq<Seq<char>> {
        Seq::empty()
    }

    /// Receives one event; the call is recorded in `received`.
    fn handle(&mut self, event_type: &str, payload: &EventPayload)
        ensures
            final(self).received() == old(self).received().push(event_type@),
    ;
}

/// A registration of one handler under one event type.
#[derive(Clone, Debug)]
pub struct Subscription {
    pub id: String,
    pub event_type: String,
}

impl View for Subscription {
    type V = (Seq<char>, Seq<char>);

    open spec fn view(&self) -> (Seq<char>, Seq<char>) {
        (self.id@, self.event_type@)
    }
}

/// The (id, event type) pairs of a sequence of subscriptions.
pub open spec fn registrations(s: Seq<Subscription>) -> Seq<(Seq<char>, Seq<char>)> {
    s.map_values(|x: Subscription| x@)
}

/// Settings of the in-memory bus.
#[derive(Clone, Copy, Debug, PartialEq, Eq, Structural)]
pub struct EventBusConfig {
    pub max_queue_size: usize,
    pub enable_logging: bool,
    pub enable_metrics: bool,
}

impl EventBusConfig {
    /// Queue size 10000, logging and metrics on.
    pub fn new() -> (r: EventBusConfig)
        ensures
            r.max_queue_size == 10000,
            r.enable_logging,
            r.enable_metrics,
    {
        EventBusConfig { max_queue_size: 10000, enable_logging: true, enable_metrics: true }
    }

    pub fn with_max_queue_size(self, size: usize) -> (r: EventBusConfig)
        ensures
            r == (EventBusConfig { max_queue_size: size, ..self }),
    {
        EventBusConfig { max_queue_size: size, ..self }
    }

    pub fn with_logging(self, enabled: bool) -> (r: EventBusConfig)
        ensures
            r == (EventBusConfig { enable_logging: enabled, ..self }),
    {
        EventBusConfig { enable_logging: enabled, ..self }
    }

    pub fn with_metrics(self, enabled: bool) -> (r: EventBusConfig)
        ensures
            r == (EventBusConfig { enable_metrics: enabled, ..self }),
    {
        EventBusConfig { enable_metrics: enabled, ..self }
    }
}

impl Default for EventBusConfig {
    fn default() -> (r: EventBusConfig)
        ensures
            r == EventBusConfig::spec_new(),
    {
        EventBusConfig::new()
    }
}

impl EventBusConfig {
    pub open spec fn spec_new() -> EventBusConfig {
        EventBusConfig { max_queue_size: 10000, enable_logging: true, enable_metrics: true }
    }
}

/// Counters kept for the life of a bus, reset only by `clear`.
#[derive(Clone, Debug)]
pub struct EventBusMetrics {
    pub events_published: usize,
    pub events_handled: usize,
    pub events_failed: usize,
    pub last_event_type: Option<String>,
}

impl EventBusMetrics {
    /// All counters at zero, no event seen.
    pub fn new() -> (r: EventBusMetrics)
        ensures
            r.is_reset(),
    {
        EventBusMetrics { events_published: 0, events_handled: 0, events_failed: 0, last_event_type: None }
    }

    pub open spec fn is_reset(&self) -> bool {
        self.events_published == 0 && self.events_handled == 0 && self.events_failed == 0
            && self.last_event_type is None
    }
}

/// `a + k`, held at `usize::MAX`.
pub open spec fn saturating_sum(a: int, k: int) -> int {
    if a + k > usize::MAX {
        usize::MAX as int
    } else {
        a + k
    }
}

/// The ids of the subscriptions to `event_type`, in registration order.
pub open spec fn recipients(subs: Seq<(Seq<char>, Seq<char>)>, event_type: Seq<char>) -> Seq<Seq<char>>
    decreases subs.len(),
{
    if subs.len() == 0 {
        Seq::empty()
    } else {
        let earlier = recipients(subs.drop_last(), event_type);
        if subs.last().1 == event_type {
            earlier.push(subs.last().0)
        } else {
            earlier
        }
    }
}

/// Some subscription has the id.
pub open spec fn has_subscription(subs: Seq<(Seq<char>, Seq<char>)>, id: Seq<char>) -> bool {
    exists|i: int| 0 <= i < subs.len() && #[trigger] subs[i].0 == id
}

/// The position of the subscription with the id (meaningful where it exists).
pub open spec fn subscription_index(subs: Seq<(Seq<char>, Seq<char>)>, id: Seq<char>) -> int {
    choose|i: int| 0 <= i < subs.len() && #[trigger] subs[i].0 == id
}

/// No two subscriptions share an id.
pub open spec fn ids_distinct(subs: Seq<(Seq<char>, Seq<char>)>) -> bool {
    forall|i: int, j: int|
        0 <= i < subs.len() && 0 <= j < subs.len() && i != j ==> #[trigger] subs[i].0 != #[trigger] subs[j].0
}

/// A synchronous in-process bus. Handlers run in registration order inside
/// `publish`; a handler cannot report failure, so delivery is fire-and-forget.
/// Every change takes `&mut self`, so `publish`, `subscribe`, `unsubscribe`
/// and `clear` exclude one another; a bus shared between threads sits
/// behind a single lock.
pub struct InMemoryEventBus<H: EventHandler> {
    subscriptions: Vec<Subscription>,
    handlers: Vec<H>,
    config: EventBusConfig,
    metrics: EventBusMetrics,
    /// The subscription ids whose handlers have run, in order.
    deliveries: Ghost<Seq<Seq<char>>>,
    /// The types of the events published, in order.
    published: Ghost<Seq<Seq<char>>>,
}

impl<H: EventHandler> InMemoryEventBus<H> {
    /// The registrations, in order, as (id, event type).
    pub closed spec fn subscriptions(&self) -> Seq<(Seq<char>, Seq<char>)> {
        registrations(self.subscriptions@)
    }

    /// The subscription ids whose handlers have run, in order.
    pub closed spec fn delivered(&self) -> Seq<Seq<char>> {
        self.deliveries@
    }

    /// What each registered handler has received, in registration order.
    pub closed spec fn handler_logs(&self) -> Seq<Seq<Seq<char>>> {
        self.handlers@.map_values(|h: H| h.received())
    }

    pub closed spec fn spec_config(&self) -> EventBusConfig {
        self.config
    }

    pub closed spec fn spec_metrics(&self) -> EventBusMetrics {
        self.metrics
    }

    pub closed spec fn well_formed(&self) -> bool {
        self.subscriptions@.len() == self.handlers@.len() && ids_distinct(self.subscriptions())
    }

    /// An empty bus with the given settings.
    pub fn new(config: EventBusConfig) -> (r: Self)
        ensures
            r.well_formed(),
            r.subscriptions() == Seq::<(Seq<char>, Seq<char>)>::empty(),
            r.spec_config() == config,
            r.spec_metrics().is_reset(),
            r.delivered() == Seq::<Seq<char>>::empty(),
            r.handler_logs() == Seq::<Seq<Seq<char>>>::empty(),
    {
        let r = InMemoryEventBus {
            subscriptions: Vec::new(),
            handlers: Vec::new(),
            config,
            metrics: EventBusMetrics::new(),
            deliveries: Ghost(Seq::empty()),
            published: Ghost(Seq::empty()),
        };
        assert(r.subscriptions() =~= Seq::<(Seq<char>, Seq<char>)>::empty());
        assert(r.handler_logs() =~= Seq::<Seq<Seq<char>>>::empty());
        r
    }

    /// The position of the subscription with the id, if any.
    fn find(&self, id: &str) -> (r: Option<usize>)
        requires
            self.well_formed(),
        ensures
            match r {
                Some(i) => has_subscription(self.subscriptions(), id@)
                    && i == subscription_index(self.subscriptions(), id@),
                None => !has_subscription(self.subscriptions(), id@),
            },
    {
        let ghost s = self.subscriptions();
        let mut i: usize = 0;
        while i < self.subscriptions.len()
            invariant
                s == self.subscriptions(),
                self.well_formed(),
                i <= self.subscriptions@.len(),
                forall|j: int| 0 <= j < i ==> s[j].0 != id@,
            decreases self.subscriptions@.len() - i,
        {
            if same_text(self.subscriptions[i].id.as_str(), id) {
                assert(s[i as int].0 == id@);
                let ghost k = subscription_index(s, id@);
                assert(s[k].0 == id@);
                return Some(i);
            }
            i = i + 1;
        }
        None
    }

    /// Registers `handler` for `event_type` under the id `id`. Fails with
    /// `AlreadyExists`, registering nothing, when the id is in use.
    pub fn subscribe_with_id(&mut self, id: String, event_type: &str, handler: H) -> (r: Result<(), DomainError>)
        requires
            old(self).well_formed(),
        ensures
            final(self).well_formed(),
            final(self).spec_config() == old(self).spec_config(),
            final(self).spec_metrics() == old(self).spec_metrics(),
            final(self).delivered() == old(self).delivered(),
            if has_subscription(old(self).subscriptions(), id@) {
                r matches Err(e) && e is AlreadyExists
                    && final(self).subscriptions() == old(self).subscriptions()
                    && final(self).handler_logs() == old(self).handler_logs()
            } else {
                r is Ok && final(self).subscriptions() == old(self).subscriptions().push((id@, event_type@))
                    && final(self).handler_logs() == old(self).handler_logs().push(handler.received())
            },
    {
        if self.find(id.as_str()).is_some() {
            return Err(DomainError::AlreadyExists(String::from_str("Subscription id in use")));
        }
        let ghost before = self.subscriptions();
        let ghost logs = self.handler_logs();
        let ghost got = handler.received();
        self.subscriptions.push(Subscription { id, event_type: event_type.to_owned() });
        self.handlers.push(handler);
        proof {
            assert(self.handler_logs() =~= logs.push(got));
            let s = self.subscriptions();
            assert(s =~= before.push((id@, event_type@)));
            assert forall|i: int, j: int| 0 <= i < s.len() && 0 <= j < s.len() && i != j implies
                #[trigger] s[i].0 != #[trigger] s[j].0 by {
                if i < before.len() && j < before.len() {
                } else if i < before.len() {
                    assert(s[i] == before[i]);
                } else {
                    assert(s[j] == before[j]);
                }
            }
        }
        Ok(())
    }

    /// Registers `handler` for `event_type` under a fresh random id, which
    /// it returns. Should the id drawn be in use already, nothing is
    /// registered and the result is `AlreadyExists`.
    pub fn subscribe(&mut self, event_type: &str, handler: H) -> (r: Result<String, DomainError>)
        requires
            old(self).well_formed(),
        ensures
            final(self).well_formed(),
            final(self).spec_config() == old(self).spec_config(),
            final(self).spec_metrics() == old(self).spec_metrics(),
            final(self).delivered() == old(self).delivered(),
            old(self).subscriptions().len() == 0 ==> r is Ok,
            match r {
                Ok(id) => !has_subscription(old(self).subscriptions(), id@)
                    && final(self).subscriptions() == old(self).subscriptions().push((id@, event_type@))
                    && final(self).handler_logs() == old(self).handler_logs().push(handler.received()),
                Err(e) => e is AlreadyExists && final(self).subscriptions() == old(self).subscriptions()
                    && final(self).handler_logs() == old(self).handler_logs(),
            },
    {
        let id = random_identifier();
        match self.subscribe_with_id(id.clone(), event_type, handler) {
            Ok(()) => Ok(id),
            Err(e) => Err(e),
        }
    }

    /// Removes the subscription with the id and its handler; `NotFound` when
    /// there is none.
    pub fn unsubscribe(&mut self, subscription_id: &str) -> (r: Result<(), DomainError>)
        requires
            old(self).well_formed(),
        ensures
            final(self).well_formed(),
            final(self).spec_config() == old(self).spec_config(),
            final(self).spec_metrics() == old(self).spec_metrics(),
            final(self).delivered() == old(self).delivered(),
            if has_subscription(old(self).subscriptions(), subscription_id@) {
                r is Ok && final(self).subscriptions() == old(self).subscriptions().remove(
                    subscription_index(old(self).subscriptions(), subscription_id@),
                ) && final(self).handler_logs() == old(self).handler_logs().remove(
                    subscription_index(old(self).subscriptions(), subscription_id@),
                )
            } else {
                r matches Err(e) && e is NotFound && final(self).subscriptions() == old(self).subscriptions()
                    && final(self).handler_logs() == old(self).handler_logs()
            },
    {
        match self.find(subscription_id) {
            None => Err(DomainError::NotFound(String::from_str("Subscription not found"))),
            Some(i) => {
                let ghost before = self.subscriptions();
                let ghost logs = self.handler_logs();
                let _ = self.subscriptions.remove(i);
                let _ = self.handlers.remove(i);
                proof {
                    assert(self.handler_logs() =~= logs.remove(i as int));
                    let s = self.subscriptions();
                    assert(s =~= before.remove(i as int));
                    assert forall|a: int, b: int| 0 <= a < s.len() && 0 <= b < s.len() && a != b implies
                        #[trigger] s[a].0 != #[trigger] s[b].0 by {
                        let a2 = if a < i as int { a } else { a + 1 };
                        let b2 = if b < i as int { b } else { b + 1 };
                        assert(s[a] == before[a2] && s[b] == before[b2]);
                    }
                }
                Ok(())
            },
        }
    }

    /// The registrations, in order.
    pub fn get_subscriptions(&self) -> (r: Vec<Subscription>)
        ensures
            registrations(r@) == self.subscriptions(),
    {
        let mut out: Vec<Subscription> = Vec::new();
        let mut i: usize = 0;
        while i < self.subscriptions.len()
            invariant
                i <= self.subscriptions@.len(),
                registrations(out@) == self.subscriptions().subrange(0, i as int),
            decreases self.subscriptions@.len() - i,
        {
            let s = &self.subscriptions[i];
            let c = Subscription { id: s.id.clone(), event_type: s.event_type.clone() };
            let ghost before = out@;
            out.push(c);
            assert(out@ == before.push(c));
            assert(registrations(out@) =~= registrations(before).push(c@));
            assert(registrations(out@) =~= self.subscriptions().subrange(0, i + 1));
            i = i + 1;
        }
        assert(self.subscriptions().subrange(0, i as int) =~= self.subscriptions());
        out
    }

    /// A snapshot of the counters.
    pub fn get_metrics(&self) -> (r: EventBusMetrics)
        ensures
            r.events_published == self.spec_metrics().events_published,
            r.events_handled == self.spec_metrics().events_handled,
            r.events_failed == self.spec_metrics().events_failed,
            match (r.last_event_type, self.spec_metrics().last_event_type) {
                (Some(a), Some(b)) => a@ == b@,
                (None, None) => true,
                _ => false,
            },
    {
        EventBusMetrics {
            events_published: self.metrics.events_published,
            events_handled: self.metrics.events_handled,
            events_failed: self.metrics.events_failed,
            last_event_type: match &self.metrics.last_event_type {
                Some(t) => Some(t.clone()),
                None => None,
            },
        }
    }

    /// Drops every subscription and handler and resets the counters.
    pub fn clear(&mut self)
        requires
            old(self).well_formed(),
        ensures
            final(self).well_formed(),
            final(self).subscriptions() == Seq::<(Seq<char>, Seq<char>)>::empty(),
            final(self).spec_metrics().is_reset(),
            final(self).handler_logs() == Seq::<Seq<Seq<char>>>::empty(),
            final(self).spec_config() == old(self).spec_config(),
            final(self).delivered() == old(self).delivered(),
    {
        self.subscriptions.clear();
        self.handlers.clear();
        self.metrics = EventBusMetrics::new();
        assert(self.subscriptions() =~= Seq::<(Seq<char>, Seq<char>)>::empty());
        assert(self.handler_logs() =~= Seq::<Seq<Seq<char>>>::empty());
    }
}

impl<H: EventHandler> EventBus for InMemoryEventBus<H> {
    open spec fn ready(&self) -> bool {
        self.well_formed()
    }

    closed spec fn handed(&self) -> Seq<Seq<char>> {
        self.published@
    }

    /// Runs, in registration order, each handler subscribed to the event's
    /// type, once, and no other handler. Counts each handler run as handled;
    /// when at least one handler ran, counts the event as published and
    /// records its type as the last one seen.
    fn publish<E: DomainEvent>(&mut self, event: &E) -> (r: Result<(), DomainError>)
        ensures
            r is Ok,
            final(self).well_formed(),
            final(self).subscriptions() == old(self).subscriptions(),
            final(self).spec_config() == old(self).spec_config(),
            final(self).handler_logs().len() == old(self).handler_logs().len(),
            forall|i: int| 0 <= i < old(self).handler_logs().len() ==> #[trigger] final(self).handler_logs()[i]
                == if old(self).subscriptions()[i].1 == event.kind() {
                    old(self).handler_logs()[i].push(event.kind())
                } else {
                    old(self).handler_logs()[i]
                },
            final(self).delivered() == old(self).delivered() + recipients(old(self).subscriptions(), event.kind()),
            final(self).spec_metrics().events_handled == saturating_sum(
                old(self).spec_metrics().events_handled as int,
                recipients(old(self).subscriptions(), event.kind()).len() as int,
            ),
            final(self).spec_metrics().events_failed == old(self).spec_metrics().events_failed,
            recipients(old(self).subscriptions(), event.kind()).len() > 0 ==> (
                final(self).spec_metrics().events_published
                    == saturating_sum(old(self).spec_metrics().events_published as int, 1)
                && (final(self).spec_metrics().last_event_type matches Some(t) && t@ == event.kind())),
            recipients(old(self).subscriptions(), event.kind()).len() == 0 ==> (
                final(self).spec_metrics().events_published == old(self).spec_metrics().events_published
                && final(self).spec_metrics().last_event_type == old(self).spec_metrics().last_event_type),
    {
        proof {
            self.published@ = self.published@.push(event.kind());
        }
        let event_type = event.event_type();
        let payload = event.payload();
        let ghost subs = self.subscriptions();
        let ghost logs = self.handler_logs();
        let ghost start = self.deliveries@;
        let ghost handled0 = self.metrics.events_handled as int;
        let mut reached = false;
        let mut i: usize = 0;
        while i < self.subscriptions.len()
            invariant
                self.well_formed(),
                subs == self.subscriptions(),
                logs.len() == subs.len(),
                self.handler_logs().len() == subs.len(),
                forall|j: int| 0 <= j < i ==> #[trigger] self.handler_logs()[j] == if subs[j].1 == event_type@ {
                    logs[j].push(event_type@)
                } else {
                    logs[j]
                },
                forall|j: int| i <= j < subs.len() ==> #[trigger] self.handler_logs()[j] == logs[j],
                self.config == old(self).config,
                self.published@ == old(self).published@.push(event.kind()),
                i <= self.subscriptions@.len(),
                self.deliveries@ == start + recipients(subs.subrange(0, i as int), event_type@),
                reached == (recipients(subs.subrange(0, i as int), event_type@).len() > 0),
                self.metrics.events_published == old(self).metrics.events_published,
                self.metrics.events_failed == old(self).metrics.events_failed,
                self.metrics.last_event_type == old(self).metrics.last_event_type,
                self.metrics.events_handled == saturating_sum(
                    handled0,
                    recipients(subs.subrange(0, i as int), event_type@).len() as int,
                ),
            decreases self.subscriptions@.len() - i,
        {
            assert(subs.subrange(0, i + 1).drop_last() =~= subs.subrange(0, i as int));
            assert(subs.subrange(0, i + 1).last() == subs[i as int]);
            if same_text(self.subscriptions[i].event_type.as_str(), event_type) {
                let ghost before = self.handler_logs();
                self.handlers[i].handle(event_type, &payload);
                proof {
                    self.deliveries@ = self.deliveries@.push(subs[i as int].0);
                    assert(self.handler_logs() =~= before.update(i as int, before[i as int].push(event_type@)));
                }
                assert(self.deliveries@ =~= start + recipients(subs.subrange(0, i + 1), event_type@));
                reached = true;
                if self.metrics.events_handled < usize::MAX {
                    self.metrics.events_handled = self.metrics.events_handled + 1;
                }
            }
            i = i + 1;
        }
        assert(subs.subrange(0, i as int) =~= subs);
        if reached {
            if self.metrics.events_published < usize::MAX {
                self.metrics.events_published = self.metrics.events_published + 1;
            }
            self.metrics.last_event_type = Some(event_type.to_owned());
        }
        Ok(())
    }
}

} // verus!
