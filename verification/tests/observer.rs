use std::fmt;
use std::sync::atomic::{AtomicU32, Ordering};
use std::sync::Arc;

use chorus::observer::{GatewayEvent, Observer, ObserverError, WebSocketEvent};

#[derive(Debug, Clone, PartialEq)]
struct GatewayResume {
    token: String,
    session_id: String,
    seq: String,
}

impl WebSocketEvent for GatewayResume {}

#[derive(Debug)]
struct Consumer;

impl Observer<GatewayResume> for Consumer {
    fn update(&self, data: &GatewayResume) {
        println!("{}", data.token)
    }
}

/// An observer whose debug rendering shows how many updates it has seen.
struct Counting {
    seen: AtomicU32,
}

impl fmt::Debug for Counting {
    fn fmt(&self, f: &mut fmt::Formatter<'_>) -> fmt::Result {
        f.debug_tuple("Counting").field(&self.seen.load(Ordering::SeqCst)).finish()
    }
}

impl Observer<GatewayResume> for Counting {
    fn update(&self, _data: &GatewayResume) {
        self.seen.fetch_add(1, Ordering::SeqCst);
    }
}

type Handle = Arc<dyn Observer<GatewayResume> + Send + Sync>;

#[derive(Debug, Default, Clone, Copy, PartialEq)]
struct Counter(u32);

impl WebSocketEvent for Counter {}

type CounterHandle = Arc<dyn Observer<Counter> + Send + Sync>;

fn rendering(handle: &Handle) -> String {
    format!("{:?}", handle)
}

/// Unsubscribes `observable`, comparing the renderings the observers have now.
fn unsubscribe(event: &mut GatewayEvent<GatewayResume, Handle>, observable: &Handle) {
    let renderings: Vec<String> = event.observers().iter().map(rendering).collect();
    event.unsubscribe(&renderings, &rendering(observable));
}

fn notify(event: &GatewayEvent<GatewayResume, Handle>) {
    for observer in event.observers() {
        observer.update(event.event_data());
    }
}

fn start_event() -> GatewayEvent<GatewayResume, Handle> {
    GatewayEvent::new(GatewayResume {
        token: "start".to_string(),
        session_id: "start".to_string(),
        seq: "start".to_string(),
    })
}

#[test]
fn test_observer_behaviour() {
    let mut event = start_event();

    let new_data = GatewayResume {
        token: "token_3276ha37am3".to_string(),
        session_id: "89346671230".to_string(),
        seq: "3".to_string(),
    };

    let consumer: Handle = Arc::new(Consumer);
    event.subscribe(consumer.clone());

    notify(&event);

    event.update_data(new_data.clone());
    notify(&event);
    assert_eq!(event.event_data(), &new_data);

    let second_consumer: Handle = Arc::new(Consumer);

    match event.subscribe(second_consumer.clone()) {
        None => assert!(false),
        Some(err) => println!("You cannot subscribe twice: {:?}", err),
    }

    unsubscribe(&mut event, &consumer);

    match event.subscribe(second_consumer.clone()) {
        None => assert!(true),
        Some(_err) => assert!(false),
    }
}

#[test]
fn is_observed_reports_a_subscription_not_the_flag() {
    let mut event = start_event();
    event.is_observed = true;
    assert!(!event.is_observed());
    let consumer: Handle = Arc::new(Consumer);
    event.is_observed = false;
    assert_eq!(event.subscribe(consumer), None);
    event.is_observed = false;
    assert!(event.is_observed());
}

#[test]
fn default_event_is_unobserved() {
    let event: GatewayEvent<Counter, CounterHandle> = GatewayEvent::default();
    assert!(!event.is_observed());
    assert!(!event.is_observed);
    assert!(event.observers().is_empty());
    assert_eq!(event.event_data(), &Counter(0));
}

#[test]
fn new_event_is_unobserved() {
    let event = start_event();
    assert!(!event.is_observed());
    assert!(event.observers().is_empty());
    assert_eq!(event.event_data().token, "start");
}

#[test]
fn second_subscription_is_refused_and_changes_nothing() {
    let mut event = start_event();
    let first: Handle = Arc::new(Consumer);
    assert_eq!(event.subscribe(first.clone()), None);
    let second: Handle = Arc::new(Counting { seen: AtomicU32::new(0) });
    assert_eq!(event.subscribe(second), Some(ObserverError::AlreadySubscribedError));
    assert!(event.is_observed());
    assert_eq!(event.observers().len(), 1);
    assert!(Arc::ptr_eq(&event.observers()[0], &first));
}

#[test]
fn unsubscribe_undoes_subscribe() {
    let mut event = start_event();
    let consumer: Handle = Arc::new(Consumer);
    assert_eq!(event.subscribe(consumer.clone()), None);
    unsubscribe(&mut event, &consumer);
    assert!(!event.is_observed());
    assert!(event.observers().is_empty());
}

#[test]
fn unsubscribe_compares_renderings_as_they_read_then() {
    let mut event = start_event();
    let counting = Arc::new(Counting { seen: AtomicU32::new(0) });
    let handle: Handle = counting.clone();
    assert_eq!(event.subscribe(handle.clone()), None);
    notify(&event);
    assert_eq!(rendering(&handle), "Counting(1)");
    unsubscribe(&mut event, &handle);
    assert!(!event.is_observed());
    assert!(event.observers().is_empty());
}

#[test]
fn unsubscribing_another_observer_keeps_the_observer() {
    let mut event = start_event();
    let consumer: Handle = Arc::new(Consumer);
    assert_eq!(event.subscribe(consumer), None);
    let other: Handle = Arc::new(Counting { seen: AtomicU32::new(5) });
    unsubscribe(&mut event, &other);
    assert!(event.is_observed());
    assert_eq!(event.observers().len(), 1);
}

#[test]
fn unsubscribing_an_unobserved_event_keeps_it_unobserved() {
    let mut event = start_event();
    let consumer: Handle = Arc::new(Consumer);
    unsubscribe(&mut event, &consumer);
    assert!(!event.is_observed());
    assert!(event.observers().is_empty());
}

#[test]
fn update_data_keeps_the_subscription() {
    let mut event = start_event();
    let consumer: Handle = Arc::new(Consumer);
    assert_eq!(event.subscribe(consumer), None);
    event.update_data(GatewayResume {
        token: "t".to_string(),
        session_id: "s".to_string(),
        seq: "1".to_string(),
    });
    assert!(event.is_observed());
    assert_eq!(event.observers().len(), 1);
    assert_eq!(event.event_data().seq, "1");
}
