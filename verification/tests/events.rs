use std::sync::Arc;

use chorus::gateway::events::Events;
use chorus::gateway::DispatchKind;
use chorus::observer::{Observer, WebSocketEvent};

#[derive(Debug, Default, Clone, PartialEq)]
struct Data(String);

impl WebSocketEvent for Data {}

#[derive(Debug)]
struct Watcher;

impl Observer<Data> for Watcher {
    fn update(&self, data: &Data) {
        println!("{}", data.0)
    }
}

type Handle = Arc<dyn Observer<Data> + Send + Sync>;

const DATA_KINDS: [DispatchKind; 10] = [
    DispatchKind::MessageCreate,
    DispatchKind::MessageUpdate,
    DispatchKind::MessageDelete,
    DispatchKind::MessageDeleteBulk,
    DispatchKind::MessageReactionAdd,
    DispatchKind::MessageReactionRemove,
    DispatchKind::MessageReactionRemoveAll,
    DispatchKind::MessageReactionRemoveEmoji,
    DispatchKind::PresenceUpdate,
    DispatchKind::TypingStart,
];

#[test]
fn default_events_are_unobserved() {
    let events: Events<Data, Handle> = Events::default();
    for kind in DATA_KINDS {
        let event = events.event(kind).unwrap();
        assert!(!event.is_observed());
        assert_eq!(event.event_data, Data::default());
    }
    assert!(!events.gateway_identify_payload.is_observed());
    assert!(!events.gateway_resume.is_observed());
}

#[test]
fn store_updates_only_the_named_event() {
    let mut events: Events<Data, Handle> = Events::default();
    let watcher: Handle = Arc::new(Watcher);
    assert_eq!(events.message.create.subscribe(watcher), None);
    assert!(events.store(DispatchKind::MessageCreate, Data("hello".to_string())));
    assert_eq!(events.message.create.event_data, Data("hello".to_string()));
    assert!(events.message.create.is_observed());
    for kind in DATA_KINDS.iter().skip(1) {
        assert_eq!(events.event(*kind).unwrap().event_data, Data::default());
    }
    assert!(events.store(DispatchKind::TypingStart, Data("typing".to_string())));
    assert_eq!(events.user.typing_start_event.event_data, Data("typing".to_string()));
    assert_eq!(events.user.presence_update.event_data, Data::default());
}

#[test]
fn kinds_without_an_event_store_nothing() {
    let mut events: Events<Data, Handle> = Events::default();
    for kind in [DispatchKind::Ready, DispatchKind::Ignored, DispatchKind::Unknown] {
        assert!(events.event(kind).is_none());
        assert!(!events.store(kind, Data("dropped".to_string())));
    }
    for kind in DATA_KINDS {
        assert_eq!(events.event(kind).unwrap().event_data, Data::default());
    }
}
