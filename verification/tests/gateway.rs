use chorus::gateway::{
    is_ignored_event_name, DispatchKind, Gateway, GatewayAction, GatewayError, GatewayHeartbeat,
    GatewayPayload, HeartbeatHandler, HeartbeatLoop, HeartbeatThreadCommunication, OutgoingEvent,
    Received, Rejection,
};
use chorus::gateway::events::Events;
use chorus::observer::{Observer, WebSocketEvent};

#[derive(Debug, Default, Clone, Copy, PartialEq)]
struct Data(u32);

impl WebSocketEvent for Data {}

type Handle = std::sync::Arc<dyn Observer<Data> + Send + Sync>;

type Opened = Result<(Gateway, Events<Data, Handle>), GatewayError>;

fn payload(op: u8, d: Option<u32>, s: Option<u64>, t: Option<&str>) -> GatewayPayload<Data> {
    GatewayPayload { op, d: d.map(Data), s, t: t.map(|name| name.to_string()) }
}

fn open(op: u8, interval: Option<u128>) -> Opened {
    Gateway::new(op, interval)
}

fn opened() -> (Gateway, Events<Data, Handle>) {
    match open(10, Some(41250)) {
        Ok(opened) => opened,
        Err(_) => panic!("a hello opens the connection"),
    }
}

#[test]
fn hello_opens_the_connection() {
    let (gateway, events) = opened();
    assert!(gateway.heartbeat_handler().is_some());
    assert_eq!(gateway.heartbeat_handler().unwrap().heartbeat_interval, 41250);
    assert!(!events.message.create.is_observed());
    assert!(!events.user.typing_start_event.is_observed());
    assert!(!events.gateway_resume.is_observed());
    assert_eq!(events.message.update.event_data(), &Data::default());
}

#[test]
fn first_payload_other_than_hello_is_refused() {
    assert_eq!(open(0, None).err(), Some(GatewayError::InvalidOpcode(0)));
    assert_eq!(open(11, None).err(), Some(GatewayError::InvalidOpcode(11)));
}

#[test]
fn dispatch_names_are_classified() {
    assert_eq!(DispatchKind::classify("READY"), DispatchKind::Ready);
    assert_eq!(DispatchKind::classify("MESSAGE_CREATE"), DispatchKind::MessageCreate);
    assert_eq!(DispatchKind::classify("MESSAGE_UPDATE"), DispatchKind::MessageUpdate);
    assert_eq!(DispatchKind::classify("MESSAGE_DELETE"), DispatchKind::MessageDelete);
    assert_eq!(DispatchKind::classify("MESSAGE_DELETE_BULK"), DispatchKind::MessageDeleteBulk);
    assert_eq!(DispatchKind::classify("MESSAGE_REACTION_ADD"), DispatchKind::MessageReactionAdd);
    assert_eq!(DispatchKind::classify("MESSAGE_REACTION_REMOVE"), DispatchKind::MessageReactionRemove);
    assert_eq!(
        DispatchKind::classify("MESSAGE_REACTION_REMOVE_ALL"),
        DispatchKind::MessageReactionRemoveAll
    );
    assert_eq!(
        DispatchKind::classify("MESSAGE_REACTION_REMOVE_EMOJI"),
        DispatchKind::MessageReactionRemoveEmoji
    );
    assert_eq!(DispatchKind::classify("PRESENCE_UPDATE"), DispatchKind::PresenceUpdate);
    assert_eq!(DispatchKind::classify("TYPING_START"), DispatchKind::TypingStart);
    assert_eq!(DispatchKind::classify("GUILD_CREATE"), DispatchKind::Ignored);
    assert_eq!(DispatchKind::classify("SESSIONS_REPLACE"), DispatchKind::Ignored);
    assert_eq!(DispatchKind::classify("WEBHOOKS_UPDATE"), DispatchKind::Ignored);
    assert_eq!(DispatchKind::classify("NOT_AN_EVENT"), DispatchKind::Unknown);
    assert_eq!(DispatchKind::classify("message_create"), DispatchKind::Unknown);
    assert!(is_ignored_event_name("CHANNEL_PINS_UPDATE"));
    assert!(!is_ignored_event_name("TYPING_START"));
}

#[test]
fn payloads_the_client_cannot_handle_are_named() {
    assert_eq!(Gateway::check_payload(&payload(0, Some(1), None, None)), Err(Rejection::MissingEventName));
    assert_eq!(
        Gateway::check_payload(&payload(0, Some(1), None, Some("BOGUS"))),
        Err(Rejection::UnknownEventName)
    );
    assert_eq!(
        Gateway::check_payload(&payload(0, None, None, Some("MESSAGE_CREATE"))),
        Err(Rejection::MissingEventData)
    );
    assert_eq!(Gateway::check_payload(&payload(0, None, None, Some("READY"))), Err(Rejection::MissingEventData));
    assert_eq!(Gateway::check_payload(&payload(7, None, None, None)), Err(Rejection::Reconnect));
    assert_eq!(Gateway::check_payload(&payload(9, None, None, None)), Err(Rejection::InvalidSession));
    assert_eq!(Gateway::check_payload(&payload(10, Some(1), None, None)), Err(Rejection::UnexpectedHello));
    for op in [2u8, 3, 4, 6, 8] {
        assert_eq!(Gateway::check_payload(&payload(op, None, None, None)), Err(Rejection::ClientOpcode(op)));
    }
    assert_eq!(Gateway::check_payload(&payload(5, None, None, None)), Err(Rejection::InvalidOpcode(5)));
    assert_eq!(Gateway::check_payload(&payload(200, None, None, None)), Err(Rejection::InvalidOpcode(200)));
}

#[test]
fn payloads_the_client_handles_are_accepted() {
    assert_eq!(Gateway::check_payload(&payload(0, None, Some(3), Some("GUILD_CREATE"))), Ok(()));
    assert_eq!(Gateway::check_payload(&payload(0, Some(1), Some(3), Some("MESSAGE_CREATE"))), Ok(()));
    assert_eq!(Gateway::check_payload(&payload(1, None, None, None)), Ok(()));
    assert_eq!(Gateway::check_payload(&payload(11, None, None, None)), Ok(()));
}

#[test]
fn dispatch_with_sequence_is_forwarded_to_the_heartbeat() {
    let (gateway, mut events) = opened();
    let action = gateway.handle_event(payload(0, Some(1), Some(17), Some("MESSAGE_CREATE")), &mut events);
    assert_eq!(
        action,
        GatewayAction {
            received: Received::Dispatch(DispatchKind::MessageCreate),
            forward: Some(HeartbeatThreadCommunication { op: 0, d: 17 }),
        }
    );
    assert_eq!(events.message.create.event_data(), &Data(1));
}

#[test]
fn payload_without_sequence_forwards_nothing() {
    let (gateway, mut events) = opened();
    let action = gateway.handle_event(payload(11, None, None, None), &mut events);
    assert_eq!(action, GatewayAction { received: Received::HeartbeatAck, forward: None });
    let action = gateway.handle_event(payload(1, None, None, None), &mut events);
    assert_eq!(action, GatewayAction { received: Received::Heartbeat, forward: None });
    let action = gateway.handle_event(payload(0, None, None, Some("GUILD_UPDATE")), &mut events);
    assert_eq!(action, GatewayAction { received: Received::Dispatch(DispatchKind::Ignored), forward: None });
}

#[test]
fn heartbeat_is_due_only_after_the_interval() {
    let mut heartbeat = HeartbeatLoop::new(HeartbeatHandler::new(41250));
    assert_eq!(heartbeat.step(None, 41250), None);
    assert_eq!(heartbeat.step(None, 41251), Some(GatewayHeartbeat { op: 1, d: None }));
    assert_eq!(heartbeat.step(None, 0), None);
}

#[test]
fn heartbeat_reports_the_latest_sequence() {
    let mut heartbeat = HeartbeatLoop::new(HeartbeatHandler::new(100));
    assert_eq!(heartbeat.step(Some(HeartbeatThreadCommunication { op: 0, d: 3 }), 10), None);
    assert_eq!(heartbeat.step(Some(HeartbeatThreadCommunication { op: 0, d: 4 }), 20), None);
    assert_eq!(heartbeat.step(None, 30), None);
    assert_eq!(heartbeat.step(None, 101), Some(GatewayHeartbeat { op: 1, d: Some(4) }));
    assert_eq!(
        heartbeat.step(Some(HeartbeatThreadCommunication { op: 11, d: 9 }), 500),
        Some(GatewayHeartbeat { op: 1, d: Some(9) })
    );
}

#[test]
fn outgoing_payloads_carry_their_opcode() {
    assert_eq!(OutgoingEvent::Identify.opcode(), 2);
    assert_eq!(OutgoingEvent::Resume.opcode(), 6);
    assert_eq!(OutgoingEvent::PresenceUpdate.opcode(), 3);
    let identify = GatewayPayload::outgoing(OutgoingEvent::Identify, "token".to_string());
    assert_eq!(identify.op, 2);
    assert_eq!(identify.d, Some("token".to_string()));
    assert_eq!(identify.s, None);
    assert_eq!(identify.t, None);
}

#[test]
fn dispatched_data_is_stored_in_its_event_only() {
    let (gateway, mut events) = opened();
    gateway.handle_event(payload(0, Some(5), Some(1), Some("MESSAGE_REACTION_REMOVE_EMOJI")), &mut events);
    assert_eq!(events.message.reaction_remove_emoji.event_data(), &Data(5));
    assert_eq!(events.message.reaction_remove.event_data(), &Data::default());
    gateway.handle_event(payload(0, Some(6), Some(2), Some("PRESENCE_UPDATE")), &mut events);
    assert_eq!(events.user.presence_update.event_data(), &Data(6));
    assert_eq!(events.message.reaction_remove_emoji.event_data(), &Data(5));
    gateway.handle_event(payload(0, Some(7), Some(3), Some("READY")), &mut events);
    gateway.handle_event(payload(0, Some(8), Some(4), Some("GUILD_CREATE")), &mut events);
    for kind in [DispatchKind::MessageCreate, DispatchKind::MessageDelete, DispatchKind::TypingStart] {
        assert_eq!(events.event(kind).unwrap().event_data(), &Data::default());
    }
    assert_eq!(events.gateway_identify_payload.event_data(), &Data::default());
}
