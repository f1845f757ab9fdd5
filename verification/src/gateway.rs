//! The gateway protocol's decisions: the hello that opens a connection, what
//! each received payload asks of the client, and when a heartbeat is due.
//! The caller performs the I/O each decision names.

pub mod events;

use vstd::prelude::*;

use crate::gateway::events::Events;
use crate::observer::WebSocketEvent;
use crate::text::same_text;

verus! {

/// Opcode of a dispatched event (receive).
pub const DISPATCH: u8 = 0;
/// Opcode of a heartbeat (send and receive).
pub const HEARTBEAT: u8 = 1;
/// Opcode of an identify payload (send).
pub const IDENTIFY: u8 = 2;
/// Opcode of a presence update (send).
pub const PRESENCE_UPDATE: u8 = 3;
/// Opcode of a voice state update (send).
pub const VOICE_STATE_UPDATE: u8 = 4;
/// Opcode of a resume payload (send).
pub const RESUME: u8 = 6;
/// Opcode of a reconnect request (receive).
pub const RECONNECT: u8 = 7;
/// Opcode of a guild members request (send).
pub const REQUEST_GUILD_MEMBERS: u8 = 8;
/// Opcode of an invalid session notice (receive).
pub const INVALID_SESSION: u8 = 9;
/// Opcode of the hello that opens a connection (receive).
pub const HELLO: u8 = 10;
/// Opcode of a heartbeat acknowledgement (receive).
pub const HEARTBEAT_ACK: u8 = 11;

/// A gateway payload: opcode `op`, data `d`, sequence number `s` and event
/// name `t`. `D` is the representation of the data (JSON).
pub struct GatewayPayload<D> {
    pub op: u8,
    pub d: Option<D>,
    pub s: Option<u64>,
    pub t: Option<String>,
}

/// The heartbeat payload: opcode 1 and the last sequence number received.
#[derive(Clone, Copy, Debug, PartialEq, Eq, Structural)]
pub struct GatewayHeartbeat {
    pub op: u8,
    pub d: Option<u64>,
}

/// What the connection tells the heartbeat loop: the opcode of a payload it
/// received and that payload's sequence number.
#[derive(Clone, Copy, Debug, PartialEq, Eq, Structural)]
pub struct HeartbeatThreadCommunication {
    pub op: u8,
    pub d: u64,
}

/// Why a connection could not be opened.
#[derive(Clone, Copy, Debug, PartialEq, Eq, Structural)]
pub enum GatewayError {
    /// The first payload was not a hello; it carried this opcode.
    InvalidOpcode(u8),
}

/// The payloads a client sends, each with data of its own.
#[derive(Clone, Copy, Debug, PartialEq, Eq, Structural)]
pub enum OutgoingEvent {
    Identify,
    Resume,
    PresenceUpdate,
}

impl OutgoingEvent {
    /// The opcode a payload of this kind is sent with.
    pub open spec fn spec_opcode(self) -> u8 {
        match self {
            OutgoingEvent::Identify => IDENTIFY,
            OutgoingEvent::Resume => RESUME,
            OutgoingEvent::PresenceUpdate => PRESENCE_UPDATE,
        }
    }

    /// The opcode a payload of this kind is sent with.
    #[verifier::when_used_as_spec(spec_opcode)]
    pub fn opcode(self) -> (op: u8)
        ensures
            op == self.spec_opcode(),
    {
        match self {
            OutgoingEvent::Identify => IDENTIFY,
            OutgoingEvent::Resume => RESUME,
            OutgoingEvent::PresenceUpdate => PRESENCE_UPDATE,
        }
    }
}

impl<D> GatewayPayload<D> {
    /// The payload that sends `to_send` as an event of kind `event`: its
    /// opcode and data, with neither sequence number nor event name.
    pub fn outgoing(event: OutgoingEvent, to_send: D) -> (payload: Self)
        ensures
            payload.op == event.opcode(),
            payload.d == Some(to_send),
            payload.s.is_none(),
            payload.t.is_none(),
    {
        GatewayPayload { op: event.opcode(), d: Some(to_send), s: None, t: None }
    }
}

/// What the client does with a dispatched event, by the event's name.
#[derive(Clone, Copy, Debug, PartialEq, Eq, Structural)]
pub enum DispatchKind {
    /// `READY`: its data is read and then dropped.
    Ready,
    /// `MESSAGE_CREATE`: its data becomes the data of the matching observable event.
    MessageCreate,
    /// `MESSAGE_UPDATE`: its data becomes the data of the matching observable event.
    MessageUpdate,
    /// `MESSAGE_DELETE`: its data becomes the data of the matching observable event.
    MessageDelete,
    /// `MESSAGE_DELETE_BULK`: its data becomes the data of the matching observable event.
    MessageDeleteBulk,
    /// `MESSAGE_REACTION_ADD`: its data becomes the data of the matching observable event.
    MessageReactionAdd,
    /// `MESSAGE_REACTION_REMOVE`: its data becomes the data of the matching observable event.
    MessageReactionRemove,
    /// `MESSAGE_REACTION_REMOVE_ALL`: its data becomes the data of the matching observable event.
    MessageReactionRemoveAll,
    /// `MESSAGE_REACTION_REMOVE_EMOJI`: its data becomes the data of the matching observable event.
    MessageReactionRemoveEmoji,
    /// `PRESENCE_UPDATE`: its data becomes the data of the matching observable event.
    PresenceUpdate,
    /// `TYPING_START`: its data becomes the data of the matching observable event.
    TypingStart,
    /// A documented event the client does not act on.
    Ignored,
    /// A name the gateway does not document.
    Unknown,
}

/// The documented events the client receives and does not act on.
pub open spec fn ignored_event_name(name: Seq<char>) -> bool {
    ||| name == "APPLICATION_COMMAND_PERMISSIONS_UPDATE"@
    ||| name == "AUTO_MODERATION_RULE_CREATE"@
    ||| name == "AUTO_MODERATION_RULE_UPDATE"@
    ||| name == "AUTO_MODERATION_RULE_DELETE"@
    ||| name == "AUTO_MODERATION_ACTION_EXECUTION"@
    ||| name == "CHANNEL_CREATE"@
    ||| name == "CHANNEL_UPDATE"@
    ||| name == "CHANNEL_DELETE"@
    ||| name == "CHANNEL_PINS_UPDATE"@
    ||| name == "THREAD_CREATE"@
    ||| name == "THREAD_UPDATE"@
    ||| name == "THREAD_DELETE"@
    ||| name == "THREAD_LIST_SYNC"@
    ||| name == "THREAD_MEMBER_UPDATE"@
    ||| name == "THREAD_MEMBERS_UPDATE"@
    ||| name == "GUILD_CREATE"@
    ||| name == "GUILD_UPDATE"@
    ||| name == "GUILD_DELETE"@
    ||| name == "GUILD_AUDIT_LOG_ENTRY_CREATE"@
    ||| name == "GUILD_BAN_ADD"@
    ||| name == "GUILD_BAN_REMOVE"@
    ||| name == "GUILD_EMOJIS_UPDATE"@
    ||| name == "GUILD_STICKERS_UPDATE"@
    ||| name == "GUILD_INTEGRATIONS_UPDATE"@
    ||| name == "GUILD_MEMBER_ADD"@
    ||| name == "GUILD_MEMBER_REMOVE"@
    ||| name == "GUILD_MEMBER_UPDATE"@
    ||| name == "GUILD_MEMBERS_CHUNK"@
    ||| name == "GUILD_ROLE_CREATE"@
    ||| name == "GUILD_ROLE_UPDATE"@
    ||| name == "GUILD_ROLE_DELETE"@
    ||| name == "GUILD_SCHEDULED_EVENT_CREATE"@
    ||| name == "GUILD_SCHEDULED_EVENT_UPDATE"@
    ||| name == "GUILD_SCHEDULED_EVENT_DELETE"@
    ||| name == "GUILD_SCHEDULED_EVENT_USER_ADD"@
    ||| name == "GUILD_SCHEDULED_EVENT_USER_REMOVE"@
    ||| name == "INTEGRATION_CREATE"@
    ||| name == "INTEGRATION_UPDATE"@
    ||| name == "INTEGRATION_DELETE"@
    ||| name == "INTERACTION_CREATE"@
    ||| name == "INVITE_CREATE"@
    ||| name == "INVITE_DELETE"@
    ||| name == "STAGE_INSTANCE_CREATE"@
    ||| name == "STAGE_INSTANCE_UPDATE"@
    ||| name == "STAGE_INSTANCE_DELETE"@
    ||| name == "SESSIONS_REPLACE"@
    ||| name == "USER_UPDATE"@
    ||| name == "VOICE_STATE_UPDATE"@
    ||| name == "VOICE_SERVER_UPDATE"@
    ||| name == "WEBHOOKS_UPDATE"@
}

/// The kind of the dispatched event named `name`.
pub open spec fn dispatch_kind(name: Seq<char>) -> DispatchKind {
    if name == "READY"@ {
        DispatchKind::Ready
    } else if name == "MESSAGE_CREATE"@ {
        DispatchKind::MessageCreate
    } else if name == "MESSAGE_UPDATE"@ {
        DispatchKind::MessageUpdate
    } else if name == "MESSAGE_DELETE"@ {
        DispatchKind::MessageDelete
    } else if name == "MESSAGE_DELETE_BULK"@ {
        DispatchKind::MessageDeleteBulk
    } else if name == "MESSAGE_REACTION_ADD"@ {
        DispatchKind::MessageReactionAdd
    } else if name == "MESSAGE_REACTION_REMOVE"@ {
        DispatchKind::MessageReactionRemove
    } else if name == "MESSAGE_REACTION_REMOVE_ALL"@ {
        DispatchKind::MessageReactionRemoveAll
    } else if name == "MESSAGE_REACTION_REMOVE_EMOJI"@ {
        DispatchKind::MessageReactionRemoveEmoji
    } else if name == "PRESENCE_UPDATE"@ {
        DispatchKind::PresenceUpdate
    } else if name == "TYPING_START"@ {
        DispatchKind::TypingStart
    } else if ignored_event_name(name) {
        DispatchKind::Ignored
    } else {
        DispatchKind::Unknown
    }
}

/// Whether `name` is one of the documented events the client does not act on.
pub fn is_ignored_event_name(name: &str) -> (ignored: bool)
    ensures
        ignored == ignored_event_name(name@),
{
    same_text(name, "APPLICATION_COMMAND_PERMISSIONS_UPDATE")
    || same_text(name, "AUTO_MODERATION_RULE_CREATE")
    || same_text(name, "AUTO_MODERATION_RULE_UPDATE")
    || same_text(name, "AUTO_MODERATION_RULE_DELETE")
    || same_text(name, "AUTO_MODERATION_ACTION_EXECUTION")
    || same_text(name, "CHANNEL_CREATE")
    || same_text(name, "CHANNEL_UPDATE")
    || same_text(name, "CHANNEL_DELETE")
    || same_text(name, "CHANNEL_PINS_UPDATE")
    || same_text(name, "THREAD_CREATE")
    || same_text(name, "THREAD_UPDATE")
    || same_text(name, "THREAD_DELETE")
    || same_text(name, "THREAD_LIST_SYNC")
    || same_text(name, "THREAD_MEMBER_UPDATE")
    || same_text(name, "THREAD_MEMBERS_UPDATE")
    || same_text(name, "GUILD_CREATE")
    || same_text(name, "GUILD_UPDATE")
    || same_text(name, "GUILD_DELETE")
    || same_text(name, "GUILD_AUDIT_LOG_ENTRY_CREATE")
    || same_text(name, "GUILD_BAN_ADD")
    || same_text(name, "GUILD_BAN_REMOVE")
    || same_text(name, "GUILD_EMOJIS_UPDATE")
    || same_text(name, "GUILD_STICKERS_UPDATE")
    || same_text(name, "GUILD_INTEGRATIONS_UPDATE")
    || same_text(name, "GUILD_MEMBER_ADD")
    || same_text(name, "GUILD_MEMBER_REMOVE")
    || same_text(name, "GUILD_MEMBER_UPDATE")
    || same_text(name, "GUILD_MEMBERS_CHUNK")
    || same_text(name, "GUILD_ROLE_CREATE")
    || same_text(name, "GUILD_ROLE_UPDATE")
    || same_text(name, "GUILD_ROLE_DELETE")
    || same_text(name, "GUILD_SCHEDULED_EVENT_CREATE")
    || same_text(name, "GUILD_SCHEDULED_EVENT_UPDATE")
    || same_text(name, "GUILD_SCHEDULED_EVENT_DELETE")
    || same_text(name, "GUILD_SCHEDULED_EVENT_USER_ADD")
    || same_text(name, "GUILD_SCHEDULED_EVENT_USER_REMOVE")
    || same_text(name, "INTEGRATION_CREATE")
    || same_text(name, "INTEGRATION_UPDATE")
    || same_text(name, "INTEGRATION_DELETE")
    || same_text(name, "INTERACTION_CREATE")
    || same_text(name, "INVITE_CREATE")
    || same_text(name, "INVITE_DELETE")
    || same_text(name, "STAGE_INSTANCE_CREATE")
    || same_text(name, "STAGE_INSTANCE_UPDATE")
    || same_text(name, "STAGE_INSTANCE_DELETE")
    || same_text(name, "SESSIONS_REPLACE")
    || same_text(name, "USER_UPDATE")
    || same_text(name, "VOICE_STATE_UPDATE")
    || same_text(name, "VOICE_SERVER_UPDATE")
    || same_text(name, "WEBHOOKS_UPDATE")
}

impl DispatchKind {
    /// The kind of the dispatched event named `name`.
    pub fn classify(name: &str) -> (kind: DispatchKind)
        ensures
            kind == dispatch_kind(name@),
    {
        if same_text(name, "READY") {
            DispatchKind::Ready
        } else if same_text(name, "MESSAGE_CREATE") {
            DispatchKind::MessageCreate
        } else if same_text(name, "MESSAGE_UPDATE") {
            DispatchKind::MessageUpdate
        } else if same_text(name, "MESSAGE_DELETE") {
            DispatchKind::MessageDelete
        } else if same_text(name, "MESSAGE_DELETE_BULK") {
            DispatchKind::MessageDeleteBulk
        } else if same_text(name, "MESSAGE_REACTION_ADD") {
            DispatchKind::MessageReactionAdd
        } else if same_text(name, "MESSAGE_REACTION_REMOVE") {
            DispatchKind::MessageReactionRemove
        } else if same_text(name, "MESSAGE_REACTION_REMOVE_ALL") {
            DispatchKind::MessageReactionRemoveAll
        } else if same_text(name, "MESSAGE_REACTION_REMOVE_EMOJI") {
            DispatchKind::MessageReactionRemoveEmoji
        } else if same_text(name, "PRESENCE_UPDATE") {
            DispatchKind::PresenceUpdate
        } else if same_text(name, "TYPING_START") {
            DispatchKind::TypingStart
        } else if is_ignored_event_name(name) {
            DispatchKind::Ignored
        } else {
            DispatchKind::Unknown
        }
    }

    /// Whether the client reads the event's data.
    pub open spec fn spec_reads_data(self) -> bool {
        !(self is Ignored || self is Unknown)
    }

    /// Whether the client reads the event's data.
    #[verifier::when_used_as_spec(spec_reads_data)]
    pub fn reads_data(self) -> (reads: bool)
        ensures
            reads == self.spec_reads_data(),
    {
        match self {
            DispatchKind::Ignored | DispatchKind::Unknown => false,
            _ => true,
        }
    }
}

/// Why the client cannot handle a received payload. The connection gives up
/// on each of these.
#[derive(Clone, Copy, Debug, PartialEq, Eq, Structural)]
pub enum Rejection {
    /// A dispatch without an event name.
    MissingEventName,
    /// A dispatch of an event the gateway does not document.
    UnknownEventName,
    /// A dispatch of an event whose data the client reads, without data.
    MissingEventData,
    /// A reconnect request: not supported.
    Reconnect,
    /// An invalid session notice: not supported.
    InvalidSession,
    /// A hello after the one that opened the connection.
    UnexpectedHello,
    /// A payload with an opcode that only clients send.
    ClientOpcode(u8),
    /// A payload with an opcode the gateway does not define.
    InvalidOpcode(u8),
}

/// What a received payload asks of the client.
#[derive(Clone, Copy, Debug, PartialEq, Eq, Structural)]
pub enum Received {
    /// A dispatched event, to be handled as its kind says.
    Dispatch(DispatchKind),
    /// A heartbeat from the server: nothing to do.
    Heartbeat,
    /// The acknowledgement of one of the client's heartbeats.
    HeartbeatAck,
}

/// The client's response to a received payload: what the payload asks, then
/// the sequence number to hand the heartbeat loop, if any.
#[derive(Clone, Copy, Debug, PartialEq, Eq, Structural)]
pub struct GatewayAction {
    pub received: Received,
    pub forward: Option<HeartbeatThreadCommunication>,
}

/// Why the client cannot handle payload `p`; `None` when it can.
pub open spec fn rejection_of<D>(p: GatewayPayload<D>) -> Option<Rejection> {
    if p.op == DISPATCH {
        match p.t {
            None => Some(Rejection::MissingEventName),
            Some(name) => {
                let kind = dispatch_kind(name@);
                if kind is Unknown {
                    Some(Rejection::UnknownEventName)
                } else if kind.spec_reads_data() && p.d is None {
                    Some(Rejection::MissingEventData)
                } else {
                    None
                }
            },
        }
    } else if p.op == HEARTBEAT || p.op == HEARTBEAT_ACK {
        None
    } else if p.op == RECONNECT {
        Some(Rejection::Reconnect)
    } else if p.op == INVALID_SESSION {
        Some(Rejection::InvalidSession)
    } else if p.op == HELLO {
        Some(Rejection::UnexpectedHello)
    } else if p.op == IDENTIFY || p.op == PRESENCE_UPDATE || p.op == VOICE_STATE_UPDATE
        || p.op == RESUME || p.op == REQUEST_GUILD_MEMBERS {
        Some(Rejection::ClientOpcode(p.op))
    } else {
        Some(Rejection::InvalidOpcode(p.op))
    }
}

/// What payload `p`, one the client can handle, asks of it.
pub open spec fn received_of<D>(p: GatewayPayload<D>) -> Received {
    if p.op == DISPATCH {
        Received::Dispatch(dispatch_kind(p.t.unwrap()@))
    } else if p.op == HEARTBEAT {
        Received::Heartbeat
    } else {
        Received::HeartbeatAck
    }
}

/// The sequence number the heartbeat loop is handed for payload `p`: its
/// own, when it has one and a heartbeat loop runs.
pub open spec fn forward_of<D>(
    heartbeat: Option<HeartbeatHandler>,
    p: GatewayPayload<D>,
) -> Option<HeartbeatThreadCommunication> {
    match (heartbeat, p.s) {
        (Some(_), Some(s)) => Some(HeartbeatThreadCommunication { op: p.op, d: s }),
        _ => None,
    }
}

/// The heartbeat of a connection: the interval, in milliseconds, that the
/// hello asked for.
#[derive(Clone, Copy, Debug, PartialEq, Eq, Structural)]
pub struct HeartbeatHandler {
    pub heartbeat_interval: u128,
}

impl HeartbeatHandler {
    /// The heartbeat for an interval of `heartbeat_interval` milliseconds.
    pub fn new(heartbeat_interval: u128) -> (handler: HeartbeatHandler)
        ensures
            handler.heartbeat_interval == heartbeat_interval,
    {
        HeartbeatHandler { heartbeat_interval }
    }
}

/// A gateway connection's state as its decisions need it: the heartbeat it
/// runs, if any.
pub struct Gateway {
    heartbeat_handler: Option<HeartbeatHandler>,
}

/// The connection that a first payload of opcode `op` opens, given the
/// heartbeat interval its data carries when it is a hello.
pub open spec fn hello_outcome(op: u8, heartbeat_interval: Option<u128>) -> Result<HeartbeatHandler, GatewayError> {
    if op != HELLO {
        Err(GatewayError::InvalidOpcode(op))
    } else {
        Ok(HeartbeatHandler { heartbeat_interval: heartbeat_interval.unwrap() })
    }
}

impl Gateway {
    /// The heartbeat this connection runs.
    pub closed spec fn heartbeat(&self) -> Option<HeartbeatHandler> {
        self.heartbeat_handler
    }

    /// The heartbeat this connection runs, for starting its loop.
    pub fn heartbeat_handler(&self) -> (handler: Option<HeartbeatHandler>)
        ensures
            handler == self.heartbeat(),
    {
        self.heartbeat_handler
    }

    /// Opens a connection on its first payload, of opcode `hello_op`: it must
    /// be a hello, whose data gives `heartbeat_interval`; the connection then
    /// runs a heartbeat at that interval, and its observable events start
    /// unobserved, with the default data. Any other first payload is refused
    /// with [`GatewayError::InvalidOpcode`].
    pub fn new<T: WebSocketEvent + Default, O>(
        hello_op: u8,
        heartbeat_interval: Option<u128>,
    ) -> (result: Result<(Gateway, Events<T, O>), GatewayError>)
        requires
            hello_op == HELLO ==> heartbeat_interval.is_some(),
        ensures
            match result {
                Ok((gateway, events)) => {
                    &&& hello_op == HELLO
                    &&& gateway.heartbeat() == Some(
                        (HeartbeatHandler { heartbeat_interval: heartbeat_interval->Some_0 }),
                    )
                    &&& hello_outcome(hello_op, heartbeat_interval) == Ok::<HeartbeatHandler, GatewayError>(
                        gateway.heartbeat()->Some_0,
                    )
                    &&& events.all_unobserved()
                },
                Err(e) => {
                    &&& hello_op != HELLO
                    &&& e == GatewayError::InvalidOpcode(hello_op)
                    &&& hello_outcome(hello_op, heartbeat_interval) == Err::<HeartbeatHandler, GatewayError>(e)
                },
            },
    {
        if hello_op != HELLO {
            return Err(GatewayError::InvalidOpcode(hello_op));
        }
        let interval = match heartbeat_interval {
            Some(i) => i,
            None => 0,
        };
        Ok((Gateway { heartbeat_handler: Some(HeartbeatHandler::new(interval)) }, Events::default()))
    }

    /// Whether the client can handle `payload`, and if not, why.
    pub fn check_payload<D>(payload: &GatewayPayload<D>) -> (result: Result<(), Rejection>)
        ensures
            result is Ok <==> rejection_of(*payload) is None,
            result matches Err(r) ==> rejection_of(*payload) == Some(r),
    {
        let op = payload.op;
        if op == DISPATCH {
            match &payload.t {
                None => Err(Rejection::MissingEventName),
                Some(name) => {
                    let kind = DispatchKind::classify(name.as_str());
                    if kind == DispatchKind::Unknown {
                        Err(Rejection::UnknownEventName)
                    } else if kind.reads_data() && payload.d.is_none() {
                        Err(Rejection::MissingEventData)
                    } else {
                        Ok(())
                    }
                },
            }
        } else if op == HEARTBEAT || op == HEARTBEAT_ACK {
            Ok(())
        } else if op == RECONNECT {
            Err(Rejection::Reconnect)
        } else if op == INVALID_SESSION {
            Err(Rejection::InvalidSession)
        } else if op == HELLO {
            Err(Rejection::UnexpectedHello)
        } else if op == IDENTIFY || op == PRESENCE_UPDATE || op == VOICE_STATE_UPDATE || op == RESUME
            || op == REQUEST_GUILD_MEMBERS {
            Err(Rejection::ClientOpcode(op))
        } else {
            Err(Rejection::InvalidOpcode(op))
        }
    }

    /// Handles a received payload: stores a dispatched event's data in the
    /// event it updates, and says what the payload asks of the client and the
    /// sequence number to hand the heartbeat loop, when the payload has one
    /// and the connection runs a heartbeat. The caller then notifies the
    /// updated event's observers.
    pub fn handle_event<T: WebSocketEvent, O>(
        &self,
        payload: GatewayPayload<T>,
        events: &mut Events<T, O>,
    ) -> (action: GatewayAction)
        requires
            rejection_of(payload) is None,
        ensures
            action.received == received_of(payload),
            action.forward == forward_of(self.heartbeat(), payload),
            events_after(*old(events), *final(events), payload),
            payload.op == DISPATCH ==> {
                &&& action.received == Received::Dispatch(dispatch_kind(payload.t->Some_0@))
                &&& old(events).stored(*final(events), dispatch_kind(payload.t->Some_0@), payload.d->Some_0)
            },
            payload.op != DISPATCH ==> *final(events) == *old(events),
    {
        let received = if payload.op == DISPATCH {
            match &payload.t {
                Some(name) => Received::Dispatch(DispatchKind::classify(name.as_str())),
                None => Received::Dispatch(DispatchKind::Unknown),
            }
        } else if payload.op == HEARTBEAT {
            Received::Heartbeat
        } else {
            Received::HeartbeatAck
        };
        let forward = match (&self.heartbeat_handler, payload.s) {
            (Some(_), Some(s)) => Some(HeartbeatThreadCommunication { op: payload.op, d: s }),
            _ => None,
        };
        if let Received::Dispatch(kind) = received {
            if let Some(data) = payload.d {
                events.store(kind, data);
            }
        }
        GatewayAction { received, forward }
    }
}

/// Whether `after` is the events `before` once payload `p` was handled: a
/// dispatch stores its data in the event its kind updates (if any); any other
/// payload leaves the events as they were.
pub open spec fn events_after<T: WebSocketEvent, O>(
    before: Events<T, O>,
    after: Events<T, O>,
    p: GatewayPayload<T>,
) -> bool {
    match received_of(p) {
        Received::Dispatch(kind) => before.stored(after, kind, p.d->Some_0),
        _ => after == before,
    }
}

/// Whether a heartbeat is due: more than `heartbeat_interval` milliseconds
/// have passed since the last one.
pub open spec fn heartbeat_due(heartbeat_interval: u128, elapsed_millis: u128) -> bool {
    elapsed_millis > heartbeat_interval
}

/// The last sequence number known after `received`.
pub open spec fn next_seq(last: Option<u64>, received: Option<HeartbeatThreadCommunication>) -> Option<u64> {
    match received {
        Some(c) => Some(c.d),
        None => last,
    }
}

/// The loop that sends a connection's heartbeats: the interval, and the last
/// sequence number the connection handed it.
pub struct HeartbeatLoop {
    heartbeat_interval: u128,
    last_seq_number: Option<u64>,
}

impl HeartbeatLoop {
    /// The heartbeat interval, in milliseconds.
    pub closed spec fn interval(&self) -> u128 {
        self.heartbeat_interval
    }

    /// The last sequence number received.
    pub closed spec fn last_seq(&self) -> Option<u64> {
        self.last_seq_number
    }

    /// The loop of `handler`, before any sequence number arrived.
    pub fn new(handler: HeartbeatHandler) -> (heartbeat_loop: HeartbeatLoop)
        ensures
            heartbeat_loop.interval() == handler.heartbeat_interval,
            heartbeat_loop.last_seq().is_none(),
    {
        HeartbeatLoop { heartbeat_interval: handler.heartbeat_interval, last_seq_number: None }
    }

    /// One round of the loop: takes in the sequence number the connection
    /// handed over, if any, then, when more than the interval has passed since
    /// the last heartbeat (`elapsed_millis`), gives the heartbeat to send,
    /// which carries the last sequence number. The caller restarts its clock
    /// when it sends one.
    pub fn step(&mut self, received: Option<HeartbeatThreadCommunication>, elapsed_millis: u128) -> (heartbeat: Option<GatewayHeartbeat>)
        ensures
            final(self).interval() == old(self).interval(),
            final(self).last_seq() == next_seq(old(self).last_seq(), received),
            heartbeat == (if heartbeat_due(old(self).interval(), elapsed_millis) {
                Some(GatewayHeartbeat { op: HEARTBEAT, d: final(self).last_seq() })
            } else {
                None::<GatewayHeartbeat>
            }),
    {
        if let Some(communication) = received {
            self.last_seq_number = Some(communication.d);
        }
        if elapsed_millis > self.heartbeat_interval {
            Some(GatewayHeartbeat { op: HEARTBEAT, d: self.last_seq_number })
        } else {
            None
        }
    }
}

/// Once a hello opened the connection, every payload the client handles that
/// carries a sequence number hands that number, with its opcode, to the
/// heartbeat loop.
pub proof fn lemma_opened_connection_forwards_sequence<D>(
    heartbeat_interval: u128,
    p: GatewayPayload<D>,
)
    requires
        p.s is Some,
    ensures
        hello_outcome(HELLO, Some(heartbeat_interval)) is Ok,
        forward_of(Some(hello_outcome(HELLO, Some(heartbeat_interval))->Ok_0), p)
            == Some((HeartbeatThreadCommunication { op: p.op, d: p.s->Some_0 })),
{
}

/// The last sequence number known after the loop was handed `handed`, one
/// entry per round, starting from `last`.
pub open spec fn seq_after(last: Option<u64>, handed: Seq<Option<HeartbeatThreadCommunication>>) -> Option<u64>
    decreases handed.len(),
{
    if handed.len() == 0 {
        last
    } else {
        next_seq(seq_after(last, handed.drop_last()), handed.last())
    }
}

/// A heartbeat reports the most recent sequence number handed to the loop,
/// however many rounds without a new one came after it.
pub proof fn lemma_heartbeat_reports_latest_sequence(
    last: Option<u64>,
    handed: Seq<Option<HeartbeatThreadCommunication>>,
    i: int,
)
    requires
        0 <= i < handed.len(),
        handed[i] is Some,
        forall|j: int| i < j < handed.len() ==> handed[j] is None,
    ensures
        seq_after(last, handed) == Some(handed[i]->Some_0.d),
    decreases handed.len(),
{
    if i < handed.len() - 1 {
        lemma_heartbeat_reports_latest_sequence(last, handed.drop_last(), i);
    }
}

/// Rounds in which nothing was handed over leave the last sequence number as
/// it was.
pub proof fn lemma_quiet_rounds_keep_sequence(
    last: Option<u64>,
    handed: Seq<Option<HeartbeatThreadCommunication>>,
)
    requires
        forall|j: int| 0 <= j < handed.len() ==> handed[j] is None,
    ensures
        seq_after(last, handed) == last,
    decreases handed.len(),
{
    if handed.len() > 0 {
        lemma_quiet_rounds_keep_sequence(last, handed.drop_last());
    }
}

/// The client handles exactly the dispatches of documented events (with their
/// data where it reads it), the server's heartbeats and the acknowledgements
/// of its own; a hello is handled only as the first payload.
pub proof fn lemma_handled_payloads<D>(p: GatewayPayload<D>)
    ensures
        rejection_of(p) is None <==> {
            ||| p.op == HEARTBEAT
            ||| p.op == HEARTBEAT_ACK
            ||| (p.op == DISPATCH && p.t is Some && !(dispatch_kind(p.t->Some_0@) is Unknown)
                && (dispatch_kind(p.t->Some_0@).spec_reads_data() ==> p.d is Some))
        },
        p.op == HELLO ==> rejection_of(p) == Some(Rejection::UnexpectedHello),
{
}

/// Every event the client acts on is reached by exactly its own name.
pub proof fn lemma_acted_events_by_name(name: Seq<char>)
    ensures
        dispatch_kind(name) == DispatchKind::Ready <==> name == "READY"@,
        dispatch_kind(name) == DispatchKind::MessageCreate <==> name == "MESSAGE_CREATE"@,
        dispatch_kind(name) == DispatchKind::MessageUpdate <==> name == "MESSAGE_UPDATE"@,
        dispatch_kind(name) == DispatchKind::MessageDelete <==> name == "MESSAGE_DELETE"@,
        dispatch_kind(name) == DispatchKind::MessageDeleteBulk <==> name == "MESSAGE_DELETE_BULK"@,
        dispatch_kind(name) == DispatchKind::MessageReactionAdd <==> name == "MESSAGE_REACTION_ADD"@,
        dispatch_kind(name) == DispatchKind::MessageReactionRemove <==> name == "MESSAGE_REACTION_REMOVE"@,
        dispatch_kind(name) == DispatchKind::MessageReactionRemoveAll <==> name == "MESSAGE_REACTION_REMOVE_ALL"@,
        dispatch_kind(name) == DispatchKind::MessageReactionRemoveEmoji <==> name == "MESSAGE_REACTION_REMOVE_EMOJI"@,
        dispatch_kind(name) == DispatchKind::PresenceUpdate <==> name == "PRESENCE_UPDATE"@,
        dispatch_kind(name) == DispatchKind::TypingStart <==> name == "TYPING_START"@,
{
    reveal_strlit("READY");
    reveal_strlit("MESSAGE_CREATE");
    reveal_strlit("MESSAGE_UPDATE");
    reveal_strlit("MESSAGE_DELETE");
    reveal_strlit("MESSAGE_DELETE_BULK");
    reveal_strlit("MESSAGE_REACTION_ADD");
    reveal_strlit("MESSAGE_REACTION_REMOVE");
    reveal_strlit("MESSAGE_REACTION_REMOVE_ALL");
    reveal_strlit("MESSAGE_REACTION_REMOVE_EMOJI");
    reveal_strlit("PRESENCE_UPDATE");
    reveal_strlit("TYPING_START");
    // The lengths, and the ninth character, tell the names apart.
    let _ = name.len();
    let _ = name[8];
}

/// The documented events the client receives and does not act on are exactly
/// these fifty names.
pub proof fn lemma_ignored_events_by_name(name: Seq<char>)
    ensures
        dispatch_kind(name) == DispatchKind::Ignored <==> {
            ||| name == "APPLICATION_COMMAND_PERMISSIONS_UPDATE"@
            ||| name == "AUTO_MODERATION_RULE_CREATE"@
            ||| name == "AUTO_MODERATION_RULE_UPDATE"@
            ||| name == "AUTO_MODERATION_RULE_DELETE"@
            ||| name == "AUTO_MODERATION_ACTION_EXECUTION"@
            ||| name == "CHANNEL_CREATE"@
            ||| name == "CHANNEL_UPDATE"@
            ||| name == "CHANNEL_DELETE"@
            ||| name == "CHANNEL_PINS_UPDATE"@
            ||| name == "THREAD_CREATE"@
            ||| name == "THREAD_UPDATE"@
            ||| name == "THREAD_DELETE"@
            ||| name == "THREAD_LIST_SYNC"@
            ||| name == "THREAD_MEMBER_UPDATE"@
            ||| name == "THREAD_MEMBERS_UPDATE"@
            ||| name == "GUILD_CREATE"@
            ||| name == "GUILD_UPDATE"@
            ||| name == "GUILD_DELETE"@
            ||| name == "GUILD_AUDIT_LOG_ENTRY_CREATE"@
            ||| name == "GUILD_BAN_ADD"@
            ||| name == "GUILD_BAN_REMOVE"@
            ||| name == "GUILD_EMOJIS_UPDATE"@
            ||| name == "GUILD_STICKERS_UPDATE"@
            ||| name == "GUILD_INTEGRATIONS_UPDATE"@
            ||| name == "GUILD_MEMBER_ADD"@
            ||| name == "GUILD_MEMBER_REMOVE"@
            ||| name == "GUILD_MEMBER_UPDATE"@
            ||| name == "GUILD_MEMBERS_CHUNK"@
            ||| name == "GUILD_ROLE_CREATE"@
            ||| name == "GUILD_ROLE_UPDATE"@
            ||| name == "GUILD_ROLE_DELETE"@
            ||| name == "GUILD_SCHEDULED_EVENT_CREATE"@
            ||| name == "GUILD_SCHEDULED_EVENT_UPDATE"@
            ||| name == "GUILD_SCHEDULED_EVENT_DELETE"@
            ||| name == "GUILD_SCHEDULED_EVENT_USER_ADD"@
            ||| name == "GUILD_SCHEDULED_EVENT_USER_REMOVE"@
            ||| name == "INTEGRATION_CREATE"@
            ||| name == "INTEGRATION_UPDATE"@
            ||| name == "INTEGRATION_DELETE"@
            ||| name == "INTERACTION_CREATE"@
            ||| name == "INVITE_CREATE"@
            ||| name == "INVITE_DELETE"@
            ||| name == "STAGE_INSTANCE_CREATE"@
            ||| name == "STAGE_INSTANCE_UPDATE"@
            ||| name == "STAGE_INSTANCE_DELETE"@
            ||| name == "SESSIONS_REPLACE"@
            ||| name == "USER_UPDATE"@
            ||| name == "VOICE_STATE_UPDATE"@
            ||| name == "VOICE_SERVER_UPDATE"@
            ||| name == "WEBHOOKS_UPDATE"@
        },
{
    reveal_strlit("READY");
    reveal_strlit("MESSAGE_CREATE");
    reveal_strlit("MESSAGE_UPDATE");
    reveal_strlit("MESSAGE_DELETE");
    reveal_strlit("MESSAGE_DELETE_BULK");
    reveal_strlit("MESSAGE_REACTION_ADD");
    reveal_strlit("MESSAGE_REACTION_REMOVE");
    reveal_strlit("MESSAGE_REACTION_REMOVE_ALL");
    reveal_strlit("MESSAGE_REACTION_REMOVE_EMOJI");
    reveal_strlit("PRESENCE_UPDATE");
    reveal_strlit("TYPING_START");
    reveal_strlit("APPLICATION_COMMAND_PERMISSIONS_UPDATE");
    reveal_strlit("AUTO_MODERATION_RULE_CREATE");
    reveal_strlit("AUTO_MODERATION_RULE_UPDATE");
    reveal_strlit("AUTO_MODERATION_RULE_DELETE");
    reveal_strlit("AUTO_MODERATION_ACTION_EXECUTION");
    reveal_strlit("CHANNEL_CREATE");
    reveal_strlit("CHANNEL_UPDATE");
    reveal_strlit("CHANNEL_DELETE");
    reveal_strlit("CHANNEL_PINS_UPDATE");
    reveal_strlit("THREAD_CREATE");
    reveal_strlit("THREAD_UPDATE");
    reveal_strlit("THREAD_DELETE");
    reveal_strlit("THREAD_LIST_SYNC");
    reveal_strlit("THREAD_MEMBER_UPDATE");
    reveal_strlit("THREAD_MEMBERS_UPDATE");
    reveal_strlit("GUILD_CREATE");
    reveal_strlit("GUILD_UPDATE");
    reveal_strlit("GUILD_DELETE");
    reveal_strlit("GUILD_AUDIT_LOG_ENTRY_CREATE");
    reveal_strlit("GUILD_BAN_ADD");
    reveal_strlit("GUILD_BAN_REMOVE");
    reveal_strlit("GUILD_EMOJIS_UPDATE");
    reveal_strlit("GUILD_STICKERS_UPDATE");
    reveal_strlit("GUILD_INTEGRATIONS_UPDATE");
    reveal_strlit("GUILD_MEMBER_ADD");
    reveal_strlit("GUILD_MEMBER_REMOVE");
    reveal_strlit("GUILD_MEMBER_UPDATE");
    reveal_strlit("GUILD_MEMBERS_CHUNK");
    reveal_strlit("GUILD_ROLE_CREATE");
    reveal_strlit("GUILD_ROLE_UPDATE");
    reveal_strlit("GUILD_ROLE_DELETE");
    reveal_strlit("GUILD_SCHEDULED_EVENT_CREATE");
    reveal_strlit("GUILD_SCHEDULED_EVENT_UPDATE");
    reveal_strlit("GUILD_SCHEDULED_EVENT_DELETE");
    reveal_strlit("GUILD_SCHEDULED_EVENT_USER_ADD");
    reveal_strlit("GUILD_SCHEDULED_EVENT_USER_REMOVE");
    reveal_strlit("INTEGRATION_CREATE");
    reveal_strlit("INTEGRATION_UPDATE");
    reveal_strlit("INTEGRATION_DELETE");
    reveal_strlit("INTERACTION_CREATE");
    reveal_strlit("INVITE_CREATE");
    reveal_strlit("INVITE_DELETE");
    reveal_strlit("STAGE_INSTANCE_CREATE");
    reveal_strlit("STAGE_INSTANCE_UPDATE");
    reveal_strlit("STAGE_INSTANCE_DELETE");
    reveal_strlit("SESSIONS_REPLACE");
    reveal_strlit("USER_UPDATE");
    reveal_strlit("VOICE_STATE_UPDATE");
    reveal_strlit("VOICE_SERVER_UPDATE");
    reveal_strlit("WEBHOOKS_UPDATE");
    // The lengths, and the first character, tell the names apart.
    let _ = name.len();
    let _ = name[0];
}

/// A name is unknown exactly when it is none of the gateway's documented
/// event names, acted on or not.
pub proof fn lemma_unknown_events_by_name(name: Seq<char>)
    ensures
        dispatch_kind(name) == DispatchKind::Unknown <==> !{
            ||| name == "READY"@
            ||| name == "MESSAGE_CREATE"@
            ||| name == "MESSAGE_UPDATE"@
            ||| name == "MESSAGE_DELETE"@
            ||| name == "MESSAGE_DELETE_BULK"@
            ||| name == "MESSAGE_REACTION_ADD"@
            ||| name == "MESSAGE_REACTION_REMOVE"@
            ||| name == "MESSAGE_REACTION_REMOVE_ALL"@
            ||| name == "MESSAGE_REACTION_REMOVE_EMOJI"@
            ||| name == "PRESENCE_UPDATE"@
            ||| name == "TYPING_START"@
            ||| name == "APPLICATION_COMMAND_PERMISSIONS_UPDATE"@
            ||| name == "AUTO_MODERATION_RULE_CREATE"@
            ||| name == "AUTO_MODERATION_RULE_UPDATE"@
            ||| name == "AUTO_MODERATION_RULE_DELETE"@
            ||| name == "AUTO_MODERATION_ACTION_EXECUTION"@
            ||| name == "CHANNEL_CREATE"@
            ||| name == "CHANNEL_UPDATE"@
            ||| name == "CHANNEL_DELETE"@
            ||| name == "CHANNEL_PINS_UPDATE"@
            ||| name == "THREAD_CREATE"@
            ||| name == "THREAD_UPDATE"@
            ||| name == "THREAD_DELETE"@
            ||| name == "THREAD_LIST_SYNC"@
            ||| name == "THREAD_MEMBER_UPDATE"@
            ||| name == "THREAD_MEMBERS_UPDATE"@
            ||| name == "GUILD_CREATE"@
            ||| name == "GUILD_UPDATE"@
            ||| name == "GUILD_DELETE"@
            ||| name == "GUILD_AUDIT_LOG_ENTRY_CREATE"@
            ||| name == "GUILD_BAN_ADD"@
            ||| name == "GUILD_BAN_REMOVE"@
            ||| name == "GUILD_EMOJIS_UPDATE"@
            ||| name == "GUILD_STICKERS_UPDATE"@
            ||| name == "GUILD_INTEGRATIONS_UPDATE"@
            ||| name == "GUILD_MEMBER_ADD"@
            ||| name == "GUILD_MEMBER_REMOVE"@
            ||| name == "GUILD_MEMBER_UPDATE"@
            ||| name == "GUILD_MEMBERS_CHUNK"@
            ||| name == "GUILD_ROLE_CREATE"@
            ||| name == "GUILD_ROLE_UPDATE"@
            ||| name == "GUILD_ROLE_DELETE"@
            ||| name == "GUILD_SCHEDULED_EVENT_CREATE"@
            ||| name == "GUILD_SCHEDULED_EVENT_UPDATE"@
            ||| name == "GUILD_SCHEDULED_EVENT_DELETE"@
            ||| name == "GUILD_SCHEDULED_EVENT_USER_ADD"@
            ||| name == "GUILD_SCHEDULED_EVENT_USER_REMOVE"@
            ||| name == "INTEGRATION_CREATE"@
            ||| name == "INTEGRATION_UPDATE"@
            ||| name == "INTEGRATION_DELETE"@
            ||| name == "INTERACTION_CREATE"@
            ||| name == "INVITE_CREATE"@
            ||| name == "INVITE_DELETE"@
            ||| name == "STAGE_INSTANCE_CREATE"@
            ||| name == "STAGE_INSTANCE_UPDATE"@
            ||| name == "STAGE_INSTANCE_DELETE"@
            ||| name == "SESSIONS_REPLACE"@
            ||| name == "USER_UPDATE"@
            ||| name == "VOICE_STATE_UPDATE"@
            ||| name == "VOICE_SERVER_UPDATE"@
            ||| name == "WEBHOOKS_UPDATE"@
        },
{
}

/// A dispatch is handled as the kind its event name classifies to, and its
/// data lands in the event of that kind; any other payload leaves the events
/// as they were.
pub proof fn lemma_dispatch_handled_as_named<T: WebSocketEvent, O>(
    p: GatewayPayload<T>,
    before: Events<T, O>,
    after: Events<T, O>,
)
    requires
        rejection_of(p) is None,
        events_after(before, after, p),
    ensures
        p.op == DISPATCH ==> received_of(p) == Received::Dispatch(dispatch_kind(p.t->Some_0@)),
        p.op == DISPATCH ==> before.stored(after, dispatch_kind(p.t->Some_0@), p.d->Some_0),
        p.op != DISPATCH ==> after == before,
        p.op == HEARTBEAT ==> received_of(p) == Received::Heartbeat,
        p.op == HEARTBEAT_ACK ==> received_of(p) == Received::HeartbeatAck,
{
}

/// A hello opens the connection with exactly the heartbeat interval it asked
/// for; any other first payload is refused with its own opcode.
pub proof fn lemma_hello_sets_interval(op: u8, heartbeat_interval: u128)
    ensures
        hello_outcome(HELLO, Some(heartbeat_interval)) == Ok::<HeartbeatHandler, GatewayError>(
            (HeartbeatHandler { heartbeat_interval }),
        ),
        op != HELLO ==> hello_outcome(op, Some(heartbeat_interval)) == Err::<HeartbeatHandler, GatewayError>(
            GatewayError::InvalidOpcode(op),
        ),
{
}

/// Each payload the client cannot handle is refused for its own reason: a
/// reconnect request or an invalid session notice (neither supported), a
/// second hello, an opcode only clients send, an opcode the gateway does not
/// define, or a dispatch without a name, of an undocumented name, or without
/// the data the client reads.
pub proof fn lemma_rejection_reasons<D>(p: GatewayPayload<D>)
    ensures
        rejection_of(p) == Some(Rejection::Reconnect) <==> p.op == 7,
        rejection_of(p) == Some(Rejection::InvalidSession) <==> p.op == 9,
        rejection_of(p) == Some(Rejection::UnexpectedHello) <==> p.op == 10,
        rejection_of(p) == Some(Rejection::ClientOpcode(p.op)) <==> (p.op == 2 || p.op == 3 || p.op == 4
            || p.op == 6 || p.op == 8),
        rejection_of(p) == Some(Rejection::InvalidOpcode(p.op)) <==> (p.op == 5 || p.op > 11),
        rejection_of(p) == Some(Rejection::MissingEventName) <==> (p.op == 0 && p.t is None),
        rejection_of(p) == Some(Rejection::UnknownEventName) <==> (p.op == 0 && p.t is Some
            && dispatch_kind(p.t->Some_0@) == DispatchKind::Unknown),
        rejection_of(p) == Some(Rejection::MissingEventData) <==> (p.op == 0 && p.t is Some && p.d is None
            && dispatch_kind(p.t->Some_0@) != DispatchKind::Unknown
            && dispatch_kind(p.t->Some_0@) != DispatchKind::Ignored),
{
}

/// Only a payload with a sequence number hands one to the heartbeat loop,
/// and only while a heartbeat runs.
pub proof fn lemma_forward_needs_sequence_and_heartbeat<D>(
    heartbeat: Option<HeartbeatHandler>,
    p: GatewayPayload<D>,
)
    ensures
        forward_of(heartbeat, p) is Some <==> (p.s is Some && heartbeat is Some),
        forward_of(heartbeat, p) matches Some(c) ==> c.op == p.op && Some(c.d) == p.s,
{
}

/// A heartbeat is due exactly once more than the interval has passed: never
/// at or before it.
pub proof fn lemma_heartbeat_due_after_interval(heartbeat_interval: u128, elapsed_millis: u128)
    ensures
        heartbeat_due(heartbeat_interval, elapsed_millis) <==> elapsed_millis >= heartbeat_interval + 1,
        elapsed_millis <= heartbeat_interval ==> !heartbeat_due(heartbeat_interval, elapsed_millis),
{
}

} // verus!
