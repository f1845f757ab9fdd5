//! The observable events of a connection, and which of them a dispatch
//! updates.

use vstd::prelude::*;

use crate::gateway::DispatchKind;
use crate::observer::{GatewayEvent, WebSocketEvent};

verus! {

/// The observable message events.
#[derive(Debug)]
pub struct Message<T: WebSocketEvent, O> {
    pub create: GatewayEvent<T, O>,
    pub update: GatewayEvent<T, O>,
    pub delete: GatewayEvent<T, O>,
    pub delete_bulk: GatewayEvent<T, O>,
    pub reaction_add: GatewayEvent<T, O>,
    pub reaction_remove: GatewayEvent<T, O>,
    pub reaction_remove_all: GatewayEvent<T, O>,
    pub reaction_remove_emoji: GatewayEvent<T, O>,
}

/// The observable user events.
#[derive(Debug)]
pub struct User<T: WebSocketEvent, O> {
    pub presence_update: GatewayEvent<T, O>,
    pub typing_start_event: GatewayEvent<T, O>,
}

/// The observable events of a connection.
#[derive(Debug)]
pub struct Events<T: WebSocketEvent, O> {
    pub message: Message<T, O>,
    pub user: User<T, O>,
    pub gateway_identify_payload: GatewayEvent<T, O>,
    pub gateway_resume: GatewayEvent<T, O>,
}

/// Whether `event` is unobserved and has no subscription.
pub open spec fn unobserved<T: WebSocketEvent, O>(event: GatewayEvent<T, O>) -> bool {
    &&& !event.observed()
    &&& event.subscriptions() == Seq::<O>::empty()
}

impl<T: WebSocketEvent, O> Events<T, O> {
    /// Whether every event is unobserved and has no subscription.
    pub open spec fn all_unobserved(&self) -> bool {
        &&& forall|kind: DispatchKind| #[trigger] self.event_for(kind) matches Some(e) ==> unobserved(e)
        &&& unobserved(self.gateway_identify_payload)
        &&& unobserved(self.gateway_resume)
    }

    /// Whether `after` is these events with `data` stored in the event that a
    /// dispatch of `kind` updates: that event has the new data and keeps its
    /// observers and flag; every other event is as it was. For a kind that
    /// updates no event, `after` is these events unchanged.
    pub open spec fn stored(&self, after: Self, kind: DispatchKind, data: T) -> bool {
        &&& self.event_for(kind) matches Some(before) ==> (after.event_for(kind) matches Some(e) && {
            &&& e.data() == data
            &&& e.subscriptions() == before.subscriptions()
            &&& e.observed() == before.observed()
        })
        &&& forall|other: DispatchKind|
            other != kind ==> #[trigger] after.event_for(other) == self.event_for(other)
        &&& after.gateway_identify_payload == self.gateway_identify_payload
        &&& after.gateway_resume == self.gateway_resume
    }

    /// The observable event that a dispatch of `kind` updates; none for the
    /// kinds whose data the client does not keep.
    pub open spec fn event_for(&self, kind: DispatchKind) -> Option<GatewayEvent<T, O>> {
        match kind {
            DispatchKind::MessageCreate => Some(self.message.create),
            DispatchKind::MessageUpdate => Some(self.message.update),
            DispatchKind::MessageDelete => Some(self.message.delete),
            DispatchKind::MessageDeleteBulk => Some(self.message.delete_bulk),
            DispatchKind::MessageReactionAdd => Some(self.message.reaction_add),
            DispatchKind::MessageReactionRemove => Some(self.message.reaction_remove),
            DispatchKind::MessageReactionRemoveAll => Some(self.message.reaction_remove_all),
            DispatchKind::MessageReactionRemoveEmoji => Some(self.message.reaction_remove_emoji),
            DispatchKind::PresenceUpdate => Some(self.user.presence_update),
            DispatchKind::TypingStart => Some(self.user.typing_start_event),
            _ => None,
        }
    }

    /// The observable event that a dispatch of `kind` updates, for notifying
    /// its observers.
    pub fn event(&self, kind: DispatchKind) -> (event: Option<&GatewayEvent<T, O>>)
        ensures
            match event {
                Some(e) => self.event_for(kind) == Some(*e),
                None => self.event_for(kind) is None,
            },
    {
        match kind {
            DispatchKind::MessageCreate => Some(&self.message.create),
            DispatchKind::MessageUpdate => Some(&self.message.update),
            DispatchKind::MessageDelete => Some(&self.message.delete),
            DispatchKind::MessageDeleteBulk => Some(&self.message.delete_bulk),
            DispatchKind::MessageReactionAdd => Some(&self.message.reaction_add),
            DispatchKind::MessageReactionRemove => Some(&self.message.reaction_remove),
            DispatchKind::MessageReactionRemoveAll => Some(&self.message.reaction_remove_all),
            DispatchKind::MessageReactionRemoveEmoji => Some(&self.message.reaction_remove_emoji),
            DispatchKind::PresenceUpdate => Some(&self.user.presence_update),
            DispatchKind::TypingStart => Some(&self.user.typing_start_event),
            _ => None,
        }
    }

    /// Stores `data` as the new data of the event that a dispatch of `kind`
    /// updates, and says whether there is one. Every other event, and the
    /// updated event's subscriptions, stay as they were.
    pub fn store(&mut self, kind: DispatchKind, data: T) -> (stored: bool)
        ensures
            stored == old(self).event_for(kind) is Some,
            old(self).stored(*final(self), kind, data),
    {
        match kind {
            DispatchKind::MessageCreate => {
                self.message.create.update_data(data);
                true
            },
            DispatchKind::MessageUpdate => {
                self.message.update.update_data(data);
                true
            },
            DispatchKind::MessageDelete => {
                self.message.delete.update_data(data);
                true
            },
            DispatchKind::MessageDeleteBulk => {
                self.message.delete_bulk.update_data(data);
                true
            },
            DispatchKind::MessageReactionAdd => {
                self.message.reaction_add.update_data(data);
                true
            },
            DispatchKind::MessageReactionRemove => {
                self.message.reaction_remove.update_data(data);
                true
            },
            DispatchKind::MessageReactionRemoveAll => {
                self.message.reaction_remove_all.update_data(data);
                true
            },
            DispatchKind::MessageReactionRemoveEmoji => {
                self.message.reaction_remove_emoji.update_data(data);
                true
            },
            DispatchKind::PresenceUpdate => {
                self.user.presence_update.update_data(data);
                true
            },
            DispatchKind::TypingStart => {
                self.user.typing_start_event.update_data(data);
                true
            },
            _ => false,
        }
    }
}

impl<T: WebSocketEvent + Default, O> Default for Events<T, O> {
    /// Every event unobserved, holding the default data.
    fn default() -> (events: Self)
        ensures
            events.all_unobserved(),
    {
        Events {
            message: Message {
                create: GatewayEvent::default(),
                update: GatewayEvent::default(),
                delete: GatewayEvent::default(),
                delete_bulk: GatewayEvent::default(),
                reaction_add: GatewayEvent::default(),
                reaction_remove: GatewayEvent::default(),
                reaction_remove_all: GatewayEvent::default(),
                reaction_remove_emoji: GatewayEvent::default(),
            },
            user: User {
                presence_update: GatewayEvent::default(),
                typing_start_event: GatewayEvent::default(),
            },
            gateway_identify_payload: GatewayEvent::default(),
            gateway_resume: GatewayEvent::default(),
        }
    }
}

/// Storing a dispatch's data updates the event named after its kind (a
/// `MESSAGE_UPDATE` updates `message.update`, a `TYPING_START` updates
/// `user.typing_start_event`, and so on): that event gets the data and keeps
/// its observers and flag, and every other event is left as it was.
pub proof fn lemma_store_updates_named_event<T: WebSocketEvent, O>(
    before: Events<T, O>,
    after: Events<T, O>,
    kind: DispatchKind,
    data: T,
)
    requires
        before.stored(after, kind, data),
    ensures
        kind == DispatchKind::MessageCreate ==> {
            &&& after.message.create.data() == data
            &&& after.message.create.subscriptions() == before.message.create.subscriptions()
            &&& after.message.create.observed() == before.message.create.observed()
        },
        kind != DispatchKind::MessageCreate ==> after.message.create == before.message.create,
        kind == DispatchKind::MessageUpdate ==> {
            &&& after.message.update.data() == data
            &&& after.message.update.subscriptions() == before.message.update.subscriptions()
            &&& after.message.update.observed() == before.message.update.observed()
        },
        kind != DispatchKind::MessageUpdate ==> after.message.update == before.message.update,
        kind == DispatchKind::MessageDelete ==> {
            &&& after.message.delete.data() == data
            &&& after.message.delete.subscriptions() == before.message.delete.subscriptions()
            &&& after.message.delete.observed() == before.message.delete.observed()
        },
        kind != DispatchKind::MessageDelete ==> after.message.delete == before.message.delete,
        kind == DispatchKind::MessageDeleteBulk ==> {
            &&& after.message.delete_bulk.data() == data
            &&& after.message.delete_bulk.subscriptions() == before.message.delete_bulk.subscriptions()
            &&& after.message.delete_bulk.observed() == before.message.delete_bulk.observed()
        },
        kind != DispatchKind::MessageDeleteBulk ==> after.message.delete_bulk == before.message.delete_bulk,
        kind == DispatchKind::MessageReactionAdd ==> {
            &&& after.message.reaction_add.data() == data
            &&& after.message.reaction_add.subscriptions() == before.message.reaction_add.subscriptions()
            &&& after.message.reaction_add.observed() == before.message.reaction_add.observed()
        },
        kind != DispatchKind::MessageReactionAdd ==> after.message.reaction_add == before.message.reaction_add,
        kind == DispatchKind::MessageReactionRemove ==> {
            &&& after.message.reaction_remove.data() == data
            &&& after.message.reaction_remove.subscriptions() == before.message.reaction_remove.subscriptions()
            &&& after.message.reaction_remove.observed() == before.message.reaction_remove.observed()
        },
        kind != DispatchKind::MessageReactionRemove ==> after.message.reaction_remove == before.message.reaction_remove,
        kind == DispatchKind::MessageReactionRemoveAll ==> {
            &&& after.message.reaction_remove_all.data() == data
            &&& after.message.reaction_remove_all.subscriptions() == before.message.reaction_remove_all.subscriptions()
            &&& after.message.reaction_remove_all.observed() == before.message.reaction_remove_all.observed()
        },
        kind != DispatchKind::MessageReactionRemoveAll ==> after.message.reaction_remove_all == before.message.reaction_remove_all,
        kind == DispatchKind::MessageReactionRemoveEmoji ==> {
            &&& after.message.reaction_remove_emoji.data() == data
            &&& after.message.reaction_remove_emoji.subscriptions() == before.message.reaction_remove_emoji.subscriptions()
            &&& after.message.reaction_remove_emoji.observed() == before.message.reaction_remove_emoji.observed()
        },
        kind != DispatchKind::MessageReactionRemoveEmoji ==> after.message.reaction_remove_emoji == before.message.reaction_remove_emoji,
        kind == DispatchKind::PresenceUpdate ==> {
            &&& after.user.presence_update.data() == data
            &&& after.user.presence_update.subscriptions() == before.user.presence_update.subscriptions()
            &&& after.user.presence_update.observed() == before.user.presence_update.observed()
        },
        kind != DispatchKind::PresenceUpdate ==> after.user.presence_update == before.user.presence_update,
        kind == DispatchKind::TypingStart ==> {
            &&& after.user.typing_start_event.data() == data
            &&& after.user.typing_start_event.subscriptions() == before.user.typing_start_event.subscriptions()
            &&& after.user.typing_start_event.observed() == before.user.typing_start_event.observed()
        },
        kind != DispatchKind::TypingStart ==> after.user.typing_start_event == before.user.typing_start_event,
        after.gateway_identify_payload == before.gateway_identify_payload,
        after.gateway_resume == before.gateway_resume,
{
    assert(after.event_for(DispatchKind::MessageCreate) == after.event_for(DispatchKind::MessageCreate));
    assert(after.event_for(DispatchKind::MessageUpdate) == after.event_for(DispatchKind::MessageUpdate));
    assert(after.event_for(DispatchKind::MessageDelete) == after.event_for(DispatchKind::MessageDelete));
    assert(after.event_for(DispatchKind::MessageDeleteBulk) == after.event_for(DispatchKind::MessageDeleteBulk));
    assert(after.event_for(DispatchKind::MessageReactionAdd) == after.event_for(DispatchKind::MessageReactionAdd));
    assert(after.event_for(DispatchKind::MessageReactionRemove) == after.event_for(DispatchKind::MessageReactionRemove));
    assert(after.event_for(DispatchKind::MessageReactionRemoveAll) == after.event_for(DispatchKind::MessageReactionRemoveAll));
    assert(after.event_for(DispatchKind::MessageReactionRemoveEmoji) == after.event_for(DispatchKind::MessageReactionRemoveEmoji));
    assert(after.event_for(DispatchKind::PresenceUpdate) == after.event_for(DispatchKind::PresenceUpdate));
    assert(after.event_for(DispatchKind::TypingStart) == after.event_for(DispatchKind::TypingStart));
}

} // verus!
