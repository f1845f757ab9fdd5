//! Observable gateway events: each event keeps its latest data and the
//! observer subscribed to it.

use vstd::prelude::*;

use crate::text::same_text;

verus! {

/// A value the gateway can deliver as an event.
pub trait WebSocketEvent {}

/// An object subscribed to an observable event; it is told each new value of
/// the event's data.
pub trait Observer<T: WebSocketEvent>: core::fmt::Debug {
    fn update(&self, data: &T);
}

/// Why a subscription was refused.
#[derive(Clone, Copy, Debug, PartialEq, Eq, Structural)]
pub enum ObserverError {
    /// The event already has an observer: an event is observed by one
    /// observer at a time.
    AlreadySubscribedError,
}

/// A gateway event: its latest data and the observers notified of each
/// change. At most one observer subscribes at a time.
#[derive(Debug)]
pub struct GatewayEvent<T: WebSocketEvent, O> {
    observers: Vec<O>,
    pub event_data: T,
    pub is_observed: bool,
}

/// The invariant of an event with observers `observers` and flag
/// `observed`: at most one observer, and the flag says whether there is one.
pub open spec fn observer_invariant<O>(observers: Seq<O>, observed: bool) -> bool {
    &&& observers.len() <= 1
    &&& observed == (observers.len() == 1)
}

/// The observers that stay when the one rendered as `rendering` leaves:
/// those whose rendering (`renderings[i]` for `observers[i]`) differs.
pub open spec fn unmatched<O>(
    observers: Seq<O>,
    renderings: Seq<Seq<char>>,
    rendering: Seq<char>,
) -> Seq<O>
    decreases observers.len(),
{
    if observers.len() == 0 {
        Seq::<O>::empty()
    } else {
        let rest = unmatched(observers.drop_last(), renderings, rendering);
        if renderings[observers.len() - 1] == rendering {
            rest
        } else {
            rest.push(observers.last())
        }
    }
}

impl<T: WebSocketEvent + Default, O> Default for GatewayEvent<T, O> {
    /// An unobserved event holding the default data.
    fn default() -> (event: Self)
        ensures
            !event.observed(),
            event.subscriptions() == Seq::<O>::empty(),
            event.well_formed(),
    {
        GatewayEvent { observers: Vec::new(), event_data: T::default(), is_observed: false }
    }
}

impl<T: WebSocketEvent, O> GatewayEvent<T, O> {
    /// The current observers, oldest first.
    pub closed spec fn subscriptions(&self) -> Seq<O> {
        self.observers@
    }

    /// The `is_observed` flag.
    pub closed spec fn observed(&self) -> bool {
        self.is_observed
    }

    /// The event's latest data.
    pub closed spec fn data(&self) -> T {
        self.event_data
    }

    /// The event's invariant: at most one observer, and `is_observed` says
    /// whether there is one.
    pub open spec fn well_formed(&self) -> bool {
        observer_invariant(self.subscriptions(), self.observed())
    }

    /// An unobserved event holding `event_data`.
    pub fn new(event_data: T) -> (event: Self)
        ensures
            event.data() == event_data,
            !event.observed(),
            event.subscriptions() == Seq::<O>::empty(),
            event.well_formed(),
    {
        GatewayEvent { is_observed: false, observers: Vec::new(), event_data }
    }

    /// Returns true if the event is observed by at least one observer.
    pub fn is_observed(&self) -> (observed: bool)
        ensures
            observed == (self.subscriptions().len() > 0),
    {
        self.observers.len() > 0
    }

    /// The event's latest data.
    pub fn event_data(&self) -> (data: &T)
        ensures
            *data == self.data(),
    {
        &self.event_data
    }

    /// The current observers, for notifying them.
    pub fn observers(&self) -> (observers: &Vec<O>)
        ensures
            observers@ == self.subscriptions(),
    {
        &self.observers
    }

    /// Subscribes an observer. Refused with
    /// [`ObserverError::AlreadySubscribedError`], and nothing changes, if the
    /// event is already observed.
    pub fn subscribe(&mut self, observable: O) -> (result: Option<ObserverError>)
        ensures
            old(self).observed() ==> {
                &&& result == Some(ObserverError::AlreadySubscribedError)
                &&& final(self).subscriptions() == old(self).subscriptions()
                &&& final(self).observed()
            },
            !old(self).observed() ==> {
                &&& result.is_none()
                &&& final(self).subscriptions() == old(self).subscriptions().push(observable)
                &&& final(self).observed()
            },
            final(self).data() == old(self).data(),
            old(self).well_formed() ==> final(self).well_formed(),
    {
        if self.is_observed {
            return Some(ObserverError::AlreadySubscribedError);
        }
        self.is_observed = true;
        self.observers.push(observable);
        None
    }

    /// Unsubscribes an observer: every observer whose debug rendering, as it
    /// reads now (`renderings[i]` for the `i`-th observer), equals the
    /// leaving observer's `rendering` is dropped. The event stays observed as
    /// long as some observer remains.
    pub fn unsubscribe(&mut self, renderings: &Vec<String>, rendering: &str)
        requires
            renderings@.len() == old(self).subscriptions().len(),
        ensures
            final(self).subscriptions() == unmatched(
                old(self).subscriptions(),
                renderings@.map_values(|r: String| r@),
                rendering@,
            ),
            final(self).observed() == (final(self).subscriptions().len() > 0),
            final(self).data() == old(self).data(),
            old(self).well_formed() ==> final(self).well_formed(),
    {
        let mut remaining: Vec<O> = Vec::new();
        std::mem::swap(&mut remaining, &mut self.observers);
        let ghost original = remaining@;
        let ghost texts = renderings@.map_values(|r: String| r@);
        let mut kept: Vec<O> = Vec::new();
        let mut i: usize = 0;
        while i < renderings.len()
            invariant
                renderings@.len() == original.len(),
                texts == renderings@.map_values(|r: String| r@),
                i + remaining@.len() == original.len(),
                remaining@ == original.skip(i as int),
                kept@ == unmatched(original.take(i as int), texts, rendering@),
            decreases renderings.len() - i,
        {
            proof {
                assert(original.skip(i as int)[0] == original[i as int]);
                assert(original.skip(i as int).remove(0) =~= original.skip(i + 1));
            }
            let observer = remaining.remove(0);
            let matches = same_text(renderings[i].as_str(), rendering);
            if !matches {
                kept.push(observer);
            }
            proof {
                assert(original.take(i + 1).drop_last() =~= original.take(i as int));
                assert(original.take(i + 1).last() == original[i as int]);
                assert(texts[i as int] == renderings@[i as int]@);
            }
            i = i + 1;
        }
        assert(original.take(i as int) =~= original);
        self.observers = kept;
        self.is_observed = self.observers.len() > 0;
        proof {
            lemma_unmatched_len(original, texts, rendering@);
        }
    }

    /// Replaces the event's data; the caller then notifies the observers.
    pub fn update_data(&mut self, new_event_data: T)
        ensures
            final(self).data() == new_event_data,
            final(self).subscriptions() == old(self).subscriptions(),
            final(self).observed() == old(self).observed(),
    {
        self.event_data = new_event_data;
    }
}

/// Unsubscribing never adds an observer.
pub proof fn lemma_unmatched_len<O>(observers: Seq<O>, renderings: Seq<Seq<char>>, rendering: Seq<char>)
    ensures
        unmatched(observers, renderings, rendering).len() <= observers.len(),
    decreases observers.len(),
{
    if observers.len() > 0 {
        lemma_unmatched_len(observers.drop_last(), renderings, rendering);
    }
}

/// Unsubscribing the observer that subscribed to an unobserved event, by the
/// rendering it has then, leaves the event unobserved again.
pub proof fn lemma_unsubscribe_undoes_subscribe<O>(observer: O, rendering: Seq<char>)
    ensures
        unmatched(Seq::<O>::empty().push(observer), seq![rendering], rendering) == Seq::<O>::empty(),
{
    assert(Seq::<O>::empty().push(observer).drop_last() =~= Seq::<O>::empty());
    assert(unmatched(Seq::<O>::empty(), seq![rendering], rendering) == Seq::<O>::empty());
}

/// Subscribing and unsubscribing keep the event's invariant: an event is
/// observed exactly when it has its one observer.
pub proof fn lemma_operations_keep_invariant<O>(
    before: Seq<O>,
    observed: bool,
    renderings: Seq<Seq<char>>,
    rendering: Seq<char>,
)
    requires
        observer_invariant(before, observed),
    ensures
        forall|o: O| !observed ==> #[trigger] observer_invariant(before.push(o), true),
        observer_invariant(
            unmatched(before, renderings, rendering),
            unmatched(before, renderings, rendering).len() > 0,
        ),
{
    lemma_unmatched_len(before, renderings, rendering);
}

/// Unsubscribing a rendering that no observer has leaves every observer; one
/// that every observer has leaves none.
pub proof fn lemma_unsubscribe_by_rendering<O>(
    observers: Seq<O>,
    renderings: Seq<Seq<char>>,
    rendering: Seq<char>,
)
    requires
        renderings.len() == observers.len(),
    ensures
        (forall|i: int| 0 <= i < observers.len() ==> renderings[i] != rendering)
            ==> unmatched(observers, renderings, rendering) == observers,
        (forall|i: int| 0 <= i < observers.len() ==> renderings[i] == rendering)
            ==> unmatched(observers, renderings, rendering) == Seq::<O>::empty(),
    decreases observers.len(),
{
    if observers.len() > 0 {
        lemma_unsubscribe_by_rendering(observers.drop_last(), renderings.drop_last(), rendering);
        lemma_unmatched_prefix(observers.drop_last(), renderings, renderings.drop_last(), rendering);
        assert(observers.drop_last().push(observers.last()) =~= observers);
    }
}

/// Only the renderings of the observers themselves matter.
proof fn lemma_unmatched_prefix<O>(
    observers: Seq<O>,
    renderings: Seq<Seq<char>>,
    prefix: Seq<Seq<char>>,
    rendering: Seq<char>,
)
    requires
        observers.len() <= prefix.len(),
        prefix.len() <= renderings.len(),
        forall|i: int| 0 <= i < prefix.len() ==> prefix[i] == renderings[i],
    ensures
        unmatched(observers, renderings, rendering) == unmatched(observers, prefix, rendering),
    decreases observers.len(),
{
    if observers.len() > 0 {
        lemma_unmatched_prefix(observers.drop_last(), renderings, prefix, rendering);
    }
}

} // verus!
