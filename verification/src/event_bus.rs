//! A publish/subscribe bus keyed by the kind of an event.
//!
//! The bus keeps its subscriptions in the order in which they were made.
//! Each gets its identifier from a counter that the caller owns, so that
//! every bus that draws from one counter gets identifiers of its own: no two
//! subscriptions share one, on one bus or on two. A program that keeps one
//! counter has identifiers that are unique in the whole program.
//!
//! Emitting an event copies out the handlers subscribed to its kind and hands
//! each callback, in that order, to an invoker supplied by the caller. The
//! invoker makes the call and reports whether it completed, so that a failing
//! callback is one report among the others and stops nothing.

use std::sync::Arc;
use vstd::prelude::*;

verus! {

/// Lifecycle events of an application.
#[derive(Debug, Clone, Copy, PartialEq, Eq, Structural)]
pub enum Event {
    AppStarted,
    AppShutdown,
}

/// The kind of an [`Event`]: the key under which handlers subscribe.
#[derive(Debug, Clone, Copy, PartialEq, Eq, Structural, Hash)]
pub enum EventDiscriminants {
    AppStarted,
    AppShutdown,
}

/// The kind of `event`.
pub open spec fn discriminant_of(event: Event) -> EventDiscriminants {
    match event {
        Event::AppStarted => EventDiscriminants::AppStarted,
        Event::AppShutdown => EventDiscriminants::AppShutdown,
    }
}

impl<'a> From<&'a Event> for EventDiscriminants {
    fn from(event: &'a Event) -> (kind: Self) {
        match event {
            Event::AppStarted => EventDiscriminants::AppStarted,
            Event::AppShutdown => EventDiscriminants::AppShutdown,
        }
    }
}

impl<'a> vstd::std_specs::convert::FromSpecImpl<&'a Event> for EventDiscriminants {
    open spec fn obeys_from_spec() -> bool {
        true
    }

    open spec fn from_spec(event: &'a Event) -> Self {
        discriminant_of(*event)
    }
}

/// One subscription: a callback, the kind of event it is for, and the
/// identifier by which it is removed.
pub struct Handler<F: ?Sized> {
    pub event: EventDiscriminants,
    pub id: u64,
    pub callback: Arc<F>,
}

/// The outcome of handing one callback to the invoker.
#[derive(Debug, Clone, Copy, PartialEq, Eq, Structural)]
pub struct Delivery {
    /// The identifier of the handler.
    pub handler: u64,
    /// Whether the invoker reported that the callback completed.
    pub completed: bool,
}

/// The value at which a counter of identifiers starts.
pub const FIRST_ID: u64 = 1;

/// Takes the next identifier from `counter`: the value that the counter
/// holds, which then moves on by one. Identifiers taken from one counter
/// therefore increase strictly in the order in which they are taken.
pub fn generate_id(counter: &mut u64) -> (id: u64)
    requires
        *old(counter) < u64::MAX,
    ensures
        id == *old(counter),
        *final(counter) == id + 1,
{
    let id = *counter;
    *counter = id + 1;
    id
}

/// The handlers among `subscriptions` that are subscribed to `event`, in
/// their order.
pub open spec fn handlers_for<F: ?Sized>(
    subscriptions: Seq<Handler<F>>,
    event: EventDiscriminants,
) -> Seq<Handler<F>> {
    subscriptions.filter(|h: Handler<F>| h.event == event)
}

/// `subscriptions` without the handlers subscribed to `event` under `id`.
pub open spec fn without_handler<F: ?Sized>(
    subscriptions: Seq<Handler<F>>,
    event: EventDiscriminants,
    id: u64,
) -> Seq<Handler<F>> {
    subscriptions.filter(|h: Handler<F>| !(h.event == event && h.id == id))
}

/// Whether some handler among `subscriptions` is subscribed to `event` under
/// `id`.
pub open spec fn is_subscribed<F: ?Sized>(
    subscriptions: Seq<Handler<F>>,
    event: EventDiscriminants,
    id: u64,
) -> bool {
    exists|i: int|
        0 <= i < subscriptions.len() && (#[trigger] subscriptions[i]).event == event
            && subscriptions[i].id == id
}

/// Whether the identifiers of `subscriptions` increase strictly along the
/// sequence and stay below `next_id`.
pub open spec fn ids_increase<F: ?Sized>(subscriptions: Seq<Handler<F>>, next_id: u64) -> bool {
    &&& forall|i: int, j: int|
        0 <= i < j < subscriptions.len() ==> (#[trigger] subscriptions[i]).id
            < (#[trigger] subscriptions[j]).id
    &&& forall|i: int|
        0 <= i < subscriptions.len() ==> FIRST_ID <= (#[trigger] subscriptions[i]).id < next_id
}

/// Whether `deliveries` report one call of `invoke` for each of `handlers`,
/// in their order, each with `event`.
pub open spec fn delivered_to<F: ?Sized, I: Fn(&F, &Event) -> bool>(
    deliveries: Seq<Delivery>,
    handlers: Seq<Handler<F>>,
    event: Event,
    invoke: I,
) -> bool {
    &&& deliveries.len() == handlers.len()
    &&& forall|i: int|
        0 <= i < handlers.len() ==> (#[trigger] deliveries[i]).handler == handlers[i].id
            && call_ensures(invoke, (&*handlers[i].callback, &event), deliveries[i].completed)
}

/// Another pointer to the value that `callback` points to.
///
/// Calls `Arc::clone`, which hands out a new pointer to the same allocation
/// and copies nothing: the value behind the result is the value behind
/// `callback`.
#[verifier::external_body]
fn share<F: ?Sized>(callback: &Arc<F>) -> (shared: Arc<F>)
    ensures
        shared == *callback,
{
    Arc::clone(callback)
}

/// Hands each callback of `handlers`, in order, to `invoke` together with
/// `event`, and reports each outcome. Every handler is reached, whatever the
/// outcomes before it.
pub fn dispatch<F: ?Sized, I: Fn(&F, &Event) -> bool>(
    handlers: &Vec<Handler<F>>,
    event: &Event,
    invoke: &I,
) -> (deliveries: Vec<Delivery>)
    requires
        forall|i: int|
            0 <= i < handlers.len() ==> call_requires(
                *invoke,
                (&*(#[trigger] handlers[i]).callback, event),
            ),
    ensures
        delivered_to(deliveries@, handlers@, *event, *invoke),
{
    let mut deliveries: Vec<Delivery> = Vec::new();
    let mut i: usize = 0;
    while i < handlers.len()
        invariant
            i <= handlers.len(),
            forall|k: int|
                0 <= k < handlers.len() ==> call_requires(
                    *invoke,
                    (&*(#[trigger] handlers[k]).callback, event),
                ),
            delivered_to(deliveries@, handlers@.take(i as int), *event, *invoke),
        decreases handlers.len() - i,
    {
        let handler = &handlers[i];
        let completed = invoke(&*handler.callback, event);
        deliveries.push(Delivery { handler: handler.id, completed });
        i += 1;
    }
    assert(handlers@.take(handlers.len() as int) == handlers@);
    deliveries
}

/// The bus: subscriptions in the order in which they were made, and a bound
/// above the identifiers of all of them.
pub struct EventBus<F: ?Sized> {
    handlers: Vec<Handler<F>>,
    next_id: u64,
}

impl<F: ?Sized> EventBus<F> {
    /// The subscriptions, oldest first.
    pub closed spec fn view(&self) -> Seq<Handler<F>> {
        self.handlers@
    }

    /// The least identifier that the next subscription can get: one more
    /// than the identifier of the latest subscription, and 1 on a bus that
    /// never had one.
    pub closed spec fn next_id(&self) -> u64 {
        self.next_id
    }

    /// The identifiers of the subscriptions increase strictly in the order of
    /// subscription, start at 1 and stay below the next identifier.
    pub open spec fn wf(&self) -> bool {
        &&& self.next_id() >= FIRST_ID
        &&& ids_increase(self@, self.next_id())
    }

    /// A bus without subscriptions, which takes any identifier.
    pub fn new() -> (bus: Self)
        ensures
            bus.wf(),
            bus@ == Seq::<Handler<F>>::empty(),
            bus.next_id() == FIRST_ID,
    {
        EventBus { handlers: Vec::new(), next_id: FIRST_ID }
    }

    /// Whether the bus can take a subscription whose identifier comes from a
    /// counter that holds `counter`: the counter must not lie below an
    /// identifier that the bus has, and must have an identifier left.
    pub fn can_subscribe(&self, counter: u64) -> (can: bool)
        ensures
            can == (self.next_id() <= counter && counter < u64::MAX),
    {
        self.next_id <= counter && counter < u64::MAX
    }

    /// Subscribes `callback` to `event`, behind every earlier subscription,
    /// and returns its identifier, which it takes from `counter`.
    ///
    /// The identifier is the value that the counter held, and the counter
    /// moves on by one. So, as long as nothing else writes to the counter,
    /// the identifier is larger than every one taken from it before, by this
    /// bus or by another, and no later subscription gets it again.
    pub fn subscribe(
        &mut self,
        counter: &mut u64,
        event: EventDiscriminants,
        callback: Arc<F>,
    ) -> (id: u64)
        requires
            old(self).wf(),
            old(self).next_id() <= *old(counter),
            *old(counter) < u64::MAX,
        ensures
            final(self).wf(),
            id == *old(counter),
            *final(counter) == id + 1,
            final(self).next_id() == id + 1,
            final(self)@ == old(self)@.push(Handler { event, id, callback }),
    {
        let id = generate_id(counter);
        self.next_id = id + 1;
        self.handlers.push(Handler { event, id, callback });
        id
    }

    /// A copy of the handlers subscribed to `event`, oldest first.
    pub fn handlers(&self, event: EventDiscriminants) -> (copy: Vec<Handler<F>>)
        ensures
            copy@ == handlers_for(self@, event),
    {
        let mut copy: Vec<Handler<F>> = Vec::new();
        let mut i: usize = 0;
        proof {
            reveal(Seq::filter);
        }
        while i < self.handlers.len()
            invariant
                i <= self.handlers.len(),
                copy@ == handlers_for(self.handlers@.take(i as int), event),
            decreases self.handlers.len() - i,
        {
            proof {
                reveal(Seq::filter);
                assert(self.handlers@.take(i + 1).drop_last() == self.handlers@.take(i as int));
            }
            let handler = &self.handlers[i];
            if handler.event == event {
                copy.push(
                    Handler { event: handler.event, id: handler.id, callback: share(&handler.callback) },
                );
            }
            i += 1;
        }
        assert(self.handlers@.take(self.handlers.len() as int) == self.handlers@);
        copy
    }

    /// Removes the handler subscribed to `event` under `id`. The other
    /// subscriptions keep their order and their identifiers; where no such
    /// handler is subscribed, nothing changes.
    pub fn unsubscribe(&mut self, event: EventDiscriminants, id: u64)
        requires
            old(self).wf(),
        ensures
            final(self).wf(),
            final(self).next_id() == old(self).next_id(),
            final(self)@ == without_handler(old(self)@, event, id),
            !is_subscribed(old(self)@, event, id) ==> final(self)@ == old(self)@,
    {
        let ghost before = self.handlers@;
        let ghost mut seen: int = 0;
        let mut i: usize = 0;
        proof {
            reveal(Seq::filter);
            if !is_subscribed(before, event, id) {
                lemma_unsubscribe_absent(before, event, id);
            }
            lemma_unsubscribe_keeps_order(before, event, id, self.next_id);
        }
        while i < self.handlers.len()
            invariant
                self.next_id == old(self).next_id,
                before == old(self)@,
                i <= self.handlers.len(),
                0 <= seen <= before.len(),
                self.handlers.len() - i == before.len() - seen,
                self.handlers@.take(i as int) == without_handler(before.take(seen), event, id),
                self.handlers@.skip(i as int) == before.skip(seen),
            decreases self.handlers.len() - i,
        {
            proof {
                reveal(Seq::filter);
                assert(before.take(seen + 1).drop_last() == before.take(seen));
                assert(self.handlers@[i as int] == before.skip(seen)[0]);
            }
            let ghost current = self.handlers@;
            if self.handlers[i].event == event && self.handlers[i].id == id {
                self.handlers.remove(i);
                assert(self.handlers@.take(i as int) == current.take(i as int));
                assert forall|j: int| 0 <= j < self.handlers@.len() - i implies self.handlers@.skip(
                    i as int,
                )[j] == before.skip(seen + 1)[j] by {
                    assert(current.skip(i as int)[j + 1] == before.skip(seen)[j + 1]);
                }
                assert(self.handlers@.skip(i as int) == before.skip(seen + 1));
            } else {
                i += 1;
                assert(current.take(i as int) == current.take(i - 1).push(before[seen]));
                assert forall|j: int| 0 <= j < current.len() - i implies current.skip(i as int)[j]
                    == before.skip(seen + 1)[j] by {
                    assert(current.skip(i - 1)[j + 1] == before.skip(seen)[j + 1]);
                }
                assert(current.skip(i as int) == before.skip(seen + 1));
            }
            proof {
                seen = seen + 1;
            }
        }
        assert(self.handlers@.take(i as int) == self.handlers@);
        assert(before.take(seen) == before);
    }

    /// Emits `event`: copies out the handlers subscribed to its kind, then
    /// hands each callback, oldest subscription first, to `invoke`. The bus
    /// itself is not changed, and with no handler for the kind nothing is
    /// called.
    pub fn emit<I: Fn(&F, &Event) -> bool>(&self, event: &Event, invoke: &I) -> (deliveries: Vec<
        Delivery,
    >)
        requires
            forall|i: int|
                0 <= i < handlers_for(self@, discriminant_of(*event)).len() ==> call_requires(
                    *invoke,
                    (
                        &*(#[trigger] handlers_for(self@, discriminant_of(*event))[i]).callback,
                        event,
                    ),
                ),
        ensures
            deliveries@.len() == handlers_for(self@, discriminant_of(*event)).len(),
            delivered_to(deliveries@, handlers_for(self@, discriminant_of(*event)), *event, *invoke),
    {
        let discriminant = EventDiscriminants::from(event);
        let handlers = self.handlers(discriminant);
        dispatch(&handlers, event, invoke)
    }
}

/// Where no handler is subscribed to the kind of an event, emitting it
/// delivers nothing.
pub proof fn lemma_no_subscriber_no_delivery<F: ?Sized, I: Fn(&F, &Event) -> bool>(
    subscriptions: Seq<Handler<F>>,
    deliveries: Seq<Delivery>,
    event: Event,
    invoke: I,
)
    requires
        handlers_for(subscriptions, discriminant_of(event)).len() == 0,
        delivered_to(deliveries, handlers_for(subscriptions, discriminant_of(event)), event, invoke),
    ensures
        deliveries == Seq::<Delivery>::empty(),
{
}

/// A callback that did not complete stops nothing: every handler behind it
/// is reached as well, in the same delivery.
pub proof fn lemma_failure_stops_nothing<F: ?Sized, I: Fn(&F, &Event) -> bool>(
    deliveries: Seq<Delivery>,
    handlers: Seq<Handler<F>>,
    event: Event,
    invoke: I,
    failed: int,
    later: int,
)
    requires
        delivered_to(deliveries, handlers, event, invoke),
        0 <= failed < later < handlers.len(),
        !deliveries[failed].completed,
    ensures
        later < deliveries.len(),
        deliveries[later].handler == handlers[later].id,
        call_ensures(invoke, (&*handlers[later].callback, &event), deliveries[later].completed),
{
}

/// A new subscription stands behind the handlers that its kind had before,
/// and leaves the handlers of every other kind as they were.
pub proof fn lemma_subscribe_by_kind<F: ?Sized>(
    subscriptions: Seq<Handler<F>>,
    handler: Handler<F>,
    kind: EventDiscriminants,
)
    ensures
        handlers_for(subscriptions.push(handler), kind) == if handler.event == kind {
            handlers_for(subscriptions, kind).push(handler)
        } else {
            handlers_for(subscriptions, kind)
        },
{
    reveal(Seq::filter);
    assert(subscriptions.push(handler).drop_last() == subscriptions);
}

/// With identifiers in strictly increasing order, no two subscriptions share
/// an identifier.
pub proof fn lemma_ids_are_unique<F: ?Sized>(
    subscriptions: Seq<Handler<F>>,
    next_id: u64,
    i: int,
    j: int,
)
    requires
        ids_increase(subscriptions, next_id),
        0 <= i < subscriptions.len(),
        0 <= j < subscriptions.len(),
        subscriptions[i].id == subscriptions[j].id,
    ensures
        i == j,
{
    if i < j {
        assert(subscriptions[i].id < subscriptions[j].id);
    } else if j < i {
        assert(subscriptions[j].id < subscriptions[i].id);
    }
}

/// Identifiers that increase along a sequence of subscriptions increase
/// along the sequence without its last subscription, under the same bound.
pub proof fn lemma_earlier_ids_increase<F: ?Sized>(subscriptions: Seq<Handler<F>>, next_id: u64)
    requires
        ids_increase(subscriptions, next_id),
        subscriptions.len() > 0,
    ensures
        ids_increase(subscriptions.drop_last(), next_id),
{
    let rest = subscriptions.drop_last();
    assert forall|i: int, j: int| 0 <= i < j < rest.len() implies (#[trigger] rest[i]).id
        < (#[trigger] rest[j]).id by {
        assert(subscriptions[i] == rest[i] && subscriptions[j] == rest[j]);
    }
    assert forall|i: int| 0 <= i < rest.len() implies 1 <= (#[trigger] rest[i]).id < next_id by {
        assert(subscriptions[i] == rest[i]);
    }
}

/// One counter keeps the identifiers of two buses apart.
///
/// Take two buses whose identifiers all lie below the value `counter` of
/// the counter that both draw from, which started at [`FIRST_ID`]. A
/// subscription on the first of them gets the identifier `counter`, which
/// is larger than every identifier on either bus. Afterwards the
/// identifiers of both buses lie below the value that the counter then
/// holds, so the same is true of every subscription that follows, on
/// whichever bus it is made.
pub proof fn lemma_one_counter_for_two_buses<F: ?Sized, G: ?Sized>(
    subscribing: Seq<Handler<F>>,
    other: Seq<Handler<G>>,
    counter: u64,
    event: EventDiscriminants,
    callback: Arc<F>,
)
    requires
        ids_increase(subscribing, counter),
        ids_increase(other, counter),
        FIRST_ID <= counter < u64::MAX,
    ensures
        forall|i: int| 0 <= i < subscribing.len() ==> (#[trigger] subscribing[i]).id < counter,
        forall|i: int| 0 <= i < other.len() ==> (#[trigger] other[i]).id < counter,
        ids_increase(
            subscribing.push(Handler { event, id: counter, callback }),
            (counter + 1) as u64,
        ),
        ids_increase(other, (counter + 1) as u64),
{
    let added = Handler { event, id: counter, callback };
    let longer = subscribing.push(added);
    assert forall|i: int, j: int| 0 <= i < j < longer.len() implies (#[trigger] longer[i]).id < (
    #[trigger] longer[j]).id by {
        assert(longer[i] == subscribing[i]);
        if j < subscribing.len() {
            assert(longer[j] == subscribing[j]);
        }
    }
    assert forall|i: int| 0 <= i < longer.len() implies FIRST_ID <= (#[trigger] longer[i]).id
        < counter + 1 by {
        if i < subscribing.len() {
            assert(longer[i] == subscribing[i]);
        }
    }
}

/// Removing a handler that is not subscribed changes nothing.
pub proof fn lemma_unsubscribe_absent<F: ?Sized>(
    subscriptions: Seq<Handler<F>>,
    event: EventDiscriminants,
    id: u64,
)
    requires
        !is_subscribed(subscriptions, event, id),
    ensures
        without_handler(subscriptions, event, id) == subscriptions,
    decreases subscriptions.len(),
{
    reveal(Seq::filter);
    if subscriptions.len() > 0 {
        let rest = subscriptions.drop_last();
        assert forall|i: int| 0 <= i < rest.len() implies !((#[trigger] rest[i]).event == event
            && rest[i].id == id) by {
            assert(subscriptions[i] == rest[i]);
        }
        lemma_unsubscribe_absent(rest, event, id);
        assert(subscriptions[subscriptions.len() - 1] == subscriptions.last());
        assert(rest.push(subscriptions.last()) == subscriptions);
    }
}

/// Removing a handler keeps the identifiers of the others in strictly
/// increasing order and below the next identifier, and what is left was
/// subscribed before.
pub proof fn lemma_unsubscribe_keeps_order<F: ?Sized>(
    subscriptions: Seq<Handler<F>>,
    event: EventDiscriminants,
    id: u64,
    next_id: u64,
)
    requires
        ids_increase(subscriptions, next_id),
    ensures
        ids_increase(without_handler(subscriptions, event, id), next_id),
        forall|i: int|
            0 <= i < without_handler(subscriptions, event, id).len()
                ==> subscriptions.contains(
                #[trigger] without_handler(subscriptions, event, id)[i],
            ),
    decreases subscriptions.len(),
{
    reveal(Seq::filter);
    if subscriptions.len() > 0 {
        let rest = subscriptions.drop_last();
        lemma_earlier_ids_increase(subscriptions, next_id);
        lemma_unsubscribe_keeps_order(rest, event, id, next_id);
        let kept = without_handler(rest, event, id);
        let all = without_handler(subscriptions, event, id);
        assert forall|i: int| 0 <= i < all.len() implies subscriptions.contains(
            #[trigger] all[i],
        ) by {
            if i < kept.len() {
                assert(all[i] == kept[i]);
                let k = choose|k: int| 0 <= k < rest.len() && rest[k] == kept[i];
                assert(subscriptions[k] == all[i]);
            } else {
                assert(subscriptions[subscriptions.len() - 1] == all[i]);
            }
        }
        assert forall|i: int, j: int| 0 <= i < j < all.len() implies (#[trigger] all[i]).id
            < (#[trigger] all[j]).id by {
            if j < kept.len() {
                assert(all[i] == kept[i] && all[j] == kept[j]);
            } else {
                assert(all[i] == kept[i]);
                let k = choose|k: int| 0 <= k < rest.len() && rest[k] == kept[i];
                assert(subscriptions[k] == rest[k]);
                assert(subscriptions[subscriptions.len() - 1] == all[j]);
            }
        }
        assert forall|i: int| 0 <= i < all.len() implies 1 <= (#[trigger] all[i]).id
            < next_id by {
            let k = choose|k: int| 0 <= k < subscriptions.len() && subscriptions[k] == all[i];
            assert(1 <= subscriptions[k].id < next_id);
        }
    }
}

/// With identifiers in strictly increasing order, removing a subscribed
/// handler removes exactly one subscription.
pub proof fn lemma_unsubscribe_removes_one<F: ?Sized>(
    subscriptions: Seq<Handler<F>>,
    event: EventDiscriminants,
    id: u64,
    next_id: u64,
)
    requires
        ids_increase(subscriptions, next_id),
        is_subscribed(subscriptions, event, id),
    ensures
        without_handler(subscriptions, event, id).len() + 1 == subscriptions.len(),
        !is_subscribed(without_handler(subscriptions, event, id), event, id),
    decreases subscriptions.len(),
{
    reveal(Seq::filter);
    let rest = subscriptions.drop_last();
    let last = subscriptions.last();
    let at = choose|i: int|
        0 <= i < subscriptions.len() && (#[trigger] subscriptions[i]).event == event
            && subscriptions[i].id == id;
    lemma_earlier_ids_increase(subscriptions, next_id);
    if last.event == event && last.id == id {
        assert(!is_subscribed(rest, event, id)) by {
            if is_subscribed(rest, event, id) {
                let k = choose|k: int|
                    0 <= k < rest.len() && (#[trigger] rest[k]).event == event && rest[k].id
                        == id;
                assert(subscriptions[k] == rest[k]);
                assert(subscriptions[k].id < subscriptions[subscriptions.len() - 1].id);
            }
        }
        lemma_unsubscribe_absent(rest, event, id);
    } else {
        assert(at < rest.len());
        assert(rest[at] == subscriptions[at]);
        lemma_unsubscribe_removes_one(rest, event, id, next_id);
        let kept = without_handler(rest, event, id);
        let all = without_handler(subscriptions, event, id);
        assert(all == kept.push(last));
        assert forall|i: int| 0 <= i < all.len() implies !((#[trigger] all[i]).event == event
            && all[i].id == id) by {
            if i < kept.len() {
                assert(all[i] == kept[i]);
            }
        }
    }
}

/// Removing a handler of one kind leaves the handlers of every other kind as
/// they were, and takes from the handlers of its own kind the one with its
/// identifier.
pub proof fn lemma_unsubscribe_by_kind<F: ?Sized>(
    subscriptions: Seq<Handler<F>>,
    event: EventDiscriminants,
    id: u64,
    other: EventDiscriminants,
)
    ensures
        other != event ==> handlers_for(without_handler(subscriptions, event, id), other)
            == handlers_for(subscriptions, other),
        handlers_for(without_handler(subscriptions, event, id), event) == handlers_for(
            subscriptions,
            event,
        ).filter(|h: Handler<F>| h.id != id),
    decreases subscriptions.len(),
{
    reveal(Seq::filter);
    if subscriptions.len() > 0 {
        let rest = subscriptions.drop_last();
        let last = subscriptions.last();
        lemma_unsubscribe_by_kind(rest, event, id, other);
        let kept = without_handler(rest, event, id);
        if !(last.event == event && last.id == id) {
            assert(kept.push(last).drop_last() == kept);
        }
        if last.event == event {
            let of_kind = handlers_for(rest, event);
            assert(of_kind.push(last).drop_last() == of_kind);
        }
    }
}

/// Two handlers subscribed one after the other to the same kind stand, in
/// that order, behind the handlers that the kind had before; once the first
/// of the two is removed, only the second stands there. The two identifiers
/// are any two that a counter can give one after the other: the first not
/// below the bus's bound, the second larger than the first.
pub proof fn lemma_subscribe_twice_then_unsubscribe<F: ?Sized>(
    subscriptions: Seq<Handler<F>>,
    next_id: u64,
    event: EventDiscriminants,
    first_id: u64,
    first: Arc<F>,
    second_id: u64,
    second: Arc<F>,
)
    requires
        ids_increase(subscriptions, next_id),
        next_id <= first_id < second_id,
    ensures
        ({
            let one = Handler { event, id: first_id, callback: first };
            let two = Handler { event, id: second_id, callback: second };
            let both = subscriptions.push(one).push(two);
            &&& handlers_for(both, event) == handlers_for(subscriptions, event).push(one).push(
                two,
            )
            &&& handlers_for(without_handler(both, event, first_id), event) == handlers_for(
                subscriptions,
                event,
            ).push(two)
        }),
{
    reveal(Seq::filter);
    let one = Handler { event, id: first_id, callback: first };
    let two = Handler { event, id: second_id, callback: second };
    let with_one = subscriptions.push(one);
    let both = with_one.push(two);
    let left = subscriptions.push(two);
    assert(with_one.drop_last() == subscriptions);
    assert(both.drop_last() == with_one);
    assert(left.drop_last() == subscriptions);
    assert(handlers_for(with_one, event) == handlers_for(subscriptions, event).push(one));
    assert(handlers_for(both, event) == handlers_for(with_one, event).push(two));
    assert(handlers_for(left, event) == handlers_for(subscriptions, event).push(two));
    assert(!is_subscribed(subscriptions, event, first_id));
    lemma_unsubscribe_absent(subscriptions, event, first_id);
    assert(without_handler(with_one, event, first_id) == subscriptions);
    assert(without_handler(both, event, first_id) == left);
}

} // verus!
