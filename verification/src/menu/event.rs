use vstd::prelude::*;

use crate::menu::listener::{Delivery, MenuEventListener};

verus! {

/// A menu event: the id of the item that was activated.
pub struct MenuEvent {
    pub id: String,
}

impl MenuEvent {
    pub fn new(id: String) -> (event: MenuEvent)
        ensures
            event.id == id,
    {
        MenuEvent { id }
    }

    pub fn id(&self) -> (id: &str)
        ensures
            id@ == self.id@,
    {
        self.id.as_str()
    }
}

/// `trace` records one call of each of `listeners`, in their order, each
/// with an event whose id is `event_id`.
pub open spec fn delivered_in_order(
    listeners: Seq<MenuEventListener>,
    event_id: Seq<char>,
    trace: Seq<Delivery>,
) -> bool {
    &&& trace.len() == listeners.len()
    &&& forall|i: int|
        0 <= i < trace.len() ==> (#[trigger] trace[i]).listener() == listeners[i]
            && trace[i].event_id() == event_id
}

/// Keeps listeners in registration order and calls each of them on dispatch.
pub struct MenuEventDispatcher {
    listeners: Vec<MenuEventListener>,
}

impl View for MenuEventDispatcher {
    type V = Seq<MenuEventListener>;

    closed spec fn view(&self) -> Seq<MenuEventListener> {
        self.listeners@
    }
}

impl MenuEventDispatcher {
    pub fn new() -> (d: MenuEventDispatcher)
        ensures
            d@ == Seq::<MenuEventListener>::empty(),
    {
        MenuEventDispatcher { listeners: Vec::new() }
    }

    /// Registers `listener` after every listener registered so far.
    pub fn add_listener<F: Fn(&MenuEvent) + Send + Sync + 'static>(&mut self, listener: F)
        ensures
            final(self)@.len() == old(self)@.len() + 1,
            final(self)@.drop_last() == old(self)@,
    {
        let shared = MenuEventListener::share(listener);
        self.listeners.push(shared);
    }

    /// Calls every registered listener once with `event`, in registration
    /// order; the ghost result records the calls in the order they were made.
    pub fn dispatch(&self, event: &MenuEvent) -> (deliveries: Ghost<Seq<Delivery>>)
        ensures
            delivered_in_order(self@, event.id@, deliveries@),
    {
        let n = self.listeners.len();
        let mut i: usize = 0;
        let ghost mut trace: Seq<Delivery> = Seq::empty();
        while i < n
            invariant
                i <= n,
                n == self@.len(),
                delivered_in_order(self@.subrange(0, i as int), event.id@, trace),
            decreases n - i,
        {
            let d = self.listeners[i].deliver(event);
            proof {
                trace = trace.push(d@);
                assert(self@.subrange(0, i + 1).drop_last() =~= self@.subrange(0, i as int));
            }
            i = i + 1;
        }
        proof {
            assert(self@.subrange(0, n as int) =~= self@);
        }
        Ghost(trace)
    }
}

/// A listener added after the others is called last when an event is
/// dispatched, and the listeners registered before it are called exactly as
/// they were before it was added: once each, in their order, with the event.
pub proof fn lemma_added_listener_called_last(
    before: Seq<MenuEventListener>,
    after: Seq<MenuEventListener>,
    event_id: Seq<char>,
    trace: Seq<Delivery>,
)
    requires
        after.len() == before.len() + 1,
        after.drop_last() == before,
        delivered_in_order(after, event_id, trace),
    ensures
        trace.len() == before.len() + 1,
        trace.last().listener() == after.last(),
        trace.last().event_id() == event_id,
        delivered_in_order(before, event_id, trace.drop_last()),
{
    assert forall|i: int| 0 <= i < trace.drop_last().len() implies (#[trigger] trace.drop_last()[i]).listener()
        == before[i] && trace.drop_last()[i].event_id() == event_id by {
        assert(trace.drop_last()[i] == trace[i]);
        assert(after[i] == before[i]);
    }
}

/// Every listener that a dispatch calls receives the very event that was
/// dispatched, and the `i`-th call goes to the `i`-th registered listener.
pub proof fn lemma_dispatch_passes_the_event(
    listeners: Seq<MenuEventListener>,
    event_id: Seq<char>,
    trace: Seq<Delivery>,
    i: int,
)
    requires
        delivered_in_order(listeners, event_id, trace),
        0 <= i < listeners.len(),
    ensures
        trace[i].event_id() == event_id,
        trace[i].listener() == listeners[i],
        trace.len() == listeners.len(),
{
}

impl Default for MenuEventDispatcher {
    fn default() -> (d: MenuEventDispatcher)
        ensures
            d@ == Seq::<MenuEventListener>::empty(),
    {
        MenuEventDispatcher::new()
    }
}

} // verus!
