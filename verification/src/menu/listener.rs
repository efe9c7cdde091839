use vstd::prelude::*;
use std::sync::Arc;

use crate::menu::event::MenuEvent;

verus! {

/// A registered callback. The closure is user code: Verus sees neither its
/// body nor its effects, so the type is opaque and carries no invariant.
#[verifier::external_body]
pub struct MenuEventListener {
    callback: Arc<dyn Fn(&MenuEvent) + Send + Sync>,
}

/// A record that `listener` was called once with an event whose id is
/// `event_id`. Only `MenuEventListener::deliver` makes one, right after the
/// call it records.
pub struct Delivery {
    listener: MenuEventListener,
    event_id: Seq<char>,
}

impl Delivery {
    pub closed spec fn listener(self) -> MenuEventListener {
        self.listener
    }

    pub closed spec fn event_id(self) -> Seq<char> {
        self.event_id
    }
}

impl MenuEventListener {
    /// Shares `listener` behind an `Arc` (std's `Arc::new` with the unsizing
    /// coercion to a trait object, which Verus cannot express). Nothing is
    /// claimed of the result: the closure is user code.
    #[verifier::external_body]
    pub(crate) fn share<F: Fn(&MenuEvent) + Send + Sync + 'static>(listener: F) -> MenuEventListener {
        MenuEventListener { callback: Arc::new(listener) }
    }

    /// Calls the shared closure once with `event` (a call of user code through
    /// the `Fn` trait object). Nothing is claimed of what the closure does.
    #[verifier::external_body]
    fn notify(&self, event: &MenuEvent) {
        (self.callback)(event)
    }

    /// Calls this listener once with `event` and returns the record of it.
    pub(crate) fn deliver(&self, event: &MenuEvent) -> (d: Ghost<Delivery>)
        ensures
            d@.listener() == *self,
            d@.event_id() == event.id@,
    {
        self.notify(event);
        Ghost(Delivery { listener: *self, event_id: event.id@ })
    }
}

} // verus!
