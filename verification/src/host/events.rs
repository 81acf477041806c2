//! Events about plugin commands that the host publishes to its subscribers.
use vstd::prelude::*;

verus! {

/// A change to the commands of a plugin, or to the plugin itself.
#[derive(Clone, Debug)]
pub enum PluginEvent {
    /// Commands were added: plugin id, command record ids.
    CommandsAdded(String, Vec<String>),
    /// Commands were removed: plugin id, command record ids.
    CommandsRemoved(String, Vec<String>),
    /// Commands were updated: plugin id, command record ids.
    CommandsUpdated(String, Vec<String>),
    /// The runtime commands of a plugin were replaced: plugin id, how many
    /// were given.
    CommandsReplaced(String, usize),
    PluginReloadStarted(String),
    PluginReloadFinished(String),
}

/// Something that reacts to plugin events.
pub trait PluginEventHandler {
    fn handle(&self, event: &PluginEvent);
}

/// The subscribers to plugin events, told of each event in the order they
/// subscribed.
pub struct PluginEventBus<H> {
    handlers: Vec<H>,
}

impl<H: PluginEventHandler> PluginEventBus<H> {
    /// How many subscribers there are.
    pub closed spec fn subscribers(&self) -> nat {
        self.handlers@.len()
    }

    /// The subscribers, in the order they subscribed.
    pub closed spec fn handler_seq(&self) -> Seq<H> {
        self.handlers@
    }

    pub fn new() -> (b: Self)
        ensures
            b.subscribers() == 0,
            b.handler_seq() == Seq::<H>::empty(),
    {
        PluginEventBus { handlers: Vec::new() }
    }

    /// Adds a subscriber after the others.
    pub fn subscribe(&mut self, handler: H)
        ensures
            final(self).subscribers() == old(self).subscribers() + 1,
            final(self).handler_seq() == old(self).handler_seq().push(handler),
    {
        self.handlers.push(handler);
    }

    /// Tells every subscriber of the event, in order: each subscriber's
    /// `handle` is called with the event (how many times and in which order
    /// is not stated).
    pub fn emit(&self, event: PluginEvent)
        ensures
            forall|j: int|
                0 <= j < self.handler_seq().len() ==> call_ensures(
                    H::handle,
                    (&#[trigger] self.handler_seq()[j], &event),
                    (),
                ),
    {
        let mut i: usize = 0;
        while i < self.handlers.len()
            invariant
                i <= self.handlers@.len(),
                forall|j: int|
                    0 <= j < i ==> call_ensures(
                        H::handle,
                        (&#[trigger] self.handler_seq()[j], &event),
                        (),
                    ),
            decreases self.handlers.len() - i,
        {
            self.handlers[i].handle(&event);
            i = i + 1;
        }
    }
}

} // verus!
