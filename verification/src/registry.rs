use vstd::prelude::*;

verus! {

/// The plugin's record of what it has asked the host's event system to do:
/// the names of the events for which a handler has been subscribed, in the
/// order the subscriptions were made. The host's real event system lives
/// outside this library; lifecycle code is verified against this record.
pub struct EventRegistry {
    subscriptions: Vec<String>,
}

impl View for EventRegistry {
    type V = Seq<Seq<char>>;

    closed spec fn view(&self) -> Seq<Seq<char>> {
        self.subscriptions@.map_values(|s: String| s@)
    }
}

impl EventRegistry {
    /// A registry with no subscriptions, as a freshly loaded plugin sees it.
    pub fn new() -> (registry: Self)
        ensures
            registry@ == Seq::<Seq<char>>::empty(),
    {
        let registry = EventRegistry { subscriptions: Vec::new() };
        proof {
            assert(registry@ =~= Seq::<Seq<char>>::empty());
        }
        registry
    }

    /// Records a subscription for the event with the given name.
    pub fn subscribe(&mut self, event: String)
        ensures
            final(self)@ == old(self)@.push(event@),
    {
        let ghost before = self.subscriptions@;
        self.subscriptions.push(event);
        proof {
            assert(self@ =~= before.map_values(|s: String| s@).push(event@));
        }
    }

    /// How many subscriptions have been made so far.
    pub fn subscription_count(&self) -> (count: usize)
        ensures
            count == self@.len(),
    {
        self.subscriptions.len()
    }
}

} // verus!
