//! The pending operation table: for every operation awaiting its
//! acknowledgment, the identifier it was sent under and its context.

use vstd::prelude::*;
use std::collections::HashMap;

verus! {

broadcast use vstd::std_specs::hash::group_hash_axioms;

/// The operations awaiting acknowledgment, keyed by identifier.
pub struct PendingTable {
    subscribe: HashMap<u16, (String, u8)>,
    unsubscribe: HashMap<u16, String>,
    publish: HashMap<u16, (String, bool)>,
}

/// The table as three mathematical maps: a pending subscribe holds its topic
/// and requested level, a pending unsubscribe its topic, and a pending
/// publish its topic and whether a completion round-trip is still owed.
pub struct PendingView {
    pub subscribe: Map<u16, (Seq<char>, u8)>,
    pub unsubscribe: Map<u16, Seq<char>>,
    pub publish: Map<u16, (Seq<char>, bool)>,
}

impl PendingView {
    /// The table with no operation pending.
    pub open spec fn empty() -> PendingView {
        PendingView { subscribe: Map::empty(), unsubscribe: Map::empty(), publish: Map::empty() }
    }

    /// Whether an operation is pending under `id`.
    pub open spec fn is_pending(self, id: u16) -> bool {
        self.subscribe.contains_key(id) || self.unsubscribe.contains_key(id)
            || self.publish.contains_key(id)
    }

    /// Whether no identifier is held by two pending operations.
    pub open spec fn distinct(self) -> bool {
        &&& forall|id: u16| #[trigger]
            self.subscribe.contains_key(id) ==> !self.unsubscribe.contains_key(id)
                && !self.publish.contains_key(id)
        &&& forall|id: u16| #[trigger]
            self.unsubscribe.contains_key(id) ==> !self.publish.contains_key(id)
    }

    pub open spec fn with_subscribe(self, id: u16, topic: Seq<char>, qos: u8) -> PendingView {
        PendingView { subscribe: self.subscribe.insert(id, (topic, qos)), ..self }
    }

    pub open spec fn without_subscribe(self, id: u16) -> PendingView {
        PendingView { subscribe: self.subscribe.remove(id), ..self }
    }

    pub open spec fn with_unsubscribe(self, id: u16, topic: Seq<char>) -> PendingView {
        PendingView { unsubscribe: self.unsubscribe.insert(id, topic), ..self }
    }

    pub open spec fn without_unsubscribe(self, id: u16) -> PendingView {
        PendingView { unsubscribe: self.unsubscribe.remove(id), ..self }
    }

    pub open spec fn with_publish(self, id: u16, topic: Seq<char>, two_phase: bool) -> PendingView {
        PendingView { publish: self.publish.insert(id, (topic, two_phase)), ..self }
    }

    pub open spec fn without_publish(self, id: u16) -> PendingView {
        PendingView { publish: self.publish.remove(id), ..self }
    }

    /// Whether a publish is pending under `id` that still owes its
    /// completion round-trip.
    pub open spec fn awaits_completion(self, id: u16) -> bool {
        self.publish.contains_key(id) && self.publish[id].1
    }
}

pub open spec fn subscribe_view(m: Map<u16, (String, u8)>) -> Map<u16, (Seq<char>, u8)> {
    Map::new(|id: u16| m.contains_key(id), |id: u16| (m[id].0@, m[id].1))
}

pub open spec fn unsubscribe_view(m: Map<u16, String>) -> Map<u16, Seq<char>> {
    Map::new(|id: u16| m.contains_key(id), |id: u16| m[id]@)
}

pub open spec fn publish_view(m: Map<u16, (String, bool)>) -> Map<u16, (Seq<char>, bool)> {
    Map::new(|id: u16| m.contains_key(id), |id: u16| (m[id].0@, m[id].1))
}

impl View for PendingTable {
    type V = PendingView;

    closed spec fn view(&self) -> PendingView {
        PendingView {
            subscribe: subscribe_view(self.subscribe@),
            unsubscribe: unsubscribe_view(self.unsubscribe@),
            publish: publish_view(self.publish@),
        }
    }
}

impl PendingTable {
    /// Creates a table with no operation pending.
    pub fn new() -> (table: PendingTable)
        ensures
            table@ == PendingView::empty(),
    {
        let table = PendingTable {
            subscribe: HashMap::new(),
            unsubscribe: HashMap::new(),
            publish: HashMap::new(),
        };
        assert(table@.subscribe =~= Map::empty());
        assert(table@.unsubscribe =~= Map::empty());
        assert(table@.publish =~= Map::empty());
        table
    }

    /// Records a subscribe sent under `id`, replacing an earlier one under
    /// the same identifier.
    pub fn register_subscribe(&mut self, id: u16, topic: String, qos: u8)
        ensures
            final(self)@ == old(self)@.with_subscribe(id, topic@, qos),
    {
        self.subscribe.insert(id, (topic, qos));
        assert(self@.subscribe =~= old(self)@.subscribe.insert(id, (topic@, qos)));
    }

    /// Records an unsubscribe sent under `id`.
    pub fn register_unsubscribe(&mut self, id: u16, topic: String)
        ensures
            final(self)@ == old(self)@.with_unsubscribe(id, topic@),
    {
        self.unsubscribe.insert(id, topic);
        assert(self@.unsubscribe =~= old(self)@.unsubscribe.insert(id, topic@));
    }

    /// Records a publish sent under `id`; `two_phase` says that its
    /// receipt must still be followed by a completion.
    pub fn register_publish(&mut self, id: u16, topic: String, two_phase: bool)
        ensures
            final(self)@ == old(self)@.with_publish(id, topic@, two_phase),
    {
        self.publish.insert(id, (topic, two_phase));
        assert(self@.publish =~= old(self)@.publish.insert(id, (topic@, two_phase)));
    }

    /// Removes and returns the subscribe pending under `id`, if there is
    /// one.
    pub fn take_subscribe(&mut self, id: u16) -> (entry: Option<(String, u8)>)
        ensures
            match entry {
                Some((topic, qos)) => old(self)@.subscribe.contains_key(id) && (topic@, qos) == old(
                    self,
                )@.subscribe[id] && final(self)@ == old(self)@.without_subscribe(id),
                None => !old(self)@.subscribe.contains_key(id) && final(self)@ == old(self)@,
            },
    {
        let entry = self.subscribe.remove(&id);
        assert(self@.subscribe =~= old(self)@.subscribe.remove(id));
        proof {
            if entry is None {
                assert(self@.subscribe =~= old(self)@.subscribe);
            }
        }
        entry
    }

    /// Removes and returns the topic of the unsubscribe pending under `id`,
    /// if there is one.
    pub fn take_unsubscribe(&mut self, id: u16) -> (entry: Option<String>)
        ensures
            match entry {
                Some(topic) => old(self)@.unsubscribe.contains_key(id) && topic@ == old(
                    self,
                )@.unsubscribe[id] && final(self)@ == old(self)@.without_unsubscribe(id),
                None => !old(self)@.unsubscribe.contains_key(id) && final(self)@ == old(self)@,
            },
    {
        let entry = self.unsubscribe.remove(&id);
        assert(self@.unsubscribe =~= old(self)@.unsubscribe.remove(id));
        proof {
            if entry is None {
                assert(self@.unsubscribe =~= old(self)@.unsubscribe);
            }
        }
        entry
    }

    /// Removes and returns the publish pending under `id`, if there is one.
    pub fn take_publish(&mut self, id: u16) -> (entry: Option<(String, bool)>)
        ensures
            match entry {
                Some((topic, two_phase)) => old(self)@.publish.contains_key(id) && (
                    topic@,
                    two_phase,
                ) == old(self)@.publish[id] && final(self)@ == old(self)@.without_publish(id),
                None => !old(self)@.publish.contains_key(id) && final(self)@ == old(self)@,
            },
    {
        let entry = self.publish.remove(&id);
        assert(self@.publish =~= old(self)@.publish.remove(id));
        proof {
            if entry is None {
                assert(self@.publish =~= old(self)@.publish);
            }
        }
        entry
    }

    /// Whether a publish pending under `id` still owes its completion
    /// round-trip.
    pub fn awaits_completion(&self, id: u16) -> (waiting: bool)
        ensures
            waiting == self@.awaits_completion(id),
    {
        match self.publish.get(&id) {
            Some(entry) => entry.1,
            None => false,
        }
    }

    /// Whether an operation is pending under `id`.
    pub fn is_pending(&self, id: u16) -> (pending: bool)
        ensures
            pending == self@.is_pending(id),
    {
        self.subscribe.contains_key(&id) || self.unsubscribe.contains_key(&id)
            || self.publish.contains_key(&id)
    }
}

} // verus!
