//! The consumer's picture of one session, kept up to date from the event
//! stream: status line, last diagnostic, subscription registry, the most
//! recent messages and the running totals.

use vstd::prelude::*;
use vstd::string::*;
use std::collections::VecDeque;
use std::time::SystemTime;
use crate::ipc::{ClientEvent, EventView};
use crate::login::{ReceivedMessage, SubscriptionEntry};
use crate::text::{
    contains_text, decimal, decimal_string, has_text, join2, join3, trim, trimmed,
};

verus! {

/// Most messages kept for one session; older ones are dropped first.
pub const MAX_STORED_MESSAGES: usize = 1000;

/// What the consumer knows of one session.
pub struct ClientState {
    pub connection_status: String,
    pub last_error: Option<String>,
    pub subscriptions: Vec<SubscriptionEntry>,
    pub messages: VecDeque<ReceivedMessage>,
    pub received_count: u64,
    pub published_count: u64,
}

/// A stored message in mathematical values.
pub struct MessageView {
    pub timestamp: SystemTime,
    pub topic: Seq<char>,
    pub qos: u8,
    pub retain: bool,
    pub payload: Seq<u8>,
}

impl View for ReceivedMessage {
    type V = MessageView;

    open spec fn view(&self) -> MessageView {
        MessageView {
            timestamp: self.timestamp,
            topic: self.topic@,
            qos: self.qos,
            retain: self.retain,
            payload: self.payload@,
        }
    }
}

/// The consumer's picture in mathematical values. The registry is the
/// sequence of its entries, each a topic with its granted level.
pub struct StateView {
    pub connection_status: Seq<char>,
    pub last_error: Option<Seq<char>>,
    pub subscriptions: Seq<(Seq<char>, u8)>,
    pub messages: Seq<MessageView>,
    pub received_count: u64,
    pub published_count: u64,
}

/// The registry entries as topic and level.
pub open spec fn registry_view(entries: Seq<SubscriptionEntry>) -> Seq<(Seq<char>, u8)> {
    entries.map_values(|e: SubscriptionEntry| (e.topic@, e.qos))
}

/// The stored messages in mathematical values.
pub open spec fn messages_view(messages: Seq<ReceivedMessage>) -> Seq<MessageView> {
    messages.map_values(|m: ReceivedMessage| m@)
}

/// A text that may be absent, as a sequence.
pub open spec fn text_view(text: Option<String>) -> Option<Seq<char>> {
    match text {
        Some(t) => Some(t@),
        None => None,
    }
}

impl View for ClientState {
    type V = StateView;

    open spec fn view(&self) -> StateView {
        StateView {
            connection_status: self.connection_status@,
            last_error: text_view(self.last_error),
            subscriptions: registry_view(self.subscriptions@),
            messages: messages_view(self.messages@),
            received_count: self.received_count,
            published_count: self.published_count,
        }
    }
}

/// The position of the first entry for `topic`, or the registry's length
/// where there is none.
pub open spec fn position_of(registry: Seq<(Seq<char>, u8)>, topic: Seq<char>) -> int
    decreases registry.len(),
{
    if registry.len() == 0 {
        0
    } else if registry[0].0 == topic {
        0
    } else {
        1 + position_of(registry.drop_first(), topic)
    }
}

/// The level the registry holds for `topic`, if it holds one.
pub open spec fn granted(registry: Seq<(Seq<char>, u8)>, topic: Seq<char>) -> Option<u8> {
    let at = position_of(registry, topic);
    if at < registry.len() {
        Some(registry[at].1)
    } else {
        None
    }
}

/// Whether no topic has two entries.
pub open spec fn distinct_topics(registry: Seq<(Seq<char>, u8)>) -> bool {
    forall|i: int, j: int|
        0 <= i < j < registry.len() ==> (#[trigger] registry[i]).0 != (#[trigger] registry[j]).0
}

/// The registry after a subscription to `topic` was granted at `qos`: the
/// first entry for the topic takes the new level, or a new entry is added
/// at the end.
pub open spec fn merged(registry: Seq<(Seq<char>, u8)>, topic: Seq<char>, qos: u8) -> Seq<
    (Seq<char>, u8),
> {
    let at = position_of(registry, topic);
    if at < registry.len() {
        registry.update(at, (topic, qos))
    } else {
        registry.push((topic, qos))
    }
}

/// The registry without the entries for `topic`.
pub open spec fn without_topic(registry: Seq<(Seq<char>, u8)>, topic: Seq<char>) -> Seq<
    (Seq<char>, u8),
> {
    registry.filter(|e: (Seq<char>, u8)| e.0 != topic)
}

/// The stored messages after `message` arrived: it goes last, and only the
/// most recent `MAX_STORED_MESSAGES` stay.
pub open spec fn stored(messages: Seq<MessageView>, message: MessageView) -> Seq<MessageView> {
    let all = messages.push(message);
    if all.len() > MAX_STORED_MESSAGES {
        all.subrange(all.len() - MAX_STORED_MESSAGES, all.len() as int)
    } else {
        all
    }
}

/// Whether a message under `topic` passes the filter entered: a blank
/// filter lets every message pass, any other only those whose topic holds
/// the filter, surrounding whitespace removed, as one piece.
pub open spec fn passes(topic: Seq<char>, filter: Seq<char>) -> bool {
    trimmed(filter).len() == 0 || contains_text(topic, trimmed(filter))
}

/// The positions of the messages to show: those that pass the filter,
/// newest first, and no more than `max`.
pub open spec fn shown(messages: Seq<MessageView>, filter: Seq<char>, max: nat) -> Seq<int>
    decreases messages.len(),
{
    if messages.len() == 0 || max == 0 {
        Seq::empty()
    } else if passes(messages.last().topic, filter) {
        seq![messages.len() - 1] + shown(messages.drop_last(), filter, (max - 1) as nat)
    } else {
        shown(messages.drop_last(), filter, max)
    }
}

/// Positions as mathematical integers.
pub open spec fn positions(rows: Seq<usize>) -> Seq<int> {
    rows.map_values(|row: usize| row as int)
}

/// The status line after a publish completed.
pub open spec fn published_status(topic: Seq<char>, packet_id: Option<u16>) -> Seq<char> {
    match packet_id {
        Some(id) => "Published to '"@ + topic + "' (packet id "@ + decimal(id as nat) + ")"@,
        None => "Published to '"@ + topic + "'"@,
    }
}

impl StateView {
    /// The picture after `event`, a message being stamped with `now`.
    pub open spec fn after(self, event: EventView, now: SystemTime) -> StateView {
        match event {
            EventView::Status(text) => StateView { connection_status: text, ..self },
            EventView::Error(text) => StateView { last_error: Some(text), ..self },
            EventView::Connected => StateView {
                connection_status: "Connected"@,
                last_error: None,
                ..self
            },
            EventView::Disconnected(reason) => StateView {
                connection_status: "Disconnected"@,
                last_error: Some(reason),
                ..self
            },
            EventView::Subscribed { topic, qos, details } => StateView {
                connection_status: "Subscribed to '"@ + topic + "'"@,
                last_error: Some("SUBACK: "@ + details),
                subscriptions: merged(self.subscriptions, topic, qos),
                ..self
            },
            EventView::Unsubscribed { topic, details } => StateView {
                connection_status: "Unsubscribed from '"@ + topic + "'"@,
                last_error: Some("UNSUBACK: "@ + details),
                subscriptions: without_topic(self.subscriptions, topic),
                ..self
            },
            EventView::Published { topic, packet_id } => StateView {
                connection_status: published_status(topic, packet_id),
                published_count: (self.published_count + 1) as u64,
                ..self
            },
            EventView::MessageReceived { topic, qos, retain, payload } => StateView {
                messages: stored(
                    self.messages,
                    MessageView { timestamp: now, topic, qos, retain, payload },
                ),
                received_count: (self.received_count + 1) as u64,
                ..self
            },
        }
    }
}

/// `position_of` finds the first entry for the topic and nothing before it.
pub proof fn lemma_position_of(registry: Seq<(Seq<char>, u8)>, topic: Seq<char>)
    ensures
        0 <= position_of(registry, topic) <= registry.len(),
        forall|i: int|
            0 <= i < position_of(registry, topic) ==> (#[trigger] registry[i]).0 != topic,
        position_of(registry, topic) < registry.len() ==> registry[position_of(registry, topic)].0
            == topic,
    decreases registry.len(),
{
    if registry.len() > 0 && registry[0].0 != topic {
        let rest = registry.drop_first();
        lemma_position_of(rest, topic);
        assert forall|i: int| 0 <= i < position_of(registry, topic) implies (
        #[trigger] registry[i]).0 != topic by {
            if i > 0 {
                assert(registry[i] == rest[i - 1]);
            }
        }
        if position_of(registry, topic) < registry.len() {
            assert(registry[position_of(registry, topic)] == rest[position_of(rest, topic)]);
        }
    }
}

/// An index whose entry is for the topic, with none before it, is the
/// position of the topic.
pub proof fn lemma_position_is(registry: Seq<(Seq<char>, u8)>, topic: Seq<char>, at: int)
    requires
        0 <= at <= registry.len(),
        forall|i: int| 0 <= i < at ==> (#[trigger] registry[i]).0 != topic,
        at < registry.len() ==> registry[at].0 == topic,
    ensures
        position_of(registry, topic) == at,
{
    lemma_position_of(registry, topic);
    let found = position_of(registry, topic);
    if found < at {
        assert(registry[found].0 != topic);
    } else if at < found {
        assert(registry[at].0 != topic);
    }
}

impl StateView {
    /// The picture while the session is being started again.
    pub open spec fn reconnecting(self) -> StateView {
        StateView { connection_status: "Reconnecting..."@, last_error: None, ..self }
    }

    /// The picture once commands can no longer reach the session.
    pub open spec fn unreachable(self) -> StateView {
        StateView {
            connection_status: "Client task is not available"@,
            last_error: Some("Command channel is closed"@),
            ..self
        }
    }

    /// The picture without its stored messages.
    pub open spec fn cleared(self) -> StateView {
        StateView { messages: Seq::empty(), ..self }
    }
}

impl ClientState {
    /// Marks the session as being started again.
    pub fn mark_reconnecting(&mut self)
        ensures
            final(self)@ == old(self)@.reconnecting(),
    {
        self.connection_status = String::from_str("Reconnecting...");
        self.last_error = None;
    }

    /// Records that a command could not be handed to the session because
    /// its worker is gone.
    pub fn mark_unreachable(&mut self)
        ensures
            final(self)@ == old(self)@.unreachable(),
    {
        self.connection_status = String::from_str("Client task is not available");
        self.last_error = Some(String::from_str("Command channel is closed"));
    }

    /// Drops the stored messages.
    pub fn clear_messages(&mut self)
        ensures
            final(self)@ == old(self)@.cleared(),
    {
        self.messages.clear();
        assert(self@.messages =~= Seq::empty());
    }

    /// The picture of a session that has reported nothing yet.
    pub fn new(connection_status: String) -> (state: ClientState)
        ensures
            state@ == (StateView {
                connection_status: connection_status@,
                last_error: None,
                subscriptions: Seq::empty(),
                messages: Seq::empty(),
                received_count: 0,
                published_count: 0,
            }),
    {
        let state = ClientState {
            connection_status,
            last_error: None,
            subscriptions: Vec::new(),
            messages: VecDeque::new(),
            received_count: 0,
            published_count: 0,
        };
        assert(state@.subscriptions =~= Seq::empty());
        assert(state@.messages =~= Seq::empty());
        state
    }

    /// The positions of the messages to show for the filter entered,
    /// newest first, and no more than `max_messages`.
    pub fn visible_messages(&self, filter: &str, max_messages: usize) -> (rows: Vec<usize>)
        ensures
            positions(rows@) == shown(self@.messages, filter@, max_messages as nat),
    {
        let ghost all = messages_view(self.messages@);
        let wanted = trim(filter);
        let unfiltered = wanted.unicode_len() == 0;
        let mut rows: Vec<usize> = Vec::new();
        let mut i: usize = self.messages.len();
        assert(all.take(i as int) =~= all);
        assert(positions(rows@) =~= Seq::<int>::empty());
        while i > 0 && rows.len() < max_messages
            invariant
                all == messages_view(self.messages@),
                wanted@ == trimmed(filter@),
                unfiltered == (trimmed(filter@).len() == 0),
                i <= self.messages@.len(),
                rows.len() <= max_messages,
                positions(rows@) + shown(
                    all.take(i as int),
                    filter@,
                    (max_messages - rows.len()) as nat,
                ) == shown(all, filter@, max_messages as nat),
            decreases i,
        {
            let ghost before = positions(rows@);
            let ghost part = all.take(i as int);
            i -= 1;
            proof {
                assert(part.drop_last() =~= all.take(i as int));
                assert(part.last() == all[i as int]);
            }
            if unfiltered || has_text(self.messages[i].topic.as_str(), wanted) {
                rows.push(i);
                assert(positions(rows@) =~= before + seq![i as int]);
                assert(positions(rows@) + shown(
                    all.take(i as int),
                    filter@,
                    (max_messages - rows.len()) as nat,
                ) =~= before + shown(part, filter@, (max_messages - rows.len() + 1) as nat));
            }
        }
        assert(shown(all.take(i as int), filter@, (max_messages - rows.len()) as nat)
            =~= Seq::<int>::empty());
        assert(positions(rows@) + Seq::<int>::empty() =~= positions(rows@));
        rows
    }

    /// The level the registry holds for `topic`, if it holds one.
    pub fn granted_qos(&self, topic: &str) -> (qos: Option<u8>)
        ensures
            qos == granted(self@.subscriptions, topic@),
    {
        let wanted = String::from_str(topic);
        let mut i: usize = 0;
        while i < self.subscriptions.len()
            invariant
                i <= self.subscriptions.len(),
                wanted@ == topic@,
                forall|j: int|
                    0 <= j < i ==> (#[trigger] registry_view(self.subscriptions@)[j]).0 != topic@,
            decreases self.subscriptions.len() - i,
        {
            if self.subscriptions[i].topic == wanted {
                proof {
                    lemma_position_is(registry_view(self.subscriptions@), topic@, i as int);
                }
                return Some(self.subscriptions[i].qos);
            }
            i += 1;
        }
        proof {
            lemma_position_is(registry_view(self.subscriptions@), topic@, i as int);
        }
        None
    }

    fn merge_subscription(&mut self, topic: String, qos: u8)
        ensures
            registry_view(final(self).subscriptions@) == merged(
                registry_view(old(self).subscriptions@),
                topic@,
                qos,
            ),
            final(self).connection_status == old(self).connection_status,
            final(self).last_error == old(self).last_error,
            final(self).messages == old(self).messages,
            final(self).received_count == old(self).received_count,
            final(self).published_count == old(self).published_count,
    {
        let ghost before = registry_view(self.subscriptions@);
        let mut i: usize = 0;
        while i < self.subscriptions.len()
            invariant
                i <= self.subscriptions.len(),
                *self == *old(self),
                before == registry_view(self.subscriptions@),
                forall|j: int| 0 <= j < i ==> (#[trigger] before[j]).0 != topic@,
            decreases self.subscriptions.len() - i,
        {
            if self.subscriptions[i].topic == topic {
                proof {
                    lemma_position_is(before, topic@, i as int);
                }
                self.subscriptions.set(i, SubscriptionEntry { topic, qos });
                assert(registry_view(self.subscriptions@) =~= before.update(
                    i as int,
                    (topic@, qos),
                ));
                return ;
            }
            i += 1;
        }
        proof {
            lemma_position_is(before, topic@, i as int);
        }
        self.subscriptions.push(SubscriptionEntry { topic, qos });
        assert(registry_view(self.subscriptions@) =~= before.push((topic@, qos)));
    }

    fn drop_subscription(&mut self, topic: &String)
        ensures
            registry_view(final(self).subscriptions@) == without_topic(
                registry_view(old(self).subscriptions@),
                topic@,
            ),
            final(self).connection_status == old(self).connection_status,
            final(self).last_error == old(self).last_error,
            final(self).messages == old(self).messages,
            final(self).received_count == old(self).received_count,
            final(self).published_count == old(self).published_count,
    {
        let ghost before = registry_view(self.subscriptions@);
        let ghost keep = |e: (Seq<char>, u8)| e.0 != topic@;
        let mut all: Vec<SubscriptionEntry> = Vec::new();
        core::mem::swap(&mut self.subscriptions, &mut all);
        let mut kept: Vec<SubscriptionEntry> = Vec::new();
        let mut i: usize = 0;
        assert(registry_view(kept@) =~= before.take(0).filter(keep)) by {
            reveal(Seq::filter);
        }
        while i < all.len()
            invariant
                i <= all.len(),
                before == registry_view(all@),
                keep == |e: (Seq<char>, u8)| e.0 != topic@,
                registry_view(kept@) == before.take(i as int).filter(keep),
            decreases all.len() - i,
        {
            proof {
                let now = before.take(i + 1);
                assert(now.drop_last() =~= before.take(i as int));
                assert(now.last() == before[i as int]);
                reveal(Seq::filter);
            }
            let ghost prior = registry_view(kept@);
            if all[i].topic != *topic {
                let entry = SubscriptionEntry { topic: all[i].topic.clone(), qos: all[i].qos };
                kept.push(entry);
                assert(registry_view(kept@) =~= prior.push(before[i as int]));
            }
            i += 1;
        }
        assert(before.take(i as int) =~= before);
        self.subscriptions = kept;
    }

    fn store_message(&mut self, message: ReceivedMessage)
        ensures
            messages_view(final(self).messages@) == stored(
                messages_view(old(self).messages@),
                message@,
            ),
            final(self).connection_status == old(self).connection_status,
            final(self).last_error == old(self).last_error,
            final(self).subscriptions == old(self).subscriptions,
            final(self).received_count == old(self).received_count,
            final(self).published_count == old(self).published_count,
    {
        let ghost all = messages_view(self.messages@).push(message@);
        self.messages.push_back(message);
        assert(messages_view(self.messages@) =~= all);
        while self.messages.len() > MAX_STORED_MESSAGES
            invariant
                self.connection_status == old(self).connection_status,
                self.last_error == old(self).last_error,
                self.subscriptions == old(self).subscriptions,
                self.received_count == old(self).received_count,
                self.published_count == old(self).published_count,
                self.messages@.len() <= all.len(),
                all.len() > MAX_STORED_MESSAGES ==> self.messages@.len() >= MAX_STORED_MESSAGES,
                all.len() <= MAX_STORED_MESSAGES ==> self.messages@.len() == all.len(),
                messages_view(self.messages@) == all.subrange(
                    all.len() - self.messages@.len(),
                    all.len() as int,
                ),
            decreases self.messages@.len(),
        {
            let ghost prior = messages_view(self.messages@);
            let _ = self.messages.pop_front();
            assert(messages_view(self.messages@) =~= prior.drop_first());
            assert(messages_view(self.messages@) =~= all.subrange(
                all.len() - self.messages@.len(),
                all.len() as int,
            ));
        }
        assert(messages_view(self.messages@) =~= stored(
            messages_view(old(self).messages@),
            message@,
        ));
    }

    /// Brings the picture up to date with `event`; a received message is
    /// stamped with `now`.
    pub fn apply_event(&mut self, event: ClientEvent, now: SystemTime)
        requires
            event is MessageReceived ==> old(self).received_count < u64::MAX,
            event is Published ==> old(self).published_count < u64::MAX,
        ensures
            final(self)@ == old(self)@.after(event@, now),
    {
        match event {
            ClientEvent::Status(status) => {
                self.connection_status = status;
            },
            ClientEvent::Error(err) => {
                self.last_error = Some(err);
            },
            ClientEvent::Connected => {
                self.connection_status = String::from_str("Connected");
                self.last_error = None;
            },
            ClientEvent::Disconnected(reason) => {
                self.connection_status = String::from_str("Disconnected");
                self.last_error = Some(reason);
            },
            ClientEvent::Subscribed { topic, qos, details } => {
                self.connection_status = join3("Subscribed to '", topic.as_str(), "'");
                self.last_error = Some(join2("SUBACK: ", details.as_str()));
                self.merge_subscription(topic, qos);
            },
            ClientEvent::Unsubscribed { topic, details } => {
                self.drop_subscription(&topic);
                self.connection_status = join3("Unsubscribed from '", topic.as_str(), "'");
                self.last_error = Some(join2("UNSUBACK: ", details.as_str()));
            },
            ClientEvent::Published { topic, packet_id } => {
                self.published_count += 1;
                self.connection_status = match packet_id {
                    Some(id) => {
                        let number = decimal_string(id as u64);
                        let head = join3("Published to '", topic.as_str(), "' (packet id ");
                        head.concat(number.as_str()).concat(")")
                    },
                    None => join3("Published to '", topic.as_str(), "'"),
                };
            },
            ClientEvent::MessageReceived { topic, qos, retain, payload } => {
                self.received_count += 1;
                self.store_message(ReceivedMessage { timestamp: now, topic, qos, retain, payload });
            },
        }
    }
}

} // verus!
