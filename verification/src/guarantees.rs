//! What holds of every run of a session, proved over the state machine of
//! the `session` module.

use vstd::prelude::*;
use std::time::SystemTime;
use mqtt_endpoint_tokio::mqtt_ep::packet::Qos;
use crate::codec::{
    fits_field, granted_level, puback_built, publish_built, publish_ok, publish_oversized,
    publish_topic_ok, pubrec_built, pubrel_built, share_name_ok, subscribe_built, subscribe_ok,
    unsubscribe_built, InboundPacketView, InboundView,
};
use crate::ipc::{CommandView, EventView};
use crate::login::MqttLoginData;
use crate::registry::{
    distinct_topics, granted, lemma_position_of, merged, without_topic, StateView,
};
use crate::session::{
    initial_session, level_of, subscription_refused, unknown_ack, ActionView, AfterSendView,
    InputView, PacketKind, PhaseView, SessionView, Stage,
};

verus! {

impl SessionView {
    /// The identifier under which the packet in flight will be registered
    /// once it is sent, if it is one that registers an operation.
    pub open spec fn registering(self) -> Option<u16> {
        match self.phase {
            PhaseView::Sending(AfterSendView::RegisterSubscribe { packet_id, .. }) => Some(
                packet_id,
            ),
            PhaseView::Sending(AfterSendView::RegisterUnsubscribe { packet_id, .. }) => Some(
                packet_id,
            ),
            PhaseView::Sending(AfterSendView::RegisterPublish { packet_id, .. }) => Some(packet_id),
            _ => None,
        }
    }

    /// Whether no identifier is held by two pending operations, and the
    /// operation about to be registered comes under an identifier that
    /// none holds.
    pub open spec fn identifiers_distinct(self) -> bool {
        &&& self.pending.distinct()
        &&& (self.registering() matches Some(id) ==> !self.pending.is_pending(id))
    }
}

/// A view of an acknowledgment or other packet as it arrives.
pub open spec fn arrival(kind: Seq<char>, packet: InboundPacketView) -> InputView {
    InputView::Received(Ok(InboundView { kind, packet }))
}

/// Whether `events` holds a subscribed event.
pub open spec fn reports_subscribed(events: Seq<EventView>) -> bool {
    exists|i: int| 0 <= i < events.len() && (#[trigger] events[i]) is Subscribed
}

/// Whether `events` holds a published event.
pub open spec fn reports_published(events: Seq<EventView>) -> bool {
    exists|i: int| 0 <= i < events.len() && (#[trigger] events[i]) is Published
}

/// A session starts with no identifier held twice.
pub proof fn lemma_initially_distinct(login: MqttLoginData, client_id: Seq<char>)
    ensures
        initial_session(login, client_id).identifiers_distinct(),
{
}

/// As long as every identifier handed to the session is one that no
/// pending operation holds, no step makes two pending operations share an
/// identifier, whatever the input.
pub proof fn lemma_identifiers_stay_distinct(s: SessionView, input: InputView)
    requires
        s.identifiers_distinct(),
        input matches InputView::PacketId(Ok(id)) ==> !s.pending.is_pending(id),
    ensures
        s.step(input).next.identifiers_distinct(),
{
}

/// A subscribed event is reported only by the step that takes a subscribe
/// acknowledgment whose identifier is pending, and then it is the only
/// event of that step, carrying the pending topic and level and the
/// acknowledgment's details.
pub proof fn lemma_subscribed_only_on_acknowledgment(s: SessionView, input: InputView)
    requires
        reports_subscribed(s.step(input).events),
    ensures
        s.phase is Ready,
        ({
            &&& input matches InputView::Received(Ok(inbound))
            &&& inbound.packet matches InboundPacketView::Suback { packet_id, codes, details }
            &&& s.pending.subscribe.contains_key(packet_id)
            &&& granted_level(codes) matches Some(qos)
            &&& s.step(input).events == seq![
                EventView::Subscribed { topic: s.pending.subscribe[packet_id].0, qos, details },
            ]
        }),
{
    let events = s.step(input).events;
    let i = choose|i: int| 0 <= i < events.len() && (#[trigger] events[i]) is Subscribed;
    assert(events[i] is Subscribed);
}

/// A subscribe at any of the three levels that the codec accepts goes
/// through identifier allocation and sending without a single event, and
/// the packet handed out is the codec's subscribe packet for that filter
/// at that level under that identifier. The matching acknowledgment then
/// yields exactly one subscribed event, with the topic of the command and
/// the level the broker granted, and removes the pending entry; the same
/// acknowledgment once more yields a status. A consumer that applies the
/// event finds the topic in its registry at the granted level.
pub proof fn lemma_subscribe_round_trip(
    s: SessionView,
    topic: Seq<char>,
    qos: u8,
    packet_id: u16,
    kind: Seq<char>,
    codes: Seq<u8>,
    details: Seq<char>,
    consumer: StateView,
    now: SystemTime,
)
    requires
        s.phase is Ready,
        qos <= 2,
        subscribe_ok(packet_id, topic),
        granted_level(codes) is Some,
    ensures
        ({
            let asked = s.step(InputView::Command(CommandView::Subscribe { topic, qos }));
            let built = asked.next.step(InputView::PacketId(Ok(packet_id)));
            let sent = built.next.step(InputView::Sent(Ok(())));
            let ack = arrival(kind, InboundPacketView::Suback { packet_id, codes, details });
            let acked = sent.next.step(ack);
            let again = acked.next.step(ack);
            let event = EventView::Subscribed { topic, qos: codes[0], details };
            &&& asked.events.len() == 0 && asked.action == ActionView::AcquirePacketId
            &&& built.events.len() == 0 && built.action == (ActionView::Send {
                kind: PacketKind::Subscribe,
                packet_id: Some(packet_id),
                packet: subscribe_built(packet_id, topic, qos),
            })
            &&& sent.events.len() == 0 && sent.action == ActionView::Wait
            &&& sent.next.pending == s.pending.with_subscribe(packet_id, topic, qos)
            &&& acked.events == seq![event]
            &&& acked.action == ActionView::Wait
            &&& acked.next.pending.subscribe == s.pending.subscribe.remove(packet_id)
            &&& again.events == seq![EventView::Status(unknown_ack("SUBACK"@, packet_id))]
            &&& granted(consumer.after(event, now).subscriptions, topic) == Some(codes[0])
        }),
{
    let asked = s.step(InputView::Command(CommandView::Subscribe { topic, qos }));
    let built = asked.next.step(InputView::PacketId(Ok(packet_id)));
    let sent = built.next.step(InputView::Sent(Ok(())));
    let acked = sent.next.step(
        arrival(kind, InboundPacketView::Suback { packet_id, codes, details }),
    );
    assert(acked.next.pending.subscribe =~= s.pending.subscribe.remove(packet_id));
    lemma_merged_grants(consumer.subscriptions, topic, codes[0]);
}

/// An acknowledgment that refuses a pending subscribe, by a first reason
/// code that is no level or by carrying none, ends the entry and yields
/// one error naming the topic and the codes, never a subscribed event; a
/// consumer that applies the error keeps its registry as it was.
pub proof fn lemma_refused_subscription(
    s: SessionView,
    packet_id: u16,
    kind: Seq<char>,
    codes: Seq<u8>,
    details: Seq<char>,
    consumer: StateView,
    now: SystemTime,
)
    requires
        s.phase is Ready,
        s.pending.subscribe.contains_key(packet_id),
        granted_level(codes) is None,
    ensures
        ({
            let acked = s.step(
                arrival(kind, InboundPacketView::Suback { packet_id, codes, details }),
            );
            let error = EventView::Error(
                subscription_refused(s.pending.subscribe[packet_id].0, details),
            );
            &&& acked.events == seq![error]
            &&& acked.action == ActionView::Wait
            &&& acked.next.pending == s.pending.without_subscribe(packet_id)
            &&& consumer.after(error, now).subscriptions == consumer.subscriptions
        }),
{
}

/// Whether the codec takes the topic, level and size of a command, so that
/// only an identifier, where one is needed, stands between it and its
/// packet.
pub open spec fn command_valid(command: CommandView) -> bool {
    match command {
        CommandView::Subscribe { topic, qos } => qos <= 2 && fits_field(topic) && share_name_ok(
            topic,
        ),
        CommandView::Unsubscribe { topic } => fits_field(topic) && share_name_ok(topic),
        CommandView::Publish { topic, payload, qos, retain } => qos <= 2 && publish_topic_ok(topic)
            && topic.len() > 0 && !publish_oversized(topic, payload.len(), level_of(qos)),
    }
}

/// A command is validated before anything else happens. An invalid one is
/// answered with exactly one error: no identifier is asked for, no packet
/// is handed out, and the session is as it was, ready for the next
/// command. A valid one reports nothing and either asks for an identifier
/// or, for a publish at the weakest level, hands out its packet.
pub proof fn lemma_commands_validated_first(s: SessionView, command: CommandView)
    requires
        s.phase is Ready,
    ensures
        ({
            let o = s.step(InputView::Command(command));
            &&& o.next.pending == s.pending
            &&& !command_valid(command) ==> {
                &&& o.events.len() == 1 && o.events[0] is Error
                &&& o.action == ActionView::Wait
                &&& o.next == s
            }
            &&& command_valid(command) ==> {
                &&& o.events.len() == 0
                &&& o.action == ActionView::AcquirePacketId || o.action is Send
            }
        }),
{
}

/// An inbound publish is reported as received, whatever its level, before
/// any reply. At the middle level it is answered with the codec's
/// acknowledgment under the inbound identifier, at the strongest level with
/// the codec's receipt under it, and at the weakest level, or without an
/// identifier, with nothing. The pending table stays as it was.
pub proof fn lemma_inbound_publish_answered(
    s: SessionView,
    kind: Seq<char>,
    topic: Seq<char>,
    payload: Seq<u8>,
    qos: u8,
    retain: bool,
    packet_id: Option<u16>,
)
    requires
        s.phase is Ready,
    ensures
        ({
            let o = s.step(
                arrival(
                    kind,
                    InboundPacketView::Publish { topic, payload, qos, retain, packet_id },
                ),
            );
            let due = (qos == 1 || qos == 2) && packet_id is Some;
            &&& o.events.len() > 0
            &&& o.events[0] == (EventView::MessageReceived { topic, qos, retain, payload })
            &&& o.next.pending == s.pending
            &&& !due ==> o.events.len() == 1 && o.action == ActionView::Wait
            &&& due && packet_id != Some(0u16) ==> o.events.len() == 1 && o.action == (
            ActionView::Send {
                kind: if qos == 1 {
                    PacketKind::Puback
                } else {
                    PacketKind::Pubrec
                },
                packet_id,
                packet: if qos == 1 {
                    puback_built(packet_id->0)
                } else {
                    pubrec_built(packet_id->0)
                },
            })
        }),
{
}

/// After a subscription is merged into a registry, the registry holds the
/// topic at the granted level.
pub proof fn lemma_merged_grants(registry: Seq<(Seq<char>, u8)>, topic: Seq<char>, qos: u8)
    ensures
        granted(merged(registry, topic, qos), topic) == Some(qos),
{
    lemma_position_of(registry, topic);
    let at = crate::registry::position_of(registry, topic);
    let after = merged(registry, topic, qos);
    assert forall|i: int| 0 <= i < at implies (#[trigger] after[i]).0 != topic by {
        assert(after[i] == registry[i]);
    }
    crate::registry::lemma_position_is(after, topic, at);
}

/// Whether `input` tells a session in state `s` that its publish at the
/// weakest level has been sent.
pub open spec fn weakest_publish_sent(s: SessionView, input: InputView) -> bool {
    &&& s.phase matches PhaseView::Sending(AfterSendView::AnnouncePublished { topic })
    &&& input matches InputView::Sent(result)
    &&& result is Ok
    &&& s.step(input).events == seq![EventView::Published { topic, packet_id: None }]
}

/// Whether `input` brings a session in state `s` the acknowledgment or the
/// completion of a publish that is pending.
pub open spec fn pending_publish_done(s: SessionView, input: InputView) -> bool {
    &&& s.phase is Ready
    &&& input matches InputView::Received(Ok(inbound))
    &&& match inbound.packet {
        InboundPacketView::Puback { packet_id } => s.pending.publish.contains_key(packet_id),
        InboundPacketView::Pubcomp { packet_id } => s.pending.publish.contains_key(packet_id),
        _ => false,
    }
}

/// A published event is reported only when a publish at the weakest level
/// has been sent, or when an acknowledgment or a completion arrives for a
/// pending publish; the receipt of a two-phase publish alone reports
/// nothing.
pub proof fn lemma_published_only_when_done(s: SessionView, input: InputView)
    requires
        reports_published(s.step(input).events),
    ensures
        weakest_publish_sent(s, input) || pending_publish_done(s, input),
{
    let events = s.step(input).events;
    let i = choose|i: int| 0 <= i < events.len() && (#[trigger] events[i]) is Published;
    assert(events[i] is Published);
    match (s.phase, input) {
        (PhaseView::Ready, InputView::Received(Ok(inbound))) => {
            match inbound.packet {
                InboundPacketView::Publish { topic, payload, qos, retain, packet_id } => {
                    let message = EventView::MessageReceived { topic, qos, retain, payload };
                    assert(events[0] == message);
                    assert(events.len() == 1 || (events.len() == 2 && events[1] is Error));
                },
                _ => {},
            }
        },
        _ => {},
    }
}

/// A publish at the strongest level that the codec accepts and that fits a
/// packet goes out as the codec's publish packet of its topic, payload,
/// level and retain flag under the allocated identifier. It reports
/// nothing while it is sent, and nothing when its receipt arrives: the
/// receipt is answered with the codec's release packet under the same
/// identifier and the entry stays pending. Only the completion yields the
/// published event, exactly one, with the identifier the publish was sent
/// under, and ends the entry.
pub proof fn lemma_two_phase_publish_round_trip(
    s: SessionView,
    topic: Seq<char>,
    payload: Seq<u8>,
    retain: bool,
    packet_id: u16,
    kind: Seq<char>,
)
    requires
        s.phase is Ready,
        publish_ok(topic, payload.len(), Qos::ExactlyOnce, Some(packet_id)),
        !publish_oversized(topic, payload.len(), Qos::ExactlyOnce),
    ensures
        ({
            let asked = s.step(
                InputView::Command(CommandView::Publish { topic, payload, qos: 2, retain }),
            );
            let built = asked.next.step(InputView::PacketId(Ok(packet_id)));
            let sent = built.next.step(InputView::Sent(Ok(())));
            let received = sent.next.step(arrival(kind, InboundPacketView::Pubrec { packet_id }));
            let released = received.next.step(InputView::Sent(Ok(())));
            let completed = released.next.step(
                arrival(kind, InboundPacketView::Pubcomp { packet_id }),
            );
            &&& asked.events.len() == 0 && asked.action == ActionView::AcquirePacketId
            &&& built.events.len() == 0 && built.action == (ActionView::Send {
                kind: PacketKind::Publish,
                packet_id: Some(packet_id),
                packet: publish_built(topic, payload, 2, retain, Some(packet_id)),
            })
            &&& sent.events.len() == 0 && sent.next.pending.awaits_completion(packet_id)
            &&& received.events.len() == 0 && received.action == (ActionView::Send {
                kind: PacketKind::Pubrel,
                packet_id: Some(packet_id),
                packet: pubrel_built(packet_id),
            })
            &&& received.next.pending == sent.next.pending
            &&& released.events.len() == 0 && released.next.pending == sent.next.pending
            &&& completed.events == seq![
                EventView::Published { topic, packet_id: Some(packet_id) },
            ]
            &&& completed.next.pending.publish == s.pending.publish.remove(packet_id)
        }),
{
    let asked = s.step(InputView::Command(CommandView::Publish { topic, payload, qos: 2, retain }));
    let built = asked.next.step(InputView::PacketId(Ok(packet_id)));
    let sent = built.next.step(InputView::Sent(Ok(())));
    let received = sent.next.step(arrival(kind, InboundPacketView::Pubrec { packet_id }));
    let released = received.next.step(InputView::Sent(Ok(())));
    let completed = released.next.step(arrival(kind, InboundPacketView::Pubcomp { packet_id }));
    assert(completed.next.pending.publish =~= s.pending.publish.remove(packet_id));
}

/// A publish at the weakest level asks for no identifier and never touches
/// the pending table, whatever becomes of it. Where the codec accepts it
/// and it fits a packet, the packet goes out at once without an
/// identifier, and the published event follows as soon as it is sent,
/// again without an identifier.
pub proof fn lemma_fire_and_forget_publish(
    s: SessionView,
    topic: Seq<char>,
    payload: Seq<u8>,
    retain: bool,
    outcome: Result<(), Seq<char>>,
)
    requires
        s.phase is Ready,
    ensures
        ({
            let asked = s.step(
                InputView::Command(CommandView::Publish { topic, payload, qos: 0, retain }),
            );
            let sent = asked.next.step(InputView::Sent(outcome));
            &&& asked.next.pending == s.pending
            &&& asked.action != ActionView::AcquirePacketId
            &&& publish_ok(topic, payload.len(), Qos::AtMostOnce, None) && !publish_oversized(
                topic,
                payload.len(),
                Qos::AtMostOnce,
            ) ==> {
                &&& asked.events.len() == 0
                &&& asked.action == (ActionView::Send {
                    kind: PacketKind::Publish,
                    packet_id: None,
                    packet: publish_built(topic, payload, 0, retain, None),
                })
                &&& sent.next.pending == s.pending
                &&& sent.action == ActionView::Wait
                &&& outcome is Ok ==> sent.events == seq![
                    EventView::Published { topic, packet_id: None },
                ]
            }
        }),
{
}

/// An unsubscribe is sent for any topic the codec accepts, subscribed or
/// not: it asks for an identifier and the codec's unsubscribe packet for
/// that filter goes out under it. An
/// unsubscribe acknowledgment under an identifier that is not pending is
/// answered with a status, never an error, and changes nothing.
pub proof fn lemma_unsubscribe_unknown_topic(
    s: SessionView,
    topic: Seq<char>,
    packet_id: u16,
    stray: u16,
    kind: Seq<char>,
    details: Seq<char>,
)
    requires
        s.phase is Ready,
        subscribe_ok(packet_id, topic),
        !s.pending.unsubscribe.contains_key(stray),
    ensures
        ({
            let asked = s.step(InputView::Command(CommandView::Unsubscribe { topic }));
            let built = asked.next.step(InputView::PacketId(Ok(packet_id)));
            let missed = s.step(
                arrival(kind, InboundPacketView::Unsuback { packet_id: stray, details }),
            );
            &&& asked.events.len() == 0 && asked.action == ActionView::AcquirePacketId
            &&& built.events.len() == 0 && built.action == (ActionView::Send {
                kind: PacketKind::Unsubscribe,
                packet_id: Some(packet_id),
                packet: unsubscribe_built(packet_id, topic),
            })
            &&& missed.events == seq![EventView::Status(unknown_ack("UNSUBACK"@, stray))]
            &&& missed.next == s
            &&& missed.action == ActionView::Wait
        }),
{
}

/// Once shutdown is signalled the session takes no further command: it
/// asks for the transport to be closed, waits for nothing else, and when
/// that is over reports the closed status as its only and last event and
/// stops. A stopped session waits for nothing.
pub proof fn lemma_shutdown_ordering(s: SessionView, input: InputView)
    requires
        s.phase is Ready,
    ensures
        ({
            let signalled = s.step(InputView::Shutdown);
            let closed = signalled.next.step(InputView::TransportClosed);
            &&& signalled.events.len() == 0 && signalled.action == ActionView::Close
            &&& signalled.next.awaits(input) ==> input == InputView::TransportClosed
            &&& closed.events == seq![EventView::Status("Closed"@)]
            &&& closed.action == ActionView::Exit
            &&& !closed.next.awaits(input)
        }),
{
}

/// However a session ends, one event is its last. A step that turns to
/// closing over a failure, or stops at once, reports the disconnect as its
/// last event; the step that follows the closing reports the closed status
/// after a shutdown and nothing after a failure, and stops. No step stops
/// a session in any other way.
pub proof fn lemma_one_terminal_event(s: SessionView, input: InputView)
    requires
        s.awaits(input),
    ensures
        ({
            let o = s.step(input);
            &&& (o.next.phase matches PhaseView::Closing { graceful: false }) ==> o.events.len()
                > 0 && o.events.last() is Disconnected && o.action == ActionView::Close
            &&& (o.next.phase matches PhaseView::Closing { graceful: true }) ==> input
                == InputView::Shutdown && o.events.len() == 0 && o.action == ActionView::Close
            &&& o.action == ActionView::Exit <==> o.next.phase is Closed
            &&& o.next.phase is Closed ==> {
                ||| s.phase is Opening && o.events.len() == 1 && o.events.last() is Disconnected
                ||| s.phase == (PhaseView::Closing { graceful: true }) && o.events == seq![
                    EventView::Status("Closed"@),
                ]
                ||| s.phase == (PhaseView::Closing { graceful: false }) && o.events.len() == 0
            }
        }),
{
}

/// The session after a run: `inputs` taken one after the other.
pub open spec fn run_end(s: SessionView, inputs: Seq<InputView>) -> SessionView
    decreases inputs.len(),
{
    if inputs.len() == 0 {
        s
    } else {
        run_end(s.step(inputs[0]).next, inputs.drop_first())
    }
}

/// The events of a run: those of each step, in order.
pub open spec fn run_events(s: SessionView, inputs: Seq<InputView>) -> Seq<EventView>
    decreases inputs.len(),
{
    if inputs.len() == 0 {
        Seq::empty()
    } else {
        s.step(inputs[0]).events + run_events(s.step(inputs[0]).next, inputs.drop_first())
    }
}

/// Whether each input of a run is what the session is waiting for when it
/// comes.
pub open spec fn run_awaited(s: SessionView, inputs: Seq<InputView>) -> bool
    decreases inputs.len(),
{
    inputs.len() == 0 || (s.awaits(inputs[0]) && run_awaited(
        s.step(inputs[0]).next,
        inputs.drop_first(),
    ))
}

/// What one step of a session that is neither closing nor closed can be:
/// it stops at once or turns to closing over a failure, with the
/// disconnect as its one event; or it turns to closing on the shutdown
/// signal, with no event; or it goes on, without a disconnect event and
/// not on a shutdown signal.
pub proof fn lemma_step_shape(s: SessionView, input: InputView)
    requires
        s.awaits(input),
        !(s.phase is Closing),
    ensures
        ({
            let o = s.step(input);
            match o.next.phase {
                PhaseView::Closed => o.events.len() == 1 && o.events[0] is Disconnected && !(
                input is Shutdown),
                PhaseView::Closing { graceful: false } => o.events.len() == 1
                    && o.events[0] is Disconnected && !(input is Shutdown),
                PhaseView::Closing { graceful: true } => o.events.len() == 0 && input is Shutdown,
                _ => !(input is Shutdown) && forall|i: int|
                    0 <= i < o.events.len() ==> !((#[trigger] o.events[i]) is Disconnected),
            }
        }),
{
    let events = s.step(input).events;
    match (s.phase, input) {
        (PhaseView::Ready, InputView::Received(Ok(inbound))) => {
            match inbound.packet {
                InboundPacketView::Publish { topic, payload, qos, retain, packet_id } => {
                    let message = EventView::MessageReceived { topic, qos, retain, payload };
                    assert(events[0] == message);
                    assert(events.len() == 1 || (events.len() == 2 && events[1] is Error));
                },
                _ => {},
            }
        },
        _ => {},
    }
}

/// A run from a closing session that ends closed is the one step that
/// takes the end of the closing: after a shutdown it reports the closed
/// status, after a failure nothing.
pub proof fn lemma_closing_run(s: SessionView, inputs: Seq<InputView>)
    requires
        s.phase is Closing,
        run_awaited(s, inputs),
        run_end(s, inputs).phase is Closed,
    ensures
        inputs.len() == 1,
        inputs[0] is TransportClosed,
        run_events(s, inputs) == (if s.phase == (PhaseView::Closing { graceful: true }) {
            seq![EventView::Status("Closed"@)]
        } else {
            Seq::<EventView>::empty()
        }),
{
    let o = s.step(inputs[0]);
    let rest = inputs.drop_first();
    assert(inputs.len() > 0);
    assert(s.awaits(inputs[0]));
    assert(o.next.phase is Closed);
    assert(run_awaited(o.next, rest));
    if rest.len() > 0 {
        assert(o.next.awaits(rest[0]));
    }
    assert(run_events(o.next, rest) =~= Seq::<EventView>::empty());
    assert(run_events(s, inputs) =~= o.events);
}

/// However a session is run to its end, one event is its last: the closed
/// status after a shutdown signal, else the disconnect; and no disconnect
/// is reported before it. Once shutdown is signalled nothing but the end
/// of the closing is taken: no command is processed after it.
pub proof fn lemma_run_ends_with_one_terminal_event(s: SessionView, inputs: Seq<InputView>)
    requires
        !(s.phase is Closing),
        !(s.phase is Closed),
        run_awaited(s, inputs),
        run_end(s, inputs).phase is Closed,
    ensures
        ({
            let events = run_events(s, inputs);
            &&& events.len() > 0
            &&& events.last() == EventView::Status("Closed"@) || events.last() is Disconnected
            &&& forall|i: int|
                0 <= i < events.len() - 1 ==> !((#[trigger] events[i]) is Disconnected)
            &&& forall|k: int|
                0 <= k < inputs.len() && (#[trigger] inputs[k]) is Shutdown ==> k + 2
                    == inputs.len() && inputs[k + 1] is TransportClosed && events.last()
                    == EventView::Status("Closed"@)
        }),
    decreases inputs.len(),
{
    let o = s.step(inputs[0]);
    let rest = inputs.drop_first();
    let events = run_events(s, inputs);
    let later = run_events(o.next, rest);
    assert(inputs.len() > 0);
    assert(s.awaits(inputs[0]));
    assert(run_awaited(o.next, rest));
    assert(events == o.events + later);
    lemma_step_shape(s, inputs[0]);
    assert forall|k: int| 1 <= k < inputs.len() implies inputs[k] == rest[k - 1] by {}
    match o.next.phase {
        PhaseView::Closed => {
            if rest.len() > 0 {
                assert(o.next.awaits(rest[0]));
            }
            assert(later =~= Seq::<EventView>::empty());
            assert(events =~= o.events);
        },
        PhaseView::Closing { graceful } => {
            lemma_closing_run(o.next, rest);
            if graceful {
                assert(events =~= seq![EventView::Status("Closed"@)]);
            } else {
                assert(events =~= o.events);
            }
        },
        _ => {
            lemma_run_ends_with_one_terminal_event(o.next, rest);
            assert(rest.len() > 0);
            assert(later.len() > 0);
            assert(events.last() == later.last());
            assert forall|i: int| 0 <= i < events.len() - 1 implies !((
            #[trigger] events[i]) is Disconnected) by {
                if i < o.events.len() {
                    assert(events[i] == o.events[i]);
                } else {
                    assert(events[i] == later[i - o.events.len()]);
                }
            }
            assert forall|k: int|
                0 <= k < inputs.len() && (#[trigger] inputs[k]) is Shutdown implies k + 2
                == inputs.len() && inputs[k + 1] is TransportClosed && events.last()
                == EventView::Status("Closed"@) by {
                assert(k > 0);
                assert(rest[k - 1] is Shutdown);
                assert(inputs[k + 1] == rest[k]);
            }
        },
    }
}

/// Whether a session may pass from lifecycle state `from` to `to` in one
/// step: forward along connecting, handshaking, connected, closing and
/// closed, staying where it is while handshaking or connected, or from any
/// state before closing straight to closed.
pub open spec fn lifecycle_edge(from: Stage, to: Stage) -> bool {
    match from {
        Stage::Connecting => to is Handshaking || to is Closed,
        Stage::Handshaking => to is Handshaking || to is Connected || to is Closed,
        Stage::Connected => to is Connected || to is Closing || to is Closed,
        Stage::Closing => to is Closed,
        Stage::Closed => to is Closed,
    }
}

/// Every step moves the session along an edge of its lifecycle. It reaches
/// the connected state only on a connect acknowledgment, the closing state
/// only on a shutdown signal while connected, and never leaves the closed
/// state.
pub proof fn lemma_lifecycle(s: SessionView, input: InputView)
    requires
        s.awaits(input),
    ensures
        lifecycle_edge(s.stage(), s.step(input).next.stage()),
        s.stage() is Handshaking && s.step(input).next.stage() is Connected ==> {
            &&& input matches InputView::Received(Ok(inbound))
            &&& inbound.packet is Connack
        },
        s.step(input).next.stage() is Closing ==> s.stage() is Connected && input
            == InputView::Shutdown,
{
}

/// Every entry kept by a removal was in the registry, and none has the
/// removed topic; entries of a registry with a topic each stay so.
pub proof fn lemma_without_topic(registry: Seq<(Seq<char>, u8)>, topic: Seq<char>)
    ensures
        forall|i: int|
            0 <= i < without_topic(registry, topic).len() ==> (#[trigger] without_topic(
                registry,
                topic,
            )[i]).0 != topic && registry.contains(without_topic(registry, topic)[i]),
        distinct_topics(registry) ==> distinct_topics(without_topic(registry, topic)),
    decreases registry.len(),
{
    reveal(Seq::filter);
    let kept = without_topic(registry, topic);
    if registry.len() > 0 {
        let front = registry.drop_last();
        let kept_front = without_topic(front, topic);
        lemma_without_topic(front, topic);
        assert forall|i: int| 0 <= i < kept.len() implies (#[trigger] kept[i]).0 != topic
            && registry.contains(kept[i]) by {
            if i < kept_front.len() {
                assert(kept[i] == kept_front[i]);
                assert(front.contains(kept_front[i]));
                let j = choose|j: int| 0 <= j < front.len() && front[j] == kept_front[i];
                assert(registry[j] == kept[i]);
            } else {
                assert(kept[i] == registry.last());
                assert(registry[registry.len() - 1] == kept[i]);
            }
        }
        if distinct_topics(registry) {
            assert(distinct_topics(front)) by {
                assert forall|i: int, j: int| 0 <= i < j < front.len() implies (
                #[trigger] front[i]).0 != (#[trigger] front[j]).0 by {
                    assert(front[i] == registry[i] && front[j] == registry[j]);
                }
            }
            assert forall|i: int, j: int| 0 <= i < j < kept.len() implies (#[trigger] kept[i]).0
                != (#[trigger] kept[j]).0 by {
                if j < kept_front.len() {
                    assert(kept[i] == kept_front[i] && kept[j] == kept_front[j]);
                } else {
                    assert(kept[j] == registry.last());
                    assert(kept[i] == kept_front[i]);
                    assert(front.contains(kept_front[i]));
                    let k = choose|k: int| 0 <= k < front.len() && front[k] == kept_front[i];
                    assert(registry[k] == kept[i]);
                    assert(registry[registry.len() - 1] == kept[j]);
                }
            }
        }
    }
}

/// The registry follows the acknowledgments and nothing else. Only a
/// subscribed or an unsubscribed event changes it; after a subscribed
/// event it holds the topic at the granted level, after an unsubscribed
/// event it does not hold the topic; and a registry with one entry for
/// each topic stays so.
pub proof fn lemma_registry_follows_acknowledgments(
    state: StateView,
    event: EventView,
    now: SystemTime,
)
    ensures
        !(event is Subscribed) && !(event is Unsubscribed) ==> state.after(event, now).subscriptions
            == state.subscriptions,
        event matches EventView::Subscribed { topic, qos, .. } ==> granted(
            state.after(event, now).subscriptions,
            topic,
        ) == Some(qos),
        event matches EventView::Unsubscribed { topic, .. } ==> granted(
            state.after(event, now).subscriptions,
            topic,
        ) is None,
        distinct_topics(state.subscriptions) ==> distinct_topics(
            state.after(event, now).subscriptions,
        ),
{
    let registry = state.subscriptions;
    match event {
        EventView::Subscribed { topic, qos, details } => {
            lemma_merged_grants(registry, topic, qos);
            lemma_position_of(registry, topic);
            let at = crate::registry::position_of(registry, topic);
            let after = merged(registry, topic, qos);
            if distinct_topics(registry) {
                assert forall|i: int, j: int| 0 <= i < j < after.len() implies (
                #[trigger] after[i]).0 != (#[trigger] after[j]).0 by {
                    if at < registry.len() {
                        assert(after[i].0 == registry[i].0);
                        assert(after[j].0 == registry[j].0);
                    } else if j == registry.len() {
                        assert(after[i] == registry[i]);
                    } else {
                        assert(after[i] == registry[i] && after[j] == registry[j]);
                    }
                }
            }
        },
        EventView::Unsubscribed { topic, details } => {
            lemma_without_topic(registry, topic);
            let after = without_topic(registry, topic);
            crate::registry::lemma_position_is(after, topic, after.len() as int);
        },
        _ => {},
    }
}

} // verus!
