//! The session as a state machine. Each step takes what just happened (the
//! transport opened, a packet was sent or received, an identifier was
//! allocated, a command arrived, shutdown was signalled) and answers with
//! the events to report and the one thing to do next. The caller performs
//! that action on the transport and comes back with its outcome.

use vstd::prelude::*;
use vstd::string::*;
use mqtt_endpoint_tokio::mqtt_ep::packet::Qos;
use crate::codec::{
    fits, fits_field, granted_level, invalid_qos_text, malformed_text, puback_built,
    puback_packet, publish_built, publish_draft_error, publish_ok, publish_oversized,
    publish_packet, publish_topic_error, publish_topic_ok, pubrec_built, pubrec_packet,
    pubrel_built, pubrel_packet, qos_level, qos_number, share_name_error, share_name_ok,
    sub_entry_error, subscribe_built, subscribe_ok, subscribe_packet, unsubscribe_built,
    unsubscribe_filter_error, unsubscribe_packet, CodecPacket, Inbound, InboundPacket,
    InboundPacketView, InboundView, MAX_PAYLOAD_BYTES, MAX_REMAINING_LENGTH,
};
use crate::handshake::{
    client_identifier, client_identifier_of, connect_plan, handshake_built,
    handshake_diagnostic, handshake_packet, lemma_plan_outcome,
};
use crate::ipc::{events_view, ClientCommand, ClientEvent, CommandView, EventView};
use crate::login::{broker_addr_of, MqttLoginData};
use crate::pending::{PendingTable, PendingView};
use crate::text::{contains_char, decimal, decimal_string, join2, join3, join4};

verus! {

/// The kinds of packet the session sends.
#[derive(Clone, Copy, Debug, PartialEq, Eq)]
pub enum PacketKind {
    Connect,
    Subscribe,
    Unsubscribe,
    Publish,
    Puback,
    Pubrec,
    Pubrel,
}

/// What the session does once the packet in flight has been sent.
pub enum AfterSend {
    RegisterSubscribe { packet_id: u16, topic: String, qos: u8 },
    RegisterUnsubscribe { packet_id: u16, topic: String },
    RegisterPublish { packet_id: u16, topic: String, two_phase: bool },
    AnnouncePublished { topic: String },
    Reply { kind: PacketKind },
}

pub enum AfterSendView {
    RegisterSubscribe { packet_id: u16, topic: Seq<char>, qos: u8 },
    RegisterUnsubscribe { packet_id: u16, topic: Seq<char> },
    RegisterPublish { packet_id: u16, topic: Seq<char>, two_phase: bool },
    AnnouncePublished { topic: Seq<char> },
    Reply { kind: PacketKind },
}

impl View for AfterSend {
    type V = AfterSendView;

    open spec fn view(&self) -> AfterSendView {
        match *self {
            AfterSend::RegisterSubscribe { packet_id, topic, qos } => {
                AfterSendView::RegisterSubscribe { packet_id, topic: topic@, qos }
            },
            AfterSend::RegisterUnsubscribe { packet_id, topic } => {
                AfterSendView::RegisterUnsubscribe { packet_id, topic: topic@ }
            },
            AfterSend::RegisterPublish { packet_id, topic, two_phase } => {
                AfterSendView::RegisterPublish { packet_id, topic: topic@, two_phase }
            },
            AfterSend::AnnouncePublished { topic } => AfterSendView::AnnouncePublished {
                topic: topic@,
            },
            AfterSend::Reply { kind } => AfterSendView::Reply { kind },
        }
    }
}

/// Where the session stands, with what it is waiting for.
pub enum Phase {
    /// The transport is being opened.
    Opening,
    /// The handshake packet is being sent.
    SendingConnect,
    /// The one reply to the handshake is awaited.
    AwaitingConnack,
    /// Connected and idle: shutdown, a command or a packet comes next.
    Ready,
    /// Connected; an identifier is being allocated for this command.
    AwaitingId(ClientCommand),
    /// Connected; a packet is being sent.
    Sending(AfterSend),
    /// The transport is being closed, after a shutdown signal (`graceful`)
    /// or a failure.
    Closing { graceful: bool },
    /// The session has ended.
    Closed,
}

pub enum PhaseView {
    Opening,
    SendingConnect,
    AwaitingConnack,
    Ready,
    AwaitingId(CommandView),
    Sending(AfterSendView),
    Closing { graceful: bool },
    Closed,
}

impl View for Phase {
    type V = PhaseView;

    open spec fn view(&self) -> PhaseView {
        match *self {
            Phase::Opening => PhaseView::Opening,
            Phase::SendingConnect => PhaseView::SendingConnect,
            Phase::AwaitingConnack => PhaseView::AwaitingConnack,
            Phase::Ready => PhaseView::Ready,
            Phase::AwaitingId(command) => PhaseView::AwaitingId(command@),
            Phase::Sending(after) => PhaseView::Sending(after@),
            Phase::Closing { graceful } => PhaseView::Closing { graceful },
            Phase::Closed => PhaseView::Closed,
        }
    }
}

/// The lifecycle states of a session.
#[derive(Clone, Copy, Debug, PartialEq, Eq)]
pub enum Stage {
    /// The transport is being opened.
    Connecting,
    /// The handshake is under way.
    Handshaking,
    /// Commands and packets are being served.
    Connected,
    /// Shutdown was signalled and the transport is being closed.
    Closing,
    /// The session has ended, by shutdown or over a failure; after a
    /// failure the transport may still be on its way down.
    Closed,
}

/// Why the transport could not be opened.
pub enum TransportFailure {
    /// The byte connection could not be established.
    Connect(String),
    /// The connection could not be attached to the endpoint.
    Attach(String),
}

pub enum TransportFailureView {
    Connect(Seq<char>),
    Attach(Seq<char>),
}

impl View for TransportFailure {
    type V = TransportFailureView;

    open spec fn view(&self) -> TransportFailureView {
        match *self {
            TransportFailure::Connect(text) => TransportFailureView::Connect(text@),
            TransportFailure::Attach(text) => TransportFailureView::Attach(text@),
        }
    }
}

/// What just happened. Failures carry the collaborator's own text.
pub enum Input {
    /// The transport was opened, or could not be.
    TransportOpened(Result<(), TransportFailure>),
    /// The packet handed out with the last action was sent, or could not be.
    Sent(Result<(), String>),
    /// An identifier was allocated, or could not be.
    PacketId(Result<u16, String>),
    /// A packet arrived, or receiving failed.
    Received(Result<Inbound, String>),
    /// The consumer issued a command.
    Command(ClientCommand),
    /// The consumer signalled shutdown.
    Shutdown,
    /// The attempt to close the transport is over.
    TransportClosed,
}

pub enum InputView {
    TransportOpened(Result<(), TransportFailureView>),
    Sent(Result<(), Seq<char>>),
    PacketId(Result<u16, Seq<char>>),
    Received(Result<InboundView, Seq<char>>),
    Command(CommandView),
    Shutdown,
    TransportClosed,
}

/// The outcome of opening the transport, with its text as a sequence.
pub open spec fn opened_view(result: Result<(), TransportFailure>) -> Result<
    (),
    TransportFailureView,
> {
    match result {
        Ok(()) => Ok(()),
        Err(failure) => Err(failure@),
    }
}

/// The outcome of a send, with its text as a sequence.
pub open spec fn sent_view(result: Result<(), String>) -> Result<(), Seq<char>> {
    match result {
        Ok(()) => Ok(()),
        Err(text) => Err(text@),
    }
}

/// The outcome of allocating an identifier, with its text as a sequence.
pub open spec fn id_view(result: Result<u16, String>) -> Result<u16, Seq<char>> {
    match result {
        Ok(id) => Ok(id),
        Err(text) => Err(text@),
    }
}

/// The outcome of a receive, with its texts as sequences.
pub open spec fn received_view(result: Result<Inbound, String>) -> Result<InboundView, Seq<char>> {
    match result {
        Ok(inbound) => Ok(inbound@),
        Err(text) => Err(text@),
    }
}

impl View for Input {
    type V = InputView;

    open spec fn view(&self) -> InputView {
        match *self {
            Input::TransportOpened(result) => InputView::TransportOpened(opened_view(result)),
            Input::Sent(result) => InputView::Sent(sent_view(result)),
            Input::PacketId(result) => InputView::PacketId(id_view(result)),
            Input::Received(result) => InputView::Received(received_view(result)),
            Input::Command(command) => InputView::Command(command@),
            Input::Shutdown => InputView::Shutdown,
            Input::TransportClosed => InputView::TransportClosed,
        }
    }
}

/// The one thing to do next.
pub enum Action {
    /// Open a byte connection to `addr` and attach it.
    OpenTransport { addr: String },
    /// Send `packet`, which is of kind `kind` and carries `packet_id`.
    Send { kind: PacketKind, packet_id: Option<u16>, packet: CodecPacket },
    /// Wait for exactly one packet.
    Receive,
    /// Allocate an identifier that no pending operation holds.
    AcquirePacketId,
    /// Wait for whichever of shutdown, a command and a packet comes first,
    /// shutdown taking precedence.
    Wait,
    /// Close the transport.
    Close,
    /// Stop: the session has ended.
    Exit,
}

pub enum ActionView {
    OpenTransport { addr: Seq<char> },
    Send { kind: PacketKind, packet_id: Option<u16>, packet: CodecPacket },
    Receive,
    AcquirePacketId,
    Wait,
    Close,
    Exit,
}

impl View for Action {
    type V = ActionView;

    open spec fn view(&self) -> ActionView {
        match *self {
            Action::OpenTransport { addr } => ActionView::OpenTransport { addr: addr@ },
            Action::Send { kind, packet_id, packet } => ActionView::Send {
                kind,
                packet_id,
                packet,
            },
            Action::Receive => ActionView::Receive,
            Action::AcquirePacketId => ActionView::AcquirePacketId,
            Action::Wait => ActionView::Wait,
            Action::Close => ActionView::Close,
            Action::Exit => ActionView::Exit,
        }
    }
}

/// The answer to one step: the events to report, in order, and the action
/// to perform.
pub struct Step {
    pub events: Vec<ClientEvent>,
    pub action: Action,
}

pub struct StepView {
    pub events: Seq<EventView>,
    pub action: ActionView,
}

impl View for Step {
    type V = StepView;

    open spec fn view(&self) -> StepView {
        StepView { events: events_view(self.events@), action: self.action@ }
    }
}

/// One connection attempt to a broker.
pub struct Session {
    phase: Phase,
    addr: String,
    connect: Option<CodecPacket>,
    connect_failure: String,
    pending: PendingTable,
}

/// A session in mathematical values: its phase, the address it connects to,
/// the handshake packet while it stands ready (and the diagnostic where it
/// could not be built), and the pending operation table.
pub struct SessionView {
    pub phase: PhaseView,
    pub addr: Seq<char>,
    pub connect: Option<CodecPacket>,
    pub connect_failure: Seq<char>,
    pub pending: PendingView,
}

/// A state together with the answer that led to it.
pub struct Outcome {
    pub next: SessionView,
    pub events: Seq<EventView>,
    pub action: ActionView,
}

/// The name under which a packet kind appears in diagnostics.
pub open spec fn packet_label(kind: PacketKind) -> Seq<char> {
    match kind {
        PacketKind::Connect => "CONNECT"@,
        PacketKind::Subscribe => "SUBSCRIBE"@,
        PacketKind::Unsubscribe => "UNSUBSCRIBE"@,
        PacketKind::Publish => "PUBLISH"@,
        PacketKind::Puback => "PUBACK"@,
        PacketKind::Pubrec => "PUBREC"@,
        PacketKind::Pubrel => "PUBREL"@,
    }
}

/// The kind of the packet in flight.
pub open spec fn kind_in_flight(after: AfterSendView) -> PacketKind {
    match after {
        AfterSendView::RegisterSubscribe { .. } => PacketKind::Subscribe,
        AfterSendView::RegisterUnsubscribe { .. } => PacketKind::Unsubscribe,
        AfterSendView::RegisterPublish { .. } => PacketKind::Publish,
        AfterSendView::AnnouncePublished { .. } => PacketKind::Publish,
        AfterSendView::Reply { kind } => kind,
    }
}

/// The delivery-guarantee level numbered `qos`, for `qos` up to 2.
pub open spec fn level_of(qos: u8) -> Qos {
    if qos == 0 {
        Qos::AtMostOnce
    } else if qos == 1 {
        Qos::AtLeastOnce
    } else {
        Qos::ExactlyOnce
    }
}

pub open spec fn invalid_subscribe_qos(qos: u8) -> Seq<char> {
    "Invalid subscribe QoS "@ + decimal(qos as nat) + ": "@ + invalid_qos_text(qos)
}

pub open spec fn invalid_publish_qos(qos: u8) -> Seq<char> {
    "Invalid publish QoS "@ + decimal(qos as nat) + ": "@ + invalid_qos_text(qos)
}

pub open spec fn invalid_subscription_topic(topic: Seq<char>) -> Seq<char> {
    "Invalid subscription topic '"@ + topic + "': "@ + malformed_text()
}

pub open spec fn invalid_publish_topic(topic: Seq<char>) -> Seq<char> {
    "Invalid publish topic '"@ + topic + "': "@ + malformed_text()
}

pub open spec fn build_failed(kind: PacketKind) -> Seq<char> {
    "Failed to build "@ + packet_label(kind) + ": "@ + malformed_text()
}

/// The diagnostic for a publish longer than a packet can be.
pub open spec fn publish_too_large() -> Seq<char> {
    "Failed to build "@ + packet_label(PacketKind::Publish) + ": "@ + "PacketTooLarge"@
}

pub open spec fn send_failed(kind: PacketKind, cause: Seq<char>) -> Seq<char> {
    "Failed to send "@ + packet_label(kind) + ": "@ + cause
}

pub open spec fn acquire_failed(cause: Seq<char>) -> Seq<char> {
    "Failed to acquire packet id: "@ + cause
}

/// The diagnostic for a subscription the broker refused.
pub open spec fn subscription_refused(topic: Seq<char>, details: Seq<char>) -> Seq<char> {
    "Subscription to '"@ + topic + "' refused: "@ + details
}

/// The reason of a disconnect by the broker: its reason code as the codec
/// prints it, followed by the broker's reason string where it sent one.
pub open spec fn broker_disconnected(reason: Seq<char>, stated: Option<Seq<char>>) -> Seq<char> {
    match stated {
        Some(text) => "Broker disconnected: "@ + reason + ": "@ + text,
        None => "Broker disconnected: "@ + reason,
    }
}

/// The packet that answers an inbound packet: an acknowledgment, a receipt
/// or a release under the same identifier.
pub open spec fn reply_built(kind: PacketKind, packet_id: u16) -> CodecPacket {
    match kind {
        PacketKind::Puback => puback_built(packet_id),
        PacketKind::Pubrec => pubrec_built(packet_id),
        _ => pubrel_built(packet_id),
    }
}

pub open spec fn unknown_ack(label: Seq<char>, packet_id: u16) -> Seq<char> {
    label + " for unknown packet id "@ + decimal(packet_id as nat)
}

impl SessionView {
    pub open spec fn in_phase(self, phase: PhaseView) -> SessionView {
        SessionView { phase, ..self }
    }

    /// The lifecycle state.
    pub open spec fn stage(self) -> Stage {
        match self.phase {
            PhaseView::Opening => Stage::Connecting,
            PhaseView::SendingConnect | PhaseView::AwaitingConnack => Stage::Handshaking,
            PhaseView::Ready | PhaseView::AwaitingId(_) | PhaseView::Sending(_) => Stage::Connected,
            PhaseView::Closing { graceful: true } => Stage::Closing,
            PhaseView::Closing { graceful: false } => Stage::Closed,
            PhaseView::Closed => Stage::Closed,
        }
    }

    /// Whether `input` is what the session is waiting for.
    pub open spec fn awaits(self, input: InputView) -> bool {
        match self.phase {
            PhaseView::Opening => input is TransportOpened,
            PhaseView::SendingConnect => input is Sent,
            PhaseView::AwaitingConnack => input is Received,
            PhaseView::Ready => input is Command || input is Received || input is Shutdown,
            PhaseView::AwaitingId(_) => input is PacketId,
            PhaseView::Sending(_) => input is Sent,
            PhaseView::Closing { .. } => input is TransportClosed,
            PhaseView::Closed => false,
        }
    }

    /// Stay connected and idle, reporting `events`.
    pub open spec fn resume(self, events: Seq<EventView>) -> Outcome {
        Outcome { next: self.in_phase(PhaseView::Ready), events, action: ActionView::Wait }
    }

    /// Stay connected and idle, reporting one error.
    pub open spec fn reject(self, text: Seq<char>) -> Outcome {
        self.resume(seq![EventView::Error(text)])
    }

    /// End the session over a failure: report it, then close the transport.
    pub open spec fn fail(self, reason: Seq<char>) -> Outcome {
        Outcome {
            next: self.in_phase(PhaseView::Closing { graceful: false }),
            events: seq![EventView::Disconnected(reason)],
            action: ActionView::Close,
        }
    }

    /// Hand out `packet` to send, reporting `events` first.
    pub open spec fn send(
        self,
        after: AfterSendView,
        packet_id: Option<u16>,
        packet: CodecPacket,
        events: Seq<EventView>,
    ) -> Outcome {
        Outcome {
            next: self.in_phase(PhaseView::Sending(after)),
            events,
            action: ActionView::Send { kind: kind_in_flight(after), packet_id, packet },
        }
    }

    /// Ask for an identifier on behalf of `command`.
    pub open spec fn acquire(self, command: CommandView) -> Outcome {
        Outcome {
            next: self.in_phase(PhaseView::AwaitingId(command)),
            events: Seq::empty(),
            action: ActionView::AcquirePacketId,
        }
    }

    /// The transport was opened, or not. A failure ends the session at
    /// once. On success the handshake packet goes out; where it could not
    /// be built, the session ends with that diagnostic.
    pub open spec fn on_transport(self, result: Result<(), TransportFailureView>) -> Outcome {
        match result {
            Err(TransportFailureView::Connect(cause)) => Outcome {
                next: self.in_phase(PhaseView::Closed),
                events: seq![EventView::Disconnected("TCP connect failed: "@ + cause)],
                action: ActionView::Exit,
            },
            Err(TransportFailureView::Attach(cause)) => Outcome {
                next: self.in_phase(PhaseView::Closed),
                events: seq![EventView::Disconnected("Attach failed: "@ + cause)],
                action: ActionView::Exit,
            },
            Ok(()) => match self.connect {
                Some(packet) => Outcome {
                    next: SessionView { phase: PhaseView::SendingConnect, connect: None, ..self },
                    events: Seq::empty(),
                    action: ActionView::Send {
                        kind: PacketKind::Connect,
                        packet_id: None,
                        packet,
                    },
                },
                None => self.fail(self.connect_failure),
            },
        }
    }

    /// The handshake packet was sent, or not.
    pub open spec fn on_connect_sent(self, result: Result<(), Seq<char>>) -> Outcome {
        match result {
            Ok(()) => Outcome {
                next: self.in_phase(PhaseView::AwaitingConnack),
                events: Seq::empty(),
                action: ActionView::Receive,
            },
            Err(cause) => self.fail("CONNECT send failed: "@ + cause),
        }
    }

    /// The reply to the handshake arrived, or receiving failed. Only a
    /// connect acknowledgment connects the session.
    pub open spec fn on_handshake_reply(self, result: Result<InboundView, Seq<char>>) -> Outcome {
        match result {
            Err(cause) => self.fail("CONNACK recv failed: "@ + cause),
            Ok(inbound) => if inbound.packet is Connack {
                self.resume(
                    seq![EventView::Connected, EventView::Status("Connected to "@ + self.addr)],
                )
            } else {
                self.fail("Expected CONNACK, got "@ + inbound.kind)
            },
        }
    }

    /// A command arrived. It is validated before anything else happens: a
    /// level above 2, a topic or filter the codec refuses, or a publish
    /// longer than a packet can be is rejected with one error, and nothing
    /// changes. A valid publish at the weakest level is built and handed
    /// out at once; every other valid command first needs an identifier.
    pub open spec fn on_command(self, command: CommandView) -> Outcome {
        match command {
            CommandView::Subscribe { topic, qos } => if qos > 2 {
                self.reject(invalid_subscribe_qos(qos))
            } else if !fits_field(topic) {
                self.reject(invalid_subscription_topic(topic))
            } else if !share_name_ok(topic) {
                self.reject(build_failed(PacketKind::Subscribe))
            } else {
                self.acquire(command)
            },
            CommandView::Unsubscribe { topic } => if !fits_field(topic) || !share_name_ok(topic) {
                self.reject(build_failed(PacketKind::Unsubscribe))
            } else {
                self.acquire(command)
            },
            CommandView::Publish { topic, payload, qos, retain } => if qos > 2 {
                self.reject(invalid_publish_qos(qos))
            } else if !publish_topic_ok(topic) {
                self.reject(invalid_publish_topic(topic))
            } else if topic.len() == 0 {
                self.reject(build_failed(PacketKind::Publish))
            } else if publish_oversized(topic, payload.len(), level_of(qos)) {
                self.reject(publish_too_large())
            } else if qos != 0 {
                self.acquire(command)
            } else {
                self.send(
                    AfterSendView::AnnouncePublished { topic },
                    None,
                    publish_built(topic, payload, 0, retain, None),
                    Seq::empty(),
                )
            },
        }
    }

    /// The identifier for `command` was allocated, or not. With an
    /// identifier the packet is built and handed out to be sent; a packet
    /// the codec refuses is reported and the command dropped.
    pub open spec fn on_packet_id(
        self,
        command: CommandView,
        result: Result<u16, Seq<char>>,
    ) -> Outcome {
        match result {
            Err(cause) => self.reject(acquire_failed(cause)),
            Ok(packet_id) => match command {
                CommandView::Subscribe { topic, qos } => if qos > 2 {
                    self.reject(invalid_subscribe_qos(qos))
                } else if !fits_field(topic) {
                    self.reject(invalid_subscription_topic(topic))
                } else if !subscribe_ok(packet_id, topic) {
                    self.reject(build_failed(PacketKind::Subscribe))
                } else {
                    self.send(
                        AfterSendView::RegisterSubscribe { packet_id, topic, qos },
                        Some(packet_id),
                        subscribe_built(packet_id, topic, qos),
                        Seq::empty(),
                    )
                },
                CommandView::Unsubscribe { topic } => if !subscribe_ok(packet_id, topic) {
                    self.reject(build_failed(PacketKind::Unsubscribe))
                } else {
                    self.send(
                        AfterSendView::RegisterUnsubscribe { packet_id, topic },
                        Some(packet_id),
                        unsubscribe_built(packet_id, topic),
                        Seq::empty(),
                    )
                },
                CommandView::Publish { topic, payload, qos, retain } => if qos > 2 {
                    self.reject(invalid_publish_qos(qos))
                } else if !publish_ok(topic, payload.len(), level_of(qos), Some(packet_id)) {
                    self.reject(build_failed(PacketKind::Publish))
                } else if publish_oversized(topic, payload.len(), level_of(qos)) {
                    self.reject(publish_too_large())
                } else {
                    self.send(
                        AfterSendView::RegisterPublish { packet_id, topic, two_phase: qos == 2 },
                        Some(packet_id),
                        publish_built(topic, payload, qos, retain, Some(packet_id)),
                        Seq::empty(),
                    )
                },
            },
        }
    }

    /// The packet in flight was sent, or not. Only now does an operation
    /// become pending; a publish at the weakest level is done, and reported
    /// so. A failure is reported and leaves the table as it was.
    pub open spec fn on_sent(self, after: AfterSendView, result: Result<(), Seq<char>>) -> Outcome {
        match result {
            Err(cause) => self.reject(send_failed(kind_in_flight(after), cause)),
            Ok(()) => match after {
                AfterSendView::RegisterSubscribe { packet_id, topic, qos } => SessionView {
                    pending: self.pending.with_subscribe(packet_id, topic, qos),
                    ..self
                }.resume(Seq::empty()),
                AfterSendView::RegisterUnsubscribe { packet_id, topic } => SessionView {
                    pending: self.pending.with_unsubscribe(packet_id, topic),
                    ..self
                }.resume(Seq::empty()),
                AfterSendView::RegisterPublish { packet_id, topic, two_phase } => SessionView {
                    pending: self.pending.with_publish(packet_id, topic, two_phase),
                    ..self
                }.resume(Seq::empty()),
                AfterSendView::AnnouncePublished { topic } => self.resume(
                    seq![EventView::Published { topic, packet_id: None }],
                ),
                AfterSendView::Reply { .. } => self.resume(Seq::empty()),
            },
        }
    }

    /// Answer an inbound packet with one of kind `kind` under the same
    /// identifier, after reporting `events`.
    pub open spec fn reply(
        self,
        kind: PacketKind,
        packet_id: u16,
        events: Seq<EventView>,
    ) -> Outcome {
        if packet_id != 0 {
            self.send(
                AfterSendView::Reply { kind },
                Some(packet_id),
                reply_built(kind, packet_id),
                events,
            )
        } else {
            self.resume(events.push(EventView::Error(build_failed(kind))))
        }
    }

    /// A publish was acknowledged or completed under `packet_id`: a pending
    /// publish under it is done, and reported so; without one nothing
    /// happens.
    pub open spec fn publish_done(self, packet_id: u16) -> Outcome {
        if self.pending.publish.contains_key(packet_id) {
            SessionView { pending: self.pending.without_publish(packet_id), ..self }.resume(
                seq![
                    EventView::Published {
                        topic: self.pending.publish[packet_id].0,
                        packet_id: Some(packet_id),
                    },
                ],
            )
        } else {
            self.resume(Seq::empty())
        }
    }

    /// A packet arrived while connected.
    pub open spec fn dispatch(self, inbound: InboundView) -> Outcome {
        match inbound.packet {
            InboundPacketView::Publish { topic, payload, qos, retain, packet_id } => {
                let received = seq![EventView::MessageReceived { topic, qos, retain, payload }];
                match packet_id {
                    Some(id) => if qos == 1 {
                        self.reply(PacketKind::Puback, id, received)
                    } else if qos == 2 {
                        self.reply(PacketKind::Pubrec, id, received)
                    } else {
                        self.resume(received)
                    },
                    None => self.resume(received),
                }
            },
            InboundPacketView::Suback { packet_id, codes, details } => if self.pending.subscribe
                .contains_key(packet_id) {
                let topic = self.pending.subscribe[packet_id].0;
                SessionView { pending: self.pending.without_subscribe(packet_id), ..self }.resume(
                    seq![
                        match granted_level(codes) {
                            Some(qos) => EventView::Subscribed { topic, qos, details },
                            None => EventView::Error(subscription_refused(topic, details)),
                        },
                    ],
                )
            } else {
                self.resume(seq![EventView::Status(unknown_ack("SUBACK"@, packet_id))])
            },
            InboundPacketView::Unsuback { packet_id, details } => if self.pending.unsubscribe
                .contains_key(packet_id) {
                SessionView { pending: self.pending.without_unsubscribe(packet_id), ..self }.resume(
                    seq![
                        EventView::Unsubscribed {
                            topic: self.pending.unsubscribe[packet_id],
                            details,
                        },
                    ],
                )
            } else {
                self.resume(seq![EventView::Status(unknown_ack("UNSUBACK"@, packet_id))])
            },
            InboundPacketView::Puback { packet_id } => self.publish_done(packet_id),
            InboundPacketView::Pubrec { packet_id } => if self.pending.awaits_completion(
                packet_id,
            ) {
                self.reply(PacketKind::Pubrel, packet_id, Seq::empty())
            } else {
                self.resume(Seq::empty())
            },
            InboundPacketView::Pubcomp { packet_id } => self.publish_done(packet_id),
            InboundPacketView::Disconnect { reason, stated } => self.fail(
                broker_disconnected(reason, stated),
            ),
            InboundPacketView::Connack | InboundPacketView::Other => self.resume(
                seq![EventView::Status("Received packet: "@ + inbound.kind)],
            ),
        }
    }

    /// A packet arrived while connected, or receiving failed, which ends
    /// the session.
    pub open spec fn on_received(self, result: Result<InboundView, Seq<char>>) -> Outcome {
        match result {
            Err(cause) => self.fail("Receive loop failed: "@ + cause),
            Ok(inbound) => self.dispatch(inbound),
        }
    }

    /// Shutdown was signalled: close the transport, report afterwards.
    pub open spec fn on_shutdown(self) -> Outcome {
        Outcome {
            next: self.in_phase(PhaseView::Closing { graceful: true }),
            events: Seq::empty(),
            action: ActionView::Close,
        }
    }

    /// The attempt to close the transport is over: the session has ended.
    /// After a shutdown signal this is reported as the last event.
    pub open spec fn on_closed(self, graceful: bool) -> Outcome {
        Outcome {
            next: self.in_phase(PhaseView::Closed),
            events: if graceful {
                seq![EventView::Status("Closed"@)]
            } else {
                Seq::empty()
            },
            action: ActionView::Exit,
        }
    }

    /// The session's answer to `input`. An input the session is not
    /// waiting for changes nothing.
    pub open spec fn step(self, input: InputView) -> Outcome {
        match (self.phase, input) {
            (PhaseView::Opening, InputView::TransportOpened(result)) => self.on_transport(result),
            (PhaseView::SendingConnect, InputView::Sent(result)) => self.on_connect_sent(result),
            (PhaseView::AwaitingConnack, InputView::Received(result)) => self.on_handshake_reply(
                result,
            ),
            (PhaseView::Ready, InputView::Command(command)) => self.on_command(command),
            (PhaseView::Ready, InputView::Received(result)) => self.on_received(result),
            (PhaseView::Ready, InputView::Shutdown) => self.on_shutdown(),
            (PhaseView::AwaitingId(command), InputView::PacketId(result)) => self.on_packet_id(
                command,
                result,
            ),
            (PhaseView::Sending(after), InputView::Sent(result)) => self.on_sent(after, result),
            (PhaseView::Closing { graceful }, InputView::TransportClosed) => self.on_closed(
                graceful,
            ),
            _ => Outcome { next: self, events: Seq::empty(), action: ActionView::Exit },
        }
    }
}

/// The session at its start: the transport is to be opened at the resolved
/// address, the handshake packet stands ready unless the login has a
/// diagnostic, and nothing is pending.
pub open spec fn initial_session(login: MqttLoginData, client_id: Seq<char>) -> SessionView {
    SessionView {
        phase: PhaseView::Opening,
        addr: broker_addr_of(login.broker@, login.port@),
        connect: if handshake_diagnostic(login, client_id) is None {
            Some(handshake_built(login, client_id))
        } else {
            None
        },
        connect_failure: match handshake_diagnostic(login, client_id) {
            Some(text) => text,
            None => Seq::empty(),
        },
        pending: PendingView::empty(),
    }
}

/// Whether a session and the answer it gave are those of `outcome`.
pub open spec fn outcome_is(session: SessionView, step: StepView, outcome: Outcome) -> bool {
    session == outcome.next && step.events == outcome.events && step.action == outcome.action
}

fn no_events() -> (events: Vec<ClientEvent>)
    ensures
        events_view(events@) == Seq::<EventView>::empty(),
{
    let events: Vec<ClientEvent> = Vec::new();
    assert(events_view(events@) =~= Seq::<EventView>::empty());
    events
}

fn one_event(event: ClientEvent) -> (events: Vec<ClientEvent>)
    ensures
        events_view(events@) == seq![event@],
{
    let mut events: Vec<ClientEvent> = Vec::new();
    events.push(event);
    assert(events_view(events@) =~= seq![event@]);
    events
}

fn two_events(first: ClientEvent, second: ClientEvent) -> (events: Vec<ClientEvent>)
    ensures
        events_view(events@) == seq![first@, second@],
{
    let mut events: Vec<ClientEvent> = Vec::new();
    events.push(first);
    events.push(second);
    assert(events_view(events@) =~= seq![first@, second@]);
    events
}

fn with_event(events: Vec<ClientEvent>, event: ClientEvent) -> (all: Vec<ClientEvent>)
    ensures
        events_view(all@) == events_view(events@).push(event@),
{
    let mut all = events;
    all.push(event);
    assert(events_view(all@) =~= events_view(events@).push(event@));
    all
}

fn label_text(kind: PacketKind) -> (label: &'static str)
    ensures
        label@ == packet_label(kind),
{
    match kind {
        PacketKind::Connect => "CONNECT",
        PacketKind::Subscribe => "SUBSCRIBE",
        PacketKind::Unsubscribe => "UNSUBSCRIBE",
        PacketKind::Publish => "PUBLISH",
        PacketKind::Puback => "PUBACK",
        PacketKind::Pubrec => "PUBREC",
        PacketKind::Pubrel => "PUBREL",
    }
}

fn kind_of(after: &AfterSend) -> (kind: PacketKind)
    ensures
        kind == kind_in_flight(after@),
{
    match after {
        AfterSend::RegisterSubscribe { .. } => PacketKind::Subscribe,
        AfterSend::RegisterUnsubscribe { .. } => PacketKind::Unsubscribe,
        AfterSend::RegisterPublish { .. } => PacketKind::Publish,
        AfterSend::AnnouncePublished { .. } => PacketKind::Publish,
        AfterSend::Reply { kind } => *kind,
    }
}

fn build_failure(kind: PacketKind, cause: &str) -> (text: String)
    ensures
        text@ == "Failed to build "@ + packet_label(kind) + ": "@ + cause@,
{
    join4("Failed to build ", label_text(kind), ": ", cause)
}

/// Whether a publish of these values is longer than a packet can be.
fn oversized(topic: &str, payload_bytes: usize, level: Qos) -> (too_long: bool)
    ensures
        too_long == publish_oversized(topic@, payload_bytes as nat, level),
{
    let topic_bytes = topic.as_bytes().len();
    let overhead: usize = match level {
        Qos::AtMostOnce => 3,
        _ => 5,
    };
    payload_bytes > MAX_REMAINING_LENGTH || topic_bytes > MAX_REMAINING_LENGTH || topic_bytes
        + payload_bytes + overhead > MAX_REMAINING_LENGTH
}

/// Builds a publish packet, unless the codec refuses the values or the
/// packet would be longer than a packet can be.
fn build_publish(
    topic: &str,
    payload: Vec<u8>,
    level: Qos,
    retain: bool,
    packet_id: Option<u16>,
) -> (r: Result<CodecPacket, String>)
    ensures
        r is Ok <==> publish_ok(topic@, payload@.len(), level, packet_id) && !publish_oversized(
            topic@,
            payload@.len(),
            level,
        ),
        r matches Ok(packet) ==> packet == publish_built(
            topic@,
            payload@,
            qos_number(level),
            retain,
            packet_id,
        ),
        r matches Err(text) ==> text@ == (if publish_ok(
            topic@,
            payload@.len(),
            level,
            packet_id,
        ) {
            publish_too_large()
        } else {
            build_failed(PacketKind::Publish)
        }),
{
    let topic_bytes = topic.as_bytes().len();
    let payload_bytes = payload.len();
    let (identified, overhead): (bool, usize) = match level {
        Qos::AtMostOnce => (packet_id.is_none(), 3),
        _ => (
            match packet_id {
                Some(id) => id != 0,
                None => false,
            },
            5,
        ),
    };
    let usable = fits(topic) && !contains_char(topic, '#') && !contains_char(topic, '+');
    let accepted = identified && usable && topic.unicode_len() > 0 && payload_bytes
        <= MAX_PAYLOAD_BYTES;
    if accepted && topic_bytes + payload_bytes + overhead > MAX_REMAINING_LENGTH {
        let label = label_text(PacketKind::Publish);
        return Err(join4("Failed to build ", label, ": ", "PacketTooLarge"));
    }
    match publish_packet(topic, payload, level, retain, packet_id) {
        Ok(packet) => Ok(packet),
        Err(cause) => Err(build_failure(PacketKind::Publish, cause.as_str())),
    }
}

impl View for Session {
    type V = SessionView;

    closed spec fn view(&self) -> SessionView {
        SessionView {
            phase: self.phase@,
            addr: self.addr@,
            connect: self.connect,
            connect_failure: self.connect_failure@,
            pending: self.pending@,
        }
    }
}

impl Session {
    /// Starts a connection attempt for `login`, as session `tab_id` of
    /// process `process_id`: reports that it is connecting and asks for
    /// the transport to be opened at the resolved address.
    pub fn connect(login: &MqttLoginData, process_id: u32, tab_id: u64) -> (started: (
        Session,
        Step,
    ))
        ensures
            started.0@ == initial_session(*login, client_identifier_of(process_id, tab_id)),
            started.1@.events == seq![EventView::Status("Connecting to broker..."@)],
            started.1@.action == (ActionView::OpenTransport {
                addr: broker_addr_of(login.broker@, login.port@),
            }),
    {
        let client_id = client_identifier(process_id, tab_id);
        let plan = connect_plan(login, client_id.as_str());
        proof {
            lemma_plan_outcome(plan, *login, client_id@);
        }
        let addr = login.broker_addr();
        let target = addr.clone();
        let built = handshake_packet(&plan);
        let session = match built {
            Ok(packet) => Session {
                phase: Phase::Opening,
                addr,
                connect: Some(packet),
                connect_failure: String::new(),
                pending: PendingTable::new(),
            },
            Err(reason) => Session {
                phase: Phase::Opening,
                addr,
                connect: None,
                connect_failure: reason,
                pending: PendingTable::new(),
            },
        };
        let events = one_event(ClientEvent::Status(String::from_str("Connecting to broker...")));
        (session, Step { events, action: Action::OpenTransport { addr: target } })
    }

    /// The lifecycle state.
    pub fn stage(&self) -> (stage: Stage)
        ensures
            stage == self@.stage(),
    {
        match &self.phase {
            Phase::Opening => Stage::Connecting,
            Phase::SendingConnect => Stage::Handshaking,
            Phase::AwaitingConnack => Stage::Handshaking,
            Phase::Ready => Stage::Connected,
            Phase::AwaitingId(_) => Stage::Connected,
            Phase::Sending(_) => Stage::Connected,
            Phase::Closing { graceful: true } => Stage::Closing,
            Phase::Closing { graceful: false } => Stage::Closed,
            Phase::Closed => Stage::Closed,
        }
    }

    /// Whether `input` is what the session is waiting for.
    pub fn awaits(&self, input: &Input) -> (awaited: bool)
        ensures
            awaited == self@.awaits(input@),
    {
        match &self.phase {
            Phase::Opening => matches!(input, Input::TransportOpened(_)),
            Phase::SendingConnect => matches!(input, Input::Sent(_)),
            Phase::AwaitingConnack => matches!(input, Input::Received(_)),
            Phase::Ready => matches!(
                input,
                Input::Command(_) | Input::Received(_) | Input::Shutdown
            ),
            Phase::AwaitingId(_) => matches!(input, Input::PacketId(_)),
            Phase::Sending(_) => matches!(input, Input::Sent(_)),
            Phase::Closing { .. } => matches!(input, Input::TransportClosed),
            Phase::Closed => false,
        }
    }

    /// Whether an operation is pending under `packet_id`.
    pub fn is_pending(&self, packet_id: u16) -> (pending: bool)
        ensures
            pending == self@.pending.is_pending(packet_id),
    {
        self.pending.is_pending(packet_id)
    }

    fn resume(&mut self, events: Vec<ClientEvent>) -> (step: Step)
        ensures
            outcome_is(final(self)@, step@, old(self)@.resume(events_view(events@))),
    {
        self.phase = Phase::Ready;
        Step { events, action: Action::Wait }
    }

    fn reject(&mut self, text: String) -> (step: Step)
        ensures
            outcome_is(final(self)@, step@, old(self)@.reject(text@)),
    {
        self.resume(one_event(ClientEvent::Error(text)))
    }

    fn fail(&mut self, reason: String) -> (step: Step)
        ensures
            outcome_is(final(self)@, step@, old(self)@.fail(reason@)),
    {
        self.phase = Phase::Closing { graceful: false };
        Step { events: one_event(ClientEvent::Disconnected(reason)), action: Action::Close }
    }

    fn send(
        &mut self,
        after: AfterSend,
        packet_id: Option<u16>,
        packet: CodecPacket,
        events: Vec<ClientEvent>,
    ) -> (step: Step)
        ensures
            outcome_is(
                final(self)@,
                step@,
                old(self)@.send(after@, packet_id, packet, events_view(events@)),
            ),
    {
        let kind = kind_of(&after);
        self.phase = Phase::Sending(after);
        Step { events, action: Action::Send { kind, packet_id, packet } }
    }

    fn acquire(&mut self, command: ClientCommand) -> (step: Step)
        ensures
            outcome_is(final(self)@, step@, old(self)@.acquire(command@)),
    {
        self.phase = Phase::AwaitingId(command);
        Step { events: no_events(), action: Action::AcquirePacketId }
    }

    fn transport_opened(&mut self, result: Result<(), TransportFailure>) -> (step: Step)
        ensures
            outcome_is(final(self)@, step@, old(self)@.on_transport(opened_view(result))),
    {
        match result {
            Err(TransportFailure::Connect(cause)) => {
                self.phase = Phase::Closed;
                let reason = join2("TCP connect failed: ", cause.as_str());
                Step { events: one_event(ClientEvent::Disconnected(reason)), action: Action::Exit }
            },
            Err(TransportFailure::Attach(cause)) => {
                self.phase = Phase::Closed;
                let reason = join2("Attach failed: ", cause.as_str());
                Step { events: one_event(ClientEvent::Disconnected(reason)), action: Action::Exit }
            },
            Ok(()) => match self.connect.take() {
                Some(packet) => {
                    self.phase = Phase::SendingConnect;
                    Step {
                        events: no_events(),
                        action: Action::Send { kind: PacketKind::Connect, packet_id: None, packet },
                    }
                },
                None => {
                    let reason = self.connect_failure.clone();
                    self.fail(reason)
                },
            },
        }
    }

    fn connect_sent(&mut self, result: Result<(), String>) -> (step: Step)
        ensures
            outcome_is(final(self)@, step@, old(self)@.on_connect_sent(sent_view(result))),
    {
        match result {
            Ok(()) => {
                self.phase = Phase::AwaitingConnack;
                Step { events: no_events(), action: Action::Receive }
            },
            Err(cause) => self.fail(join2("CONNECT send failed: ", cause.as_str())),
        }
    }

    fn handshake_reply(&mut self, result: Result<Inbound, String>) -> (step: Step)
        ensures
            outcome_is(final(self)@, step@, old(self)@.on_handshake_reply(received_view(result))),
    {
        match result {
            Err(cause) => self.fail(join2("CONNACK recv failed: ", cause.as_str())),
            Ok(inbound) => match inbound.packet {
                InboundPacket::Connack => {
                    let status = join2("Connected to ", self.addr.as_str());
                    self.resume(two_events(ClientEvent::Connected, ClientEvent::Status(status)))
                },
                _ => self.fail(join2("Expected CONNACK, got ", inbound.kind.as_str())),
            },
        }
    }

    fn command(&mut self, command: ClientCommand) -> (step: Step)
        ensures
            outcome_is(final(self)@, step@, old(self)@.on_command(command@)),
    {
        match command {
            ClientCommand::Subscribe { topic, qos } => match qos_level(qos) {
                Err(cause) => {
                    let level = decimal_string(qos as u64);
                    self.reject(
                        join4("Invalid subscribe QoS ", level.as_str(), ": ", cause.as_str()),
                    )
                },
                Ok(level) => {
                    if let Some(cause) = sub_entry_error(topic.as_str(), level) {
                        return self.reject(
                            join4(
                                "Invalid subscription topic '",
                                topic.as_str(),
                                "': ",
                                cause.as_str(),
                            ),
                        );
                    }
                    if let Some(cause) = share_name_error(topic.as_str()) {
                        return self.reject(build_failure(PacketKind::Subscribe, cause.as_str()));
                    }
                    self.acquire(ClientCommand::Subscribe { topic, qos })
                },
            },
            ClientCommand::Unsubscribe { topic } => {
                if let Some(cause) = unsubscribe_filter_error(topic.as_str()) {
                    return self.reject(build_failure(PacketKind::Unsubscribe, cause.as_str()));
                }
                self.acquire(ClientCommand::Unsubscribe { topic })
            },
            ClientCommand::Publish { topic, payload, qos, retain } => match qos_level(qos) {
                Err(cause) => {
                    let level = decimal_string(qos as u64);
                    self.reject(join4("Invalid publish QoS ", level.as_str(), ": ", cause.as_str()))
                },
                Ok(level) => {
                    if let Some(cause) = publish_topic_error(topic.as_str()) {
                        return self.reject(
                            join4("Invalid publish topic '", topic.as_str(), "': ", cause.as_str()),
                        );
                    }
                    if let Some(cause) = publish_draft_error(topic.as_str()) {
                        return self.reject(build_failure(PacketKind::Publish, cause.as_str()));
                    }
                    if oversized(topic.as_str(), payload.len(), level) {
                        let label = label_text(PacketKind::Publish);
                        return self.reject(
                            join4("Failed to build ", label, ": ", "PacketTooLarge"),
                        );
                    }
                    if qos != 0 {
                        return self.acquire(ClientCommand::Publish { topic, payload, qos, retain });
                    }
                    match build_publish(topic.as_str(), payload, level, retain, None) {
                        Ok(packet) => self.send(
                            AfterSend::AnnouncePublished { topic },
                            None,
                            packet,
                            no_events(),
                        ),
                        Err(text) => self.reject(text),
                    }
                },
            },
        }
    }

    fn packet_id(&mut self, command: ClientCommand, result: Result<u16, String>) -> (step: Step)
        ensures
            outcome_is(final(self)@, step@, old(self)@.on_packet_id(command@, id_view(result))),
    {
        let packet_id = match result {
            Ok(packet_id) => packet_id,
            Err(cause) => {
                return self.reject(join2("Failed to acquire packet id: ", cause.as_str()));
            },
        };
        match command {
            ClientCommand::Subscribe { topic, qos } => match qos_level(qos) {
                Err(cause) => {
                    let level = decimal_string(qos as u64);
                    self.reject(
                        join4("Invalid subscribe QoS ", level.as_str(), ": ", cause.as_str()),
                    )
                },
                Ok(level) => match subscribe_packet(packet_id, topic.as_str(), level) {
                    Ok(packet) => self.send(
                        AfterSend::RegisterSubscribe { packet_id, topic, qos },
                        Some(packet_id),
                        packet,
                        no_events(),
                    ),
                    Err(cause) => if fits(topic.as_str()) {
                        self.reject(build_failure(PacketKind::Subscribe, cause.as_str()))
                    } else {
                        self.reject(
                            join4(
                                "Invalid subscription topic '",
                                topic.as_str(),
                                "': ",
                                cause.as_str(),
                            ),
                        )
                    },
                },
            },
            ClientCommand::Unsubscribe { topic } => match unsubscribe_packet(
                packet_id,
                topic.as_str(),
            ) {
                Ok(packet) => self.send(
                    AfterSend::RegisterUnsubscribe { packet_id, topic },
                    Some(packet_id),
                    packet,
                    no_events(),
                ),
                Err(cause) => self.reject(build_failure(PacketKind::Unsubscribe, cause.as_str())),
            },
            ClientCommand::Publish { topic, payload, qos, retain } => match qos_level(qos) {
                Err(cause) => {
                    let level = decimal_string(qos as u64);
                    self.reject(join4("Invalid publish QoS ", level.as_str(), ": ", cause.as_str()))
                },
                Ok(level) => match build_publish(
                    topic.as_str(),
                    payload,
                    level,
                    retain,
                    Some(packet_id),
                ) {
                    Ok(packet) => self.send(
                        AfterSend::RegisterPublish { packet_id, topic, two_phase: qos == 2 },
                        Some(packet_id),
                        packet,
                        no_events(),
                    ),
                    Err(text) => self.reject(text),
                },
            },
        }
    }

    fn sent(&mut self, after: AfterSend, result: Result<(), String>) -> (step: Step)
        ensures
            outcome_is(final(self)@, step@, old(self)@.on_sent(after@, sent_view(result))),
    {
        if let Err(cause) = result {
            let kind = kind_of(&after);
            return self.reject(join4("Failed to send ", label_text(kind), ": ", cause.as_str()));
        }
        match after {
            AfterSend::RegisterSubscribe { packet_id, topic, qos } => {
                self.pending.register_subscribe(packet_id, topic, qos);
                self.resume(no_events())
            },
            AfterSend::RegisterUnsubscribe { packet_id, topic } => {
                self.pending.register_unsubscribe(packet_id, topic);
                self.resume(no_events())
            },
            AfterSend::RegisterPublish { packet_id, topic, two_phase } => {
                self.pending.register_publish(packet_id, topic, two_phase);
                self.resume(no_events())
            },
            AfterSend::AnnouncePublished { topic } => self.resume(
                one_event(ClientEvent::Published { topic, packet_id: None }),
            ),
            AfterSend::Reply { .. } => self.resume(no_events()),
        }
    }

    fn reply(&mut self, kind: PacketKind, packet_id: u16, events: Vec<ClientEvent>) -> (step: Step)
        requires
            kind is Puback || kind is Pubrec || kind is Pubrel,
        ensures
            outcome_is(
                final(self)@,
                step@,
                old(self)@.reply(kind, packet_id, events_view(events@)),
            ),
    {
        let built = match kind {
            PacketKind::Puback => puback_packet(packet_id),
            PacketKind::Pubrec => pubrec_packet(packet_id),
            _ => pubrel_packet(packet_id),
        };
        match built {
            Ok(packet) => self.send(AfterSend::Reply { kind }, Some(packet_id), packet, events),
            Err(cause) => {
                let error = ClientEvent::Error(build_failure(kind, cause.as_str()));
                self.resume(with_event(events, error))
            },
        }
    }

    fn publish_done(&mut self, packet_id: u16) -> (step: Step)
        ensures
            outcome_is(final(self)@, step@, old(self)@.publish_done(packet_id)),
    {
        match self.pending.take_publish(packet_id) {
            Some((topic, _)) => self.resume(
                one_event(ClientEvent::Published { topic, packet_id: Some(packet_id) }),
            ),
            None => self.resume(no_events()),
        }
    }

    fn dispatch(&mut self, inbound: Inbound) -> (step: Step)
        ensures
            outcome_is(final(self)@, step@, old(self)@.dispatch(inbound@)),
    {
        match inbound.packet {
            InboundPacket::Publish { topic, payload, qos, retain, packet_id } => {
                let received = one_event(
                    ClientEvent::MessageReceived { topic, qos, retain, payload },
                );
                match packet_id {
                    Some(id) => if qos == 1 {
                        self.reply(PacketKind::Puback, id, received)
                    } else if qos == 2 {
                        self.reply(PacketKind::Pubrec, id, received)
                    } else {
                        self.resume(received)
                    },
                    None => self.resume(received),
                }
            },
            InboundPacket::Suback { packet_id, codes, details } => match self.pending
                .take_subscribe(packet_id) {
                Some((topic, _)) => if codes.len() > 0 && codes[0] <= 2 {
                    let qos = codes[0];
                    self.resume(one_event(ClientEvent::Subscribed { topic, qos, details }))
                } else {
                    let text = join4(
                        "Subscription to '",
                        topic.as_str(),
                        "' refused: ",
                        details.as_str(),
                    );
                    self.resume(one_event(ClientEvent::Error(text)))
                },
                None => {
                    let id = decimal_string(packet_id as u64);
                    let text = join3("SUBACK", " for unknown packet id ", id.as_str());
                    self.resume(one_event(ClientEvent::Status(text)))
                },
            },
            InboundPacket::Unsuback { packet_id, details } => match self.pending.take_unsubscribe(
                packet_id,
            ) {
                Some(topic) => self.resume(one_event(ClientEvent::Unsubscribed { topic, details })),
                None => {
                    let id = decimal_string(packet_id as u64);
                    let text = join3("UNSUBACK", " for unknown packet id ", id.as_str());
                    self.resume(one_event(ClientEvent::Status(text)))
                },
            },
            InboundPacket::Puback { packet_id } => self.publish_done(packet_id),
            InboundPacket::Pubrec { packet_id } => if self.pending.awaits_completion(packet_id) {
                self.reply(PacketKind::Pubrel, packet_id, no_events())
            } else {
                self.resume(no_events())
            },
            InboundPacket::Pubcomp { packet_id } => self.publish_done(packet_id),
            InboundPacket::Disconnect { reason, stated } => match stated {
                Some(text) => self.fail(
                    join4("Broker disconnected: ", reason.as_str(), ": ", text.as_str()),
                ),
                None => self.fail(join2("Broker disconnected: ", reason.as_str())),
            },
            _ => {
                let text = join2("Received packet: ", inbound.kind.as_str());
                self.resume(one_event(ClientEvent::Status(text)))
            },
        }
    }

    fn received(&mut self, result: Result<Inbound, String>) -> (step: Step)
        ensures
            outcome_is(final(self)@, step@, old(self)@.on_received(received_view(result))),
    {
        match result {
            Err(cause) => self.fail(join2("Receive loop failed: ", cause.as_str())),
            Ok(inbound) => self.dispatch(inbound),
        }
    }

    fn closed(&mut self, graceful: bool) -> (step: Step)
        ensures
            outcome_is(final(self)@, step@, old(self)@.on_closed(graceful)),
    {
        self.phase = Phase::Closed;
        let events = if graceful {
            one_event(ClientEvent::Status(String::from_str("Closed")))
        } else {
            no_events()
        };
        Step { events, action: Action::Exit }
    }

    /// Takes what just happened, if the session is waiting for it, and
    /// answers with the events to report and the action to perform next.
    /// An input the session is not waiting for is refused and changes
    /// nothing.
    pub fn try_step(&mut self, input: Input) -> (answer: Option<Step>)
        ensures
            match answer {
                Some(step) => old(self)@.awaits(input@) && outcome_is(
                    final(self)@,
                    step@,
                    old(self)@.step(input@),
                ),
                None => !old(self)@.awaits(input@) && final(self)@ == old(self)@,
            },
    {
        if self.awaits(&input) {
            Some(self.step(input))
        } else {
            None
        }
    }

    /// Takes what just happened and answers with the events to report and
    /// the action to perform next.
    pub fn step(&mut self, input: Input) -> (step: Step)
        requires
            old(self)@.awaits(input@),
        ensures
            outcome_is(final(self)@, step@, old(self)@.step(input@)),
    {
        let mut phase = Phase::Closed;
        core::mem::swap(&mut self.phase, &mut phase);
        match (phase, input) {
            (Phase::Opening, Input::TransportOpened(result)) => self.transport_opened(result),
            (Phase::SendingConnect, Input::Sent(result)) => self.connect_sent(result),
            (Phase::AwaitingConnack, Input::Received(result)) => self.handshake_reply(result),
            (Phase::Ready, Input::Command(command)) => self.command(command),
            (Phase::Ready, Input::Received(result)) => self.received(result),
            (Phase::Ready, Input::Shutdown) => {
                self.phase = Phase::Closing { graceful: true };
                Step { events: no_events(), action: Action::Close }
            },
            (Phase::AwaitingId(command), Input::PacketId(result)) => self.packet_id(
                command,
                result,
            ),
            (Phase::Sending(after), Input::Sent(result)) => self.sent(after, result),
            (Phase::Closing { graceful }, Input::TransportClosed) => self.closed(graceful),
            _ => Step { events: no_events(), action: Action::Exit },
        }
    }
}

} // verus!
