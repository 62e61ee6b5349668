//! The boundary to the protocol codec: the packets the session asks it to
//! build, the plain form of the packets it decodes, and the conditions under
//! which each builder accepts its arguments.

use vstd::prelude::*;
use vstd::string::*;
use vstd::utf8::encode_utf8;
use mqtt_endpoint_tokio::mqtt_ep::packet::v5_0;
use mqtt_endpoint_tokio::mqtt_ep::packet::{Packet, Property, Qos, SubEntry, SubOpts};
use mqtt_endpoint_tokio::mqtt_ep::result_code::MqttError;

verus! {

/// The codec's delivery-guarantee level, `mqtt_ep::packet::Qos`, with its
/// three variants.
#[verifier::external_type_specification]
pub struct ExQos(Qos);

/// A packet in the codec's own representation, `mqtt_ep::packet::Packet`.
/// The codec's packet types are generic over traits of the codec, which
/// keeps them from being declared to the verifier as they are; this struct
/// carries one through instead. Nothing is known of what a value holds:
/// contracts describe a packet by the values it was built from.
#[verifier::external_body]
pub struct CodecPacket {
    pub inner: Packet,
}

/// Longest text or binary field, in bytes, that the codec encodes.
pub const MAX_FIELD_BYTES: usize = 65535;

/// Longest publish payload, in bytes, that the codec accepts.
pub const MAX_PAYLOAD_BYTES: usize = 268435455;

/// Most bytes that may follow the fixed header of a packet.
pub const MAX_REMAINING_LENGTH: usize = 268435455;

/// Keep-alive interval, in seconds, announced in the handshake.
pub const KEEP_ALIVE_SECONDS: u16 = 60;

/// Whether the UTF-8 encoding of `s` fits a length-prefixed field.
pub open spec fn fits_field(s: Seq<char>) -> bool {
    encode_utf8(s).len() <= MAX_FIELD_BYTES
}

/// The prefix that marks a shared-subscription filter.
pub open spec fn share_prefix() -> Seq<char> {
    seq!['$', 's', 'h', 'a', 'r', 'e', '/']
}

/// Whether `filter` is not a shared-subscription filter, or is one with a
/// non-empty share name free of `+` and `#` that is followed by `/`.
pub open spec fn share_name_ok(filter: Seq<char>) -> bool {
    let n = share_prefix().len() as int;
    if filter.len() >= n && filter.subrange(0, n) == share_prefix() {
        let rest = filter.subrange(n, filter.len() as int);
        exists|p: int|
            1 <= p < rest.len() && #[trigger] rest[p] == '/' && forall|i: int|
                0 <= i < p ==> (#[trigger] rest[i]) != '/' && rest[i] != '+' && rest[i] != '#'
    } else {
        true
    }
}

/// Whether `topic` may name the destination of a publish: it fits a field
/// and holds no wildcard.
pub open spec fn publish_topic_ok(topic: Seq<char>) -> bool {
    fits_field(topic) && !topic.contains('#') && !topic.contains('+')
}

/// The text the codec prints for a malformed packet.
pub open spec fn malformed_text() -> Seq<char> {
    "MalformedPacket"@
}

/// The text the codec prints for a protocol violation.
pub open spec fn protocol_error_text() -> Seq<char> {
    "ProtocolError"@
}

/// The text printed when `qos` names no delivery-guarantee level.
pub open spec fn invalid_qos_text(qos: u8) -> Seq<char> {
    "No discriminant in enum `Qos` matches the value `"@ + crate::text::decimal(qos as nat) + "`"@
}

/// The number of a delivery-guarantee level.
pub open spec fn qos_number(qos: Qos) -> u8 {
    match qos {
        Qos::AtMostOnce => 0,
        Qos::AtLeastOnce => 1,
        Qos::ExactlyOnce => 2,
    }
}

/// Whether the codec builds a subscribe packet from these values.
pub open spec fn subscribe_ok(packet_id: u16, topic: Seq<char>) -> bool {
    fits_field(topic) && packet_id != 0 && share_name_ok(topic)
}

/// Whether the codec builds a publish packet from these values: a usable,
/// non-empty topic, an identifier exactly when the level is above the
/// weakest, and a payload within the size limit.
pub open spec fn publish_ok(
    topic: Seq<char>,
    payload_len: nat,
    qos: Qos,
    packet_id: Option<u16>,
) -> bool {
    &&& publish_topic_ok(topic)
    &&& topic.len() > 0
    &&& payload_len <= MAX_PAYLOAD_BYTES
    &&& if qos == Qos::AtMostOnce {
        packet_id is None
    } else {
        packet_id matches Some(id) && id != 0
    }
}

/// The bytes a publish packet holds besides topic and payload: the length
/// prefix of the topic, the property length and, above the weakest level,
/// the identifier.
pub open spec fn publish_overhead(qos: Qos) -> nat {
    if qos == Qos::AtMostOnce {
        3
    } else {
        5
    }
}

/// Whether a publish of these values is longer than a packet can be.
pub open spec fn publish_oversized(topic: Seq<char>, payload_len: nat, qos: Qos) -> bool {
    encode_utf8(topic).len() + payload_len + publish_overhead(qos) > MAX_REMAINING_LENGTH
}

/// The subscribe packet the codec builds for one filter at level `qos`
/// under `packet_id`.
pub uninterp spec fn subscribe_built(packet_id: u16, topic: Seq<char>, qos: u8) -> CodecPacket;

/// The unsubscribe packet the codec builds for one filter under
/// `packet_id`.
pub uninterp spec fn unsubscribe_built(packet_id: u16, topic: Seq<char>) -> CodecPacket;

/// The publish packet the codec builds from these values.
pub uninterp spec fn publish_built(
    topic: Seq<char>,
    payload: Seq<u8>,
    qos: u8,
    retain: bool,
    packet_id: Option<u16>,
) -> CodecPacket;

/// The publish acknowledgment the codec builds under `packet_id`.
pub uninterp spec fn puback_built(packet_id: u16) -> CodecPacket;

/// The publish-received acknowledgment the codec builds under `packet_id`.
pub uninterp spec fn pubrec_built(packet_id: u16) -> CodecPacket;

/// The publish-release packet the codec builds under `packet_id`.
pub uninterp spec fn pubrel_built(packet_id: u16) -> CodecPacket;

/// The handshake packet the codec builds from these values; the last will
/// is given as topic, payload, level and retain flag.
pub uninterp spec fn connect_built(
    client_id: Seq<char>,
    keep_alive: u16,
    clean_start: bool,
    user_name: Option<Seq<char>>,
    password: Option<Seq<char>>,
    will: Option<(Seq<char>, Seq<char>, u8, bool)>,
) -> CodecPacket;

/// A text that may be absent, as a sequence.
pub open spec fn text_of(text: Option<String>) -> Option<Seq<char>> {
    match text {
        Some(t) => Some(t@),
        None => None,
    }
}

/// A last will that may be absent, in plain values.
pub open spec fn will_of(will: Option<LastWill>) -> Option<(Seq<char>, Seq<char>, u8, bool)> {
    match will {
        Some(w) => Some((w.topic@, w.payload@, qos_number(w.qos), w.retain)),
        None => None,
    }
}

/// The last-will message announced in the handshake.
pub struct LastWill {
    pub topic: String,
    pub payload: String,
    pub qos: Qos,
    pub retain: bool,
}

/// Everything the handshake packet is built from.
pub struct ConnectPlan {
    pub client_id: String,
    pub keep_alive: u16,
    pub clean_start: bool,
    pub user_name: Option<String>,
    pub password: Option<String>,
    pub will: Option<LastWill>,
}

impl ConnectPlan {
    /// Whether every text and binary field of the plan fits the codec's
    /// field length.
    pub open spec fn fits(&self) -> bool {
        &&& fits_field(self.client_id@)
        &&& (self.user_name matches Some(name) ==> fits_field(name@))
        &&& (self.password matches Some(pwd) ==> fits_field(pwd@))
        &&& (self.will matches Some(will) ==> fits_field(will.topic@) && fits_field(
            will.payload@,
        ))
    }

    /// Whether the codec builds a handshake packet from the plan: every field
    /// fits, and a password comes only with a user name.
    pub open spec fn accepted(&self) -> bool {
        self.fits() && (self.password is Some ==> self.user_name is Some)
    }

    /// The handshake packet the codec builds from the plan.
    pub open spec fn built(&self) -> CodecPacket {
        connect_built(
            self.client_id@,
            self.keep_alive,
            self.clean_start,
            text_of(self.user_name),
            text_of(self.password),
            will_of(self.will),
        )
    }
}

/// Whether the UTF-8 encoding of `s` fits a length-prefixed field.
pub fn fits(s: &str) -> (b: bool)
    ensures
        b == fits_field(s@),
{
    s.as_bytes().len() <= MAX_FIELD_BYTES
}

/// Calls `Qos::try_from` on a level number. The three levels 0, 1 and 2 map
/// to their variants; any other number is refused with the text that names
/// the number.
#[verifier::external_body]
pub(crate) fn qos_level(qos: u8) -> (r: Result<Qos, String>)
    ensures
        r is Ok <==> qos <= 2,
        r matches Ok(level) ==> qos_number(level) == qos,
        r matches Err(text) ==> text@ == invalid_qos_text(qos),
{
    Qos::try_from(qos).map_err(|e| e.to_string())
}

/// Calls `SubEntry::new` with options at the given level and reports its
/// error, if any. The call fails exactly when the filter does not fit a
/// field, and then with the codec's malformed-packet error.
#[verifier::external_body]
pub(crate) fn sub_entry_error(topic: &str, qos: Qos) -> (r: Option<String>)
    ensures
        r is None <==> fits_field(topic@),
        r matches Some(text) ==> text@ == malformed_text(),
{
    SubEntry::new(topic, SubOpts::new().set_qos(qos)).err().map(|e| e.to_string())
}

/// Calls `v5_0::common::validate_share_name` and reports its error, if any.
/// The call fails exactly when the filter starts with the share prefix and
/// its share name is not well formed, and then with the codec's
/// malformed-packet error.
#[verifier::external_body]
pub(crate) fn share_name_error(topic: &str) -> (r: Option<String>)
    ensures
        r is None <==> share_name_ok(topic@),
        r matches Some(text) ==> text@ == malformed_text(),
{
    v5_0::common::validate_share_name(topic).err().map(|e| e.to_string())
}

/// Calls the unsubscribe builder's `entries` with one filter and reports its
/// error, if any. The call fails exactly when the filter does not fit a
/// field or its share name is not well formed, and then with the codec's
/// malformed-packet error.
#[verifier::external_body]
pub(crate) fn unsubscribe_filter_error(topic: &str) -> (r: Option<String>)
    ensures
        r is None <==> (fits_field(topic@) && share_name_ok(topic@)),
        r matches Some(text) ==> text@ == malformed_text(),
{
    v5_0::Unsubscribe::builder().entries(vec![topic]).err().map(|e| e.to_string())
}

/// Builds a subscribe packet for one filter through `SubEntry::new` and
/// `Subscribe::builder`. The build succeeds exactly when the filter fits a
/// field, the identifier is not zero and a share name, if present, is well
/// formed; every failure is the codec's malformed-packet error.
#[verifier::external_body]
pub(crate) fn subscribe_packet(packet_id: u16, topic: &str, qos: Qos) -> (r: Result<
    CodecPacket,
    String,
>)
    ensures
        r is Ok <==> subscribe_ok(packet_id, topic@),
        r matches Ok(packet) ==> packet == subscribe_built(packet_id, topic@, qos_number(qos)),
        r matches Err(text) ==> text@ == malformed_text(),
{
    SubEntry::new(topic, SubOpts::new().set_qos(qos))
        .and_then(|e| v5_0::Subscribe::builder().packet_id(packet_id).entries(vec![e]).build())
        .map(|p| CodecPacket { inner: p.into() })
        .map_err(|e| e.to_string())
}

/// Builds an unsubscribe packet for one filter through
/// `Unsubscribe::builder`. It succeeds on the same condition as a subscribe
/// packet, and every failure is the codec's malformed-packet error.
#[verifier::external_body]
pub(crate) fn unsubscribe_packet(packet_id: u16, topic: &str) -> (r: Result<CodecPacket, String>)
    ensures
        r is Ok <==> subscribe_ok(packet_id, topic@),
        r matches Ok(packet) ==> packet == unsubscribe_built(packet_id, topic@),
        r matches Err(text) ==> text@ == malformed_text(),
{
    v5_0::Unsubscribe::builder()
        .packet_id(packet_id)
        .entries(vec![topic])
        .and_then(|b| b.build())
        .map(|p| CodecPacket { inner: p.into() })
        .map_err(|e| e.to_string())
}

/// Calls the publish builder's `topic_name` and reports its error, if any.
/// The call fails exactly when the topic does not fit a field or holds `#`
/// or `+`, and then with the codec's malformed-packet error.
#[verifier::external_body]
pub(crate) fn publish_topic_error(topic: &str) -> (r: Option<String>)
    ensures
        r is None <==> publish_topic_ok(topic@),
        r matches Some(text) ==> text@ == malformed_text(),
{
    v5_0::Publish::builder().topic_name(topic).err().map(|e| e.to_string())
}

/// Builds a publish of `topic` without payload at the weakest level through
/// `Publish::builder` and reports the error, if any. The build fails
/// exactly when the topic is not usable or is empty, and then with the
/// codec's malformed-packet error.
#[verifier::external_body]
pub(crate) fn publish_draft_error(topic: &str) -> (r: Option<String>)
    ensures
        r is None <==> (publish_topic_ok(topic@) && topic@.len() > 0),
        r matches Some(text) ==> text@ == malformed_text(),
{
    v5_0::Publish::builder().topic_name(topic).and_then(|b| b.build()).err().map(|e| e.to_string())
}

/// Builds a publish packet through `Publish::builder`. The build succeeds
/// exactly on `publish_ok`; every failure is the codec's malformed-packet
/// error. The builder does not return for values it accepts that make the
/// packet longer than a packet can be, so these are left out.
#[verifier::external_body]
pub(crate) fn publish_packet(
    topic: &str,
    payload: Vec<u8>,
    qos: Qos,
    retain: bool,
    packet_id: Option<u16>,
) -> (r: Result<CodecPacket, String>)
    requires
        publish_ok(topic@, payload@.len(), qos, packet_id) ==> !publish_oversized(
            topic@,
            payload@.len(),
            qos,
        ),
    ensures
        r is Ok <==> publish_ok(topic@, payload@.len(), qos, packet_id),
        r matches Ok(packet) ==> packet == publish_built(
            topic@,
            payload@,
            qos_number(qos),
            retain,
            packet_id,
        ),
        r matches Err(text) ==> text@ == malformed_text(),
{
    v5_0::Publish::builder()
        .topic_name(topic)
        .map(|b| b.qos(qos).retain(retain).payload(payload).packet_id(packet_id))
        .and_then(|b| b.build())
        .map(|p| CodecPacket { inner: p.into() })
        .map_err(|e| e.to_string())
}

/// Builds a publish acknowledgment through `Puback::builder`. It succeeds
/// exactly when the identifier is not zero; the failure is the codec's
/// malformed-packet error.
#[verifier::external_body]
pub(crate) fn puback_packet(packet_id: u16) -> (r: Result<CodecPacket, String>)
    ensures
        r is Ok <==> packet_id != 0,
        r matches Ok(packet) ==> packet == puback_built(packet_id),
        r matches Err(text) ==> text@ == malformed_text(),
{
    v5_0::Puback::builder()
        .packet_id(packet_id)
        .build()
        .map(|p| CodecPacket { inner: p.into() })
        .map_err(|e| e.to_string())
}

/// Builds a publish-received acknowledgment through `Pubrec::builder`, on
/// the same condition as a publish acknowledgment.
#[verifier::external_body]
pub(crate) fn pubrec_packet(packet_id: u16) -> (r: Result<CodecPacket, String>)
    ensures
        r is Ok <==> packet_id != 0,
        r matches Ok(packet) ==> packet == pubrec_built(packet_id),
        r matches Err(text) ==> text@ == malformed_text(),
{
    v5_0::Pubrec::builder()
        .packet_id(packet_id)
        .build()
        .map(|p| CodecPacket { inner: p.into() })
        .map_err(|e| e.to_string())
}

/// Builds a publish-release packet through `Pubrel::builder`, on the same
/// condition as a publish acknowledgment.
#[verifier::external_body]
pub(crate) fn pubrel_packet(packet_id: u16) -> (r: Result<CodecPacket, String>)
    ensures
        r is Ok <==> packet_id != 0,
        r matches Ok(packet) ==> packet == pubrel_built(packet_id),
        r matches Err(text) ==> text@ == malformed_text(),
{
    v5_0::Pubrel::builder()
        .packet_id(packet_id)
        .build()
        .map(|p| CodecPacket { inner: p.into() })
        .map_err(|e| e.to_string())
}

/// Builds the handshake packet through `Connect::builder`, applying the
/// plan's setters in the order client identifier, keep-alive, clean start,
/// user name, password, last will. A setter fails, with the codec's
/// malformed-packet error, when its field does not fit; with every field
/// fitting, the build fails exactly when a password comes without a user
/// name, and then with the codec's protocol error.
#[verifier::external_body]
pub(crate) fn connect_packet(plan: &ConnectPlan) -> (r: Result<CodecPacket, String>)
    ensures
        r is Ok <==> plan.accepted(),
        r matches Ok(packet) ==> packet == connect_built(
            plan.client_id@,
            plan.keep_alive,
            plan.clean_start,
            text_of(plan.user_name),
            text_of(plan.password),
            will_of(plan.will),
        ),
        r matches Err(text) ==> text@ == (if plan.fits() {
            protocol_error_text()
        } else {
            malformed_text()
        }),
{
    let build = || -> Result<v5_0::Connect, MqttError> {
        let mut b = v5_0::Connect::builder().client_id(&plan.client_id)?;
        b = b.keep_alive(plan.keep_alive).clean_start(plan.clean_start);
        if let Some(name) = &plan.user_name {
            b = b.user_name(name)?;
        }
        if let Some(pwd) = &plan.password {
            b = b.password(pwd.as_bytes().to_vec())?;
        }
        if let Some(w) = &plan.will {
            b = b.will_message(&w.topic, w.payload.as_bytes().to_vec(), w.qos, w.retain)?;
        }
        b.build()
    };
    build().map(|p| CodecPacket { inner: p.into() }).map_err(|e| e.to_string())
}

/// A received packet in plain values: the packet type as the codec prints
/// it, and what the session reads of the packet.
pub struct Inbound {
    pub kind: String,
    pub packet: InboundPacket,
}

/// What the session reads of a received packet. A subscribe acknowledgment
/// carries its reason codes as numbers and as the codec prints them; a
/// disconnect carries its reason code as the codec prints it and the reason
/// string, where the broker sent one.
#[allow(inconsistent_fields)]
pub enum InboundPacket {
    Connack,
    Publish { topic: String, payload: Vec<u8>, qos: u8, retain: bool, packet_id: Option<u16> },
    Suback { packet_id: u16, codes: Vec<u8>, details: String },
    Unsuback { packet_id: u16, details: String },
    Puback { packet_id: u16 },
    Pubrec { packet_id: u16 },
    Pubcomp { packet_id: u16 },
    Disconnect { reason: String, stated: Option<String> },
    Other,
}

/// A received packet with its texts as character sequences.
pub struct InboundView {
    pub kind: Seq<char>,
    pub packet: InboundPacketView,
}

/// What the session reads of a received packet, with texts as sequences.
#[allow(inconsistent_fields)]
pub enum InboundPacketView {
    Connack,
    Publish { topic: Seq<char>, payload: Seq<u8>, qos: u8, retain: bool, packet_id: Option<u16> },
    Suback { packet_id: u16, codes: Seq<u8>, details: Seq<char> },
    Unsuback { packet_id: u16, details: Seq<char> },
    Puback { packet_id: u16 },
    Pubrec { packet_id: u16 },
    Pubcomp { packet_id: u16 },
    Disconnect { reason: Seq<char>, stated: Option<Seq<char>> },
    Other,
}

impl View for InboundPacket {
    type V = InboundPacketView;

    open spec fn view(&self) -> InboundPacketView {
        match *self {
            InboundPacket::Connack => InboundPacketView::Connack,
            InboundPacket::Publish { topic, payload, qos, retain, packet_id } => {
                InboundPacketView::Publish {
                    topic: topic@,
                    payload: payload@,
                    qos,
                    retain,
                    packet_id,
                }
            },
            InboundPacket::Suback { packet_id, codes, details } => InboundPacketView::Suback {
                packet_id,
                codes: codes@,
                details: details@,
            },
            InboundPacket::Unsuback { packet_id, details } => InboundPacketView::Unsuback {
                packet_id,
                details: details@,
            },
            InboundPacket::Puback { packet_id } => InboundPacketView::Puback { packet_id },
            InboundPacket::Pubrec { packet_id } => InboundPacketView::Pubrec { packet_id },
            InboundPacket::Pubcomp { packet_id } => InboundPacketView::Pubcomp { packet_id },
            InboundPacket::Disconnect { reason, stated } => InboundPacketView::Disconnect {
                reason: reason@,
                stated: text_of(stated),
            },
            InboundPacket::Other => InboundPacketView::Other,
        }
    }
}

impl View for Inbound {
    type V = InboundView;

    open spec fn view(&self) -> InboundView {
        InboundView { kind: self.kind@, packet: self.packet@ }
    }
}

/// The level a subscribe acknowledgment grants: its first reason code,
/// where that is one of the three levels. Any other code, or none, refuses
/// the subscription.
pub open spec fn granted_level(codes: Seq<u8>) -> Option<u8> {
    if codes.len() > 0 && codes[0] <= 2 {
        Some(codes[0])
    } else {
        None
    }
}

/// The fields the session reads of a received publish.
pub struct PublishFields {
    pub topic: String,
    pub payload: Vec<u8>,
    pub qos: Qos,
    pub retain: bool,
    pub packet_id: Option<u16>,
}

/// The packet's type as the codec prints it.
pub uninterp spec fn kind_in(packet: CodecPacket) -> Seq<char>;

/// Whether the packet is a connect acknowledgment.
pub uninterp spec fn connack_in(packet: CodecPacket) -> bool;

/// Topic, payload, level, retain flag and identifier of the packet, where
/// it is a publish.
pub uninterp spec fn publish_in(packet: CodecPacket) -> Option<
    (Seq<char>, Seq<u8>, u8, bool, Option<u16>),
>;

/// Identifier, reason codes, and reason codes as printed, of the packet,
/// where it is a subscribe acknowledgment.
pub uninterp spec fn suback_in(packet: CodecPacket) -> Option<(u16, Seq<u8>, Seq<char>)>;

/// Identifier and reason codes as printed of the packet, where it is an
/// unsubscribe acknowledgment.
pub uninterp spec fn unsuback_in(packet: CodecPacket) -> Option<(u16, Seq<char>)>;

/// The identifier of the packet, where it is a publish acknowledgment.
pub uninterp spec fn puback_in(packet: CodecPacket) -> Option<u16>;

/// The identifier of the packet, where it is a publish-received
/// acknowledgment.
pub uninterp spec fn pubrec_in(packet: CodecPacket) -> Option<u16>;

/// The identifier of the packet, where it is a publish-complete packet.
pub uninterp spec fn pubcomp_in(packet: CodecPacket) -> Option<u16>;

/// The reason code as printed, and the reason string if there is one, of
/// the packet, where it is a disconnect.
pub uninterp spec fn disconnect_in(packet: CodecPacket) -> Option<(Seq<char>, Option<Seq<char>>)>;

/// Prints, in debug form, what the packet's `packet_type` returns.
#[verifier::external_body]
pub(crate) fn packet_kind_text(packet: &CodecPacket) -> (r: String)
    ensures
        r@ == kind_in(*packet),
{
    format!("{:?}", packet.inner.packet_type())
}

/// Whether the packet is the variant `V5_0Connack` of the codec's packet
/// type.
#[verifier::external_body]
pub(crate) fn is_connack(packet: &CodecPacket) -> (r: bool)
    ensures
        r == connack_in(*packet),
{
    matches!(packet.inner, Packet::V5_0Connack(_))
}

/// For the variant `V5_0Publish`, what the publish returns from
/// `topic_name`, `payload`, `qos`, `retain` and `packet_id`; `None` for any
/// other packet.
#[verifier::external_body]
pub(crate) fn publish_fields(packet: &CodecPacket) -> (r: Option<PublishFields>)
    ensures
        r is None ==> publish_in(*packet) is None,
        r matches Some(f) ==> publish_in(*packet) == Some(
            (f.topic@, f.payload@, qos_number(f.qos), f.retain, f.packet_id),
        ),
{
    match &packet.inner {
        Packet::V5_0Publish(p) => Some(
            PublishFields {
                topic: p.topic_name().to_string(),
                payload: p.payload().as_slice().to_vec(),
                qos: p.qos(),
                retain: p.retain(),
                packet_id: p.packet_id(),
            },
        ),
        _ => None,
    }
}

/// For the variant `V5_0Suback`, what the acknowledgment returns from
/// `packet_id`, and its `reason_codes` as numbers and printed in debug
/// form; `None` for any other packet.
#[verifier::external_body]
pub(crate) fn suback_fields(packet: &CodecPacket) -> (r: Option<(u16, Vec<u8>, String)>)
    ensures
        r is None ==> suback_in(*packet) is None,
        r matches Some(ack) ==> suback_in(*packet) == Some((ack.0, ack.1@, ack.2@)),
{
    match &packet.inner {
        Packet::V5_0Suback(p) => Some(
            (
                p.packet_id(),
                p.reason_codes().iter().map(|code| *code as u8).collect(),
                format!("{:?}", p.reason_codes()),
            ),
        ),
        _ => None,
    }
}

/// For the variant `V5_0Unsuback`, what the acknowledgment returns from
/// `packet_id`, and its `reason_codes` printed in debug form; `None` for
/// any other packet.
#[verifier::external_body]
pub(crate) fn unsuback_fields(packet: &CodecPacket) -> (r: Option<(u16, String)>)
    ensures
        r is None ==> unsuback_in(*packet) is None,
        r matches Some(ack) ==> unsuback_in(*packet) == Some((ack.0, ack.1@)),
{
    match &packet.inner {
        Packet::V5_0Unsuback(p) => Some((p.packet_id(), format!("{:?}", p.reason_codes()))),
        _ => None,
    }
}

/// For the variant `V5_0Puback`, what the acknowledgment returns from
/// `packet_id`; `None` for any other packet.
#[verifier::external_body]
pub(crate) fn puback_id(packet: &CodecPacket) -> (r: Option<u16>)
    ensures
        r == puback_in(*packet),
{
    match &packet.inner {
        Packet::V5_0Puback(p) => Some(p.packet_id()),
        _ => None,
    }
}

/// For the variant `V5_0Pubrec`, what the acknowledgment returns from
/// `packet_id`; `None` for any other packet.
#[verifier::external_body]
pub(crate) fn pubrec_id(packet: &CodecPacket) -> (r: Option<u16>)
    ensures
        r == pubrec_in(*packet),
{
    match &packet.inner {
        Packet::V5_0Pubrec(p) => Some(p.packet_id()),
        _ => None,
    }
}

/// For the variant `V5_0Pubcomp`, what the packet returns from
/// `packet_id`; `None` for any other packet.
#[verifier::external_body]
pub(crate) fn pubcomp_id(packet: &CodecPacket) -> (r: Option<u16>)
    ensures
        r == pubcomp_in(*packet),
{
    match &packet.inner {
        Packet::V5_0Pubcomp(p) => Some(p.packet_id()),
        _ => None,
    }
}

/// For the variant `V5_0Disconnect`, what the packet returns from
/// `reason_code`, printed in debug form, and the value of the first
/// `ReasonString` among its `props`, if there is one; `None` for any other
/// packet.
#[verifier::external_body]
pub(crate) fn disconnect_reason(packet: &CodecPacket) -> (r: Option<(String, Option<String>)>)
    ensures
        r is None ==> disconnect_in(*packet) is None,
        r matches Some(why) ==> disconnect_in(*packet) == Some((why.0@, text_of(why.1))),
{
    match &packet.inner {
        Packet::V5_0Disconnect(p) => Some(
            (
                format!("{:?}", p.reason_code()),
                p.props().iter().flatten().find_map(
                    |prop| match prop {
                        Property::ReasonString(text) => Some(text.val().to_string()),
                        _ => None,
                    },
                ),
            ),
        ),
        _ => None,
    }
}

/// The number of a delivery-guarantee level.
pub fn qos_to_u8(qos: Qos) -> (level: u8)
    ensures
        level == qos_number(qos),
        level <= 2,
{
    match qos {
        Qos::AtMostOnce => 0,
        Qos::AtLeastOnce => 1,
        Qos::ExactlyOnce => 2,
    }
}

/// What the codec's accessors return of one received packet: its type as
/// the codec prints it, whether it is a connect acknowledgment, and, for
/// each kind of packet the session reads, the fields of that kind or `None`.
pub struct PacketParts {
    pub kind: String,
    pub connack: bool,
    pub publish: Option<PublishFields>,
    pub suback: Option<(u16, Vec<u8>, String)>,
    pub unsuback: Option<(u16, String)>,
    pub puback: Option<u16>,
    pub pubrec: Option<u16>,
    pub pubcomp: Option<u16>,
    pub disconnect: Option<(String, Option<String>)>,
}

/// The packet the session reads from the parts of a received packet: the
/// first kind, in the order connect acknowledgment, publish, subscribe and
/// unsubscribe acknowledgment, publish acknowledgment, receipt and
/// completion, disconnect, whose fields are present; another packet where
/// none is.
pub open spec fn packet_of(
    connack: bool,
    publish: Option<(Seq<char>, Seq<u8>, u8, bool, Option<u16>)>,
    suback: Option<(u16, Seq<u8>, Seq<char>)>,
    unsuback: Option<(u16, Seq<char>)>,
    puback: Option<u16>,
    pubrec: Option<u16>,
    pubcomp: Option<u16>,
    disconnect: Option<(Seq<char>, Option<Seq<char>>)>,
) -> InboundPacketView {
    if connack {
        InboundPacketView::Connack
    } else if let Some((topic, payload, qos, retain, packet_id)) = publish {
        InboundPacketView::Publish { topic, payload, qos, retain, packet_id }
    } else if let Some((packet_id, codes, details)) = suback {
        InboundPacketView::Suback { packet_id, codes, details }
    } else if let Some((packet_id, details)) = unsuback {
        InboundPacketView::Unsuback { packet_id, details }
    } else if let Some(packet_id) = puback {
        InboundPacketView::Puback { packet_id }
    } else if let Some(packet_id) = pubrec {
        InboundPacketView::Pubrec { packet_id }
    } else if let Some(packet_id) = pubcomp {
        InboundPacketView::Pubcomp { packet_id }
    } else if let Some((reason, stated)) = disconnect {
        InboundPacketView::Disconnect { reason, stated }
    } else {
        InboundPacketView::Other
    }
}

/// The publish fields in plain values.
pub open spec fn publish_of(fields: Option<PublishFields>) -> Option<
    (Seq<char>, Seq<u8>, u8, bool, Option<u16>),
> {
    match fields {
        Some(f) => Some((f.topic@, f.payload@, qos_number(f.qos), f.retain, f.packet_id)),
        None => None,
    }
}

/// The fields of a subscribe acknowledgment in plain values.
pub open spec fn suback_of(ack: Option<(u16, Vec<u8>, String)>) -> Option<
    (u16, Seq<u8>, Seq<char>),
> {
    match ack {
        Some(a) => Some((a.0, a.1@, a.2@)),
        None => None,
    }
}

/// The fields of an unsubscribe acknowledgment in plain values.
pub open spec fn unsuback_of(ack: Option<(u16, String)>) -> Option<(u16, Seq<char>)> {
    match ack {
        Some(a) => Some((a.0, a.1@)),
        None => None,
    }
}

/// The fields of a disconnect in plain values.
pub open spec fn disconnect_of(why: Option<(String, Option<String>)>) -> Option<
    (Seq<char>, Option<Seq<char>>),
> {
    match why {
        Some(w) => Some((w.0@, text_of(w.1))),
        None => None,
    }
}

impl PacketParts {
    /// The received packet in plain values.
    pub open spec fn inbound(self) -> InboundView {
        InboundView {
            kind: self.kind@,
            packet: packet_of(
                self.connack,
                publish_of(self.publish),
                suback_of(self.suback),
                unsuback_of(self.unsuback),
                self.puback,
                self.pubrec,
                self.pubcomp,
                disconnect_of(self.disconnect),
            ),
        }
    }
}

/// What a packet of the codec is in plain values, as the codec's accessors
/// return it.
pub open spec fn received(packet: CodecPacket) -> InboundView {
    InboundView {
        kind: kind_in(packet),
        packet: packet_of(
            connack_in(packet),
            publish_in(packet),
            suback_in(packet),
            unsuback_in(packet),
            puback_in(packet),
            pubrec_in(packet),
            pubcomp_in(packet),
            disconnect_in(packet),
        ),
    }
}

/// Puts together, from what the codec's accessors returned of a received
/// packet, the packet in plain values.
pub fn inbound_from(parts: PacketParts) -> (inbound: Inbound)
    ensures
        inbound@ == parts.inbound(),
{
    let PacketParts {
        kind,
        connack,
        publish,
        suback,
        unsuback,
        puback,
        pubrec,
        pubcomp,
        disconnect,
    } = parts;
    let packet = if connack {
        InboundPacket::Connack
    } else if let Some(fields) = publish {
        InboundPacket::Publish {
            topic: fields.topic,
            payload: fields.payload,
            qos: qos_to_u8(fields.qos),
            retain: fields.retain,
            packet_id: fields.packet_id,
        }
    } else if let Some((packet_id, codes, details)) = suback {
        InboundPacket::Suback { packet_id, codes, details }
    } else if let Some((packet_id, details)) = unsuback {
        InboundPacket::Unsuback { packet_id, details }
    } else if let Some(packet_id) = puback {
        InboundPacket::Puback { packet_id }
    } else if let Some(packet_id) = pubrec {
        InboundPacket::Pubrec { packet_id }
    } else if let Some(packet_id) = pubcomp {
        InboundPacket::Pubcomp { packet_id }
    } else if let Some((reason, stated)) = disconnect {
        InboundPacket::Disconnect { reason, stated }
    } else {
        InboundPacket::Other
    };
    Inbound { kind, packet }
}

/// Turns a packet of the codec into plain values: it asks the codec's
/// accessors for the parts of the packet and hands them to `inbound_from`.
/// A publish comes out with a level of at most 2.
pub fn decode(packet: &CodecPacket) -> (inbound: Inbound)
    ensures
        inbound@ == received(*packet),
        inbound.packet matches InboundPacket::Publish { qos, .. } ==> qos <= 2,
{
    inbound_from(
        PacketParts {
            kind: packet_kind_text(packet),
            connack: is_connack(packet),
            publish: publish_fields(packet),
            suback: suback_fields(packet),
            unsuback: unsuback_fields(packet),
            puback: puback_id(packet),
            pubrec: pubrec_id(packet),
            pubcomp: pubcomp_id(packet),
            disconnect: disconnect_reason(packet),
        },
    )
}

} // verus!
