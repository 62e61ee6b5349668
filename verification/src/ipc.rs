//! What crosses between the session and its consumer: the commands it takes
//! and the events it reports.

use vstd::prelude::*;
use vstd::string::*;
use vstd::utf8::encode_utf8;
use crate::login::non_blank;
use crate::text::trimmed;

verus! {

/// A notification from the session to its consumer.
#[derive(Debug, Clone, PartialEq, Eq)]
pub enum ClientEvent {
    Status(String),
    Error(String),
    Connected,
    Disconnected(String),
    Subscribed { topic: String, qos: u8, details: String },
    Unsubscribed { topic: String, details: String },
    Published { topic: String, packet_id: Option<u16> },
    MessageReceived { topic: String, qos: u8, retain: bool, payload: Vec<u8> },
}

/// An event with its texts as character sequences and its payload as a
/// byte sequence.
pub enum EventView {
    Status(Seq<char>),
    Error(Seq<char>),
    Connected,
    Disconnected(Seq<char>),
    Subscribed { topic: Seq<char>, qos: u8, details: Seq<char> },
    Unsubscribed { topic: Seq<char>, details: Seq<char> },
    Published { topic: Seq<char>, packet_id: Option<u16> },
    MessageReceived { topic: Seq<char>, qos: u8, retain: bool, payload: Seq<u8> },
}

impl View for ClientEvent {
    type V = EventView;

    open spec fn view(&self) -> EventView {
        match *self {
            ClientEvent::Status(text) => EventView::Status(text@),
            ClientEvent::Error(text) => EventView::Error(text@),
            ClientEvent::Connected => EventView::Connected,
            ClientEvent::Disconnected(reason) => EventView::Disconnected(reason@),
            ClientEvent::Subscribed { topic, qos, details } => EventView::Subscribed {
                topic: topic@,
                qos,
                details: details@,
            },
            ClientEvent::Unsubscribed { topic, details } => EventView::Unsubscribed {
                topic: topic@,
                details: details@,
            },
            ClientEvent::Published { topic, packet_id } => EventView::Published {
                topic: topic@,
                packet_id,
            },
            ClientEvent::MessageReceived { topic, qos, retain, payload } => {
                EventView::MessageReceived { topic: topic@, qos, retain, payload: payload@ }
            },
        }
    }
}

/// The views of a sequence of events, in order.
pub open spec fn events_view(events: Seq<ClientEvent>) -> Seq<EventView> {
    events.map_values(|e: ClientEvent| e@)
}

/// A request from the consumer to the session.
#[derive(Debug, Clone, PartialEq, Eq)]
pub enum ClientCommand {
    Subscribe { topic: String, qos: u8 },
    Unsubscribe { topic: String },
    Publish { topic: String, payload: Vec<u8>, qos: u8, retain: bool },
}

/// A command with its topic as a character sequence and its payload as a
/// byte sequence.
pub enum CommandView {
    Subscribe { topic: Seq<char>, qos: u8 },
    Unsubscribe { topic: Seq<char> },
    Publish { topic: Seq<char>, payload: Seq<u8>, qos: u8, retain: bool },
}

impl View for ClientCommand {
    type V = CommandView;

    open spec fn view(&self) -> CommandView {
        match *self {
            ClientCommand::Subscribe { topic, qos } => CommandView::Subscribe {
                topic: topic@,
                qos,
            },
            ClientCommand::Unsubscribe { topic } => CommandView::Unsubscribe { topic: topic@ },
            ClientCommand::Publish { topic, payload, qos, retain } => CommandView::Publish {
                topic: topic@,
                payload: payload@,
                qos,
                retain,
            },
        }
    }
}

/// The command for what was entered in a form, or `None` where the topic
/// field is blank: the topic is the field without surrounding whitespace.
pub open spec fn entered(topic_field: Seq<char>, command: CommandView) -> Option<CommandView> {
    if trimmed(topic_field).len() == 0 {
        None
    } else {
        Some(command)
    }
}

/// Whether `found` is the command `expected` describes.
pub open spec fn same_command(found: Option<ClientCommand>, expected: Option<CommandView>) -> bool {
    match found {
        Some(command) => expected == Some(command@),
        None => expected is None,
    }
}

impl ClientCommand {
    /// The subscribe command for the topic entered, or `None` where the
    /// field is blank.
    pub fn subscribe_to(topic_field: &str, qos: u8) -> (command: Option<ClientCommand>)
        ensures
            same_command(
                command,
                entered(
                    topic_field@,
                    CommandView::Subscribe { topic: trimmed(topic_field@), qos },
                ),
            ),
    {
        match non_blank(topic_field) {
            Some(topic) => Some(ClientCommand::Subscribe { topic: String::from_str(topic), qos }),
            None => None,
        }
    }

    /// The unsubscribe command for the topic entered, or `None` where the
    /// field is blank.
    pub fn unsubscribe_from(topic_field: &str) -> (command: Option<ClientCommand>)
        ensures
            same_command(
                command,
                entered(topic_field@, CommandView::Unsubscribe { topic: trimmed(topic_field@) }),
            ),
    {
        match non_blank(topic_field) {
            Some(topic) => Some(ClientCommand::Unsubscribe { topic: String::from_str(topic) }),
            None => None,
        }
    }

    /// The publish command for the topic and the payload text entered, the
    /// payload being the bytes of the text, or `None` where the topic field
    /// is blank.
    pub fn publish_to(topic_field: &str, payload_text: &str, qos: u8, retain: bool) -> (command:
        Option<ClientCommand>)
        ensures
            same_command(
                command,
                entered(
                    topic_field@,
                    CommandView::Publish {
                        topic: trimmed(topic_field@),
                        payload: encode_utf8(payload_text@),
                        qos,
                        retain,
                    },
                ),
            ),
    {
        match non_blank(topic_field) {
            Some(topic) => Some(
                ClientCommand::Publish {
                    topic: String::from_str(topic),
                    payload: payload_text.as_bytes_vec(),
                    qos,
                    retain,
                },
            ),
            None => None,
        }
    }
}

} // verus!
