//! The login descriptor and the address resolver: where to connect, and
//! which credentials and last will the handshake carries.

use vstd::prelude::*;
use vstd::string::*;
use std::time::SystemTime;
use crate::text::{contains_char, join3, trim, trimmed};

verus! {

/// What the user entered to reach a broker. Blank fields count as absent.
#[derive(Clone, Debug)]
pub struct MqttLoginData {
    pub broker: String,
    pub port: String,
    pub username: String,
    pub password: String,
    pub testament_and_last_will: String,
    pub testament_topic: String,
    pub testament_qos: u8,
    pub testament_retain: bool,
}

/// A topic a session is subscribed to, with the level it was granted.
#[derive(Clone, Debug)]
pub struct SubscriptionEntry {
    pub topic: String,
    pub qos: u8,
}

/// A message delivered by the broker, with the time it arrived.
#[derive(Debug)]
pub struct ReceivedMessage {
    pub timestamp: SystemTime,
    pub topic: String,
    pub qos: u8,
    pub retain: bool,
    pub payload: Vec<u8>,
}

/// The address used when no broker is given.
pub open spec fn default_addr() -> Seq<char> {
    "127.0.0.1:1883"@
}

/// The port used when none is given.
pub open spec fn default_port() -> Seq<char> {
    "1883"@
}

/// The endpoint to connect to: the default address for a blank broker, the
/// broker itself when it already names a port, else the broker with the
/// given port, or the default port when that is blank.
pub open spec fn broker_addr_of(broker: Seq<char>, port: Seq<char>) -> Seq<char> {
    let host = trimmed(broker);
    if host.len() == 0 {
        default_addr()
    } else if host.contains(':') {
        host
    } else if trimmed(port).len() == 0 {
        host + ":"@ + default_port()
    } else {
        host + ":"@ + trimmed(port)
    }
}

/// A field's content without surrounding whitespace, or `None` where
/// nothing is left.
pub open spec fn non_blank_of(field: Seq<char>) -> Option<Seq<char>> {
    if trimmed(field).len() == 0 {
        None
    } else {
        Some(trimmed(field))
    }
}

/// Whether `found` is the text `expected` describes.
pub open spec fn same_text(found: Option<&str>, expected: Option<Seq<char>>) -> bool {
    match found {
        Some(text) => expected == Some(text@),
        None => expected is None,
    }
}

/// Returns the field's content without surrounding whitespace, or `None`
/// where nothing is left.
pub fn non_blank(field: &str) -> (value: Option<&str>)
    ensures
        same_text(value, non_blank_of(field@)),
{
    let value = trim(field);
    if value.unicode_len() == 0 {
        None
    } else {
        Some(value)
    }
}

impl Default for MqttLoginData {
    fn default() -> (login: MqttLoginData)
        ensures
            login.broker@.len() == 0,
            login.port@.len() == 0,
            login.username@.len() == 0,
            login.password@.len() == 0,
            login.testament_and_last_will@.len() == 0,
            login.testament_topic@.len() == 0,
            login.testament_qos == 0,
            !login.testament_retain,
    {
        MqttLoginData {
            broker: String::new(),
            port: String::new(),
            username: String::new(),
            password: String::new(),
            testament_and_last_will: String::new(),
            testament_topic: String::new(),
            testament_qos: 0,
            testament_retain: false,
        }
    }
}

impl MqttLoginData {
    /// The endpoint to connect to, as `host:port`.
    pub fn broker_addr(&self) -> (addr: String)
        ensures
            addr@ == broker_addr_of(self.broker@, self.port@),
    {
        let broker = trim(self.broker.as_str());
        if broker.unicode_len() == 0 {
            return String::from_str("127.0.0.1:1883");
        }
        if contains_char(broker, ':') {
            String::from_str(broker)
        } else {
            let port = trim(self.port.as_str());
            if port.unicode_len() == 0 {
                join3(broker, ":", "1883")
            } else {
                join3(broker, ":", port)
            }
        }
    }

    /// The user name, if one was entered.
    pub fn username_opt(&self) -> (value: Option<&str>)
        ensures
            same_text(value, non_blank_of(self.username@)),
    {
        non_blank(self.username.as_str())
    }

    /// The password, if one was entered.
    pub fn password_opt(&self) -> (value: Option<&str>)
        ensures
            same_text(value, non_blank_of(self.password@)),
    {
        non_blank(self.password.as_str())
    }

    /// The last-will message, if one was entered.
    pub fn testament_and_last_will_opt(&self) -> (value: Option<&str>)
        ensures
            same_text(value, non_blank_of(self.testament_and_last_will@)),
    {
        non_blank(self.testament_and_last_will.as_str())
    }

    /// The last-will topic, if one was entered.
    pub fn testament_topic_opt(&self) -> (value: Option<&str>)
        ensures
            same_text(value, non_blank_of(self.testament_topic@)),
    {
        non_blank(self.testament_topic.as_str())
    }
}

} // verus!
