//! Building the handshake packet from the login descriptor: the client
//! identifier, the credentials and last will that go into it, and the
//! diagnostic for each way the codec can refuse it.

use vstd::prelude::*;
use vstd::string::*;
use mqtt_endpoint_tokio::mqtt_ep::packet::Qos;
use crate::codec::{
    connect_built, connect_packet, fits, fits_field, malformed_text, protocol_error_text,
    qos_level, qos_number, CodecPacket, ConnectPlan, LastWill, KEEP_ALIVE_SECONDS,
};
use crate::login::{non_blank_of, MqttLoginData};
use crate::text::{decimal, decimal_string, join2, join3, join4};

verus! {

/// The client identifier of the session `tab_id` within process
/// `process_id`.
pub open spec fn client_identifier_of(process_id: u32, tab_id: u64) -> Seq<char> {
    "mqui-client-"@ + decimal(process_id as nat) + "-"@ + decimal(tab_id as nat)
}

/// The last-will topic used when none is entered.
pub open spec fn default_will_topic(client_id: Seq<char>) -> Seq<char> {
    "mqui/"@ + client_id + "/last-will"@
}

/// The level a last will is sent at: the entered one, or the weakest where
/// that names no level.
pub open spec fn will_level(qos: u8) -> u8 {
    if qos <= 2 {
        qos
    } else {
        0
    }
}

/// Builds the client identifier, distinct for every process and session.
pub fn client_identifier(process_id: u32, tab_id: u64) -> (id: String)
    ensures
        id@ == client_identifier_of(process_id, tab_id),
{
    let process = decimal_string(process_id as u64);
    let tab = decimal_string(tab_id);
    join4("mqui-client-", process.as_str(), "-", tab.as_str())
}

/// Whether `plan` is what `login` and `client_id` call for: a clean start
/// with the standard keep-alive, the user name if one was entered, the
/// password if a user name and a password were entered, and the last will
/// if its message was entered, under its own topic or the default one.
pub open spec fn plan_matches(
    plan: ConnectPlan,
    login: MqttLoginData,
    client_id: Seq<char>,
) -> bool {
    &&& plan.client_id@ == client_id
    &&& plan.keep_alive == KEEP_ALIVE_SECONDS
    &&& plan.clean_start
    &&& match non_blank_of(login.username@) {
        Some(name) => plan.user_name matches Some(n) && n@ == name,
        None => plan.user_name is None,
    }
    &&& match (non_blank_of(login.username@), non_blank_of(login.password@)) {
        (Some(_), Some(pwd)) => plan.password matches Some(p) && p@ == pwd,
        _ => plan.password is None,
    }
    &&& match non_blank_of(login.testament_and_last_will@) {
        Some(message) => plan.will matches Some(will) && will.payload@ == message && will.topic@
            == (match non_blank_of(login.testament_topic@) {
            Some(topic) => topic,
            None => default_will_topic(client_id),
        }) && qos_number(will.qos) == will_level(login.testament_qos) && will.retain
            == login.testament_retain,
        None => plan.will is None,
    }
}

/// Decides what the handshake packet carries.
pub fn connect_plan(login: &MqttLoginData, client_id: &str) -> (plan: ConnectPlan)
    ensures
        plan_matches(plan, *login, client_id@),
{
    let mut user_name: Option<String> = None;
    let mut password: Option<String> = None;
    if let Some(name) = login.username_opt() {
        user_name = Some(String::from_str(name));
        if let Some(pwd) = login.password_opt() {
            password = Some(String::from_str(pwd));
        }
    }
    let mut will: Option<LastWill> = None;
    if let Some(message) = login.testament_and_last_will_opt() {
        let topic = match login.testament_topic_opt() {
            Some(topic) => String::from_str(topic),
            None => join3("mqui/", client_id, "/last-will"),
        };
        let qos = match qos_level(login.testament_qos) {
            Ok(level) => level,
            Err(_) => Qos::AtMostOnce,
        };
        will = Some(
            LastWill {
                topic,
                payload: String::from_str(message),
                qos,
                retain: login.testament_retain,
            },
        );
    }
    ConnectPlan {
        client_id: String::from_str(client_id),
        keep_alive: KEEP_ALIVE_SECONDS,
        clean_start: true,
        user_name,
        password,
        will,
    }
}

/// The diagnostic for a plan the codec refuses, naming the first step that
/// fails: client identifier, user name, password, last will, then the build
/// itself.
pub open spec fn handshake_failure(plan: ConnectPlan) -> Seq<char> {
    if !fits_field(plan.client_id@) {
        "Client ID setup failed: "@ + malformed_text()
    } else if plan.user_name matches Some(name) && !fits_field(name@) {
        "Username setup failed: "@ + malformed_text()
    } else if plan.password matches Some(pwd) && !fits_field(pwd@) {
        "Password setup failed: "@ + malformed_text()
    } else if plan.will matches Some(will) && !(fits_field(will.topic@) && fits_field(
        will.payload@,
    )) {
        "Last Will setup failed: "@ + malformed_text()
    } else {
        "CONNECT build failed: "@ + protocol_error_text()
    }
}

/// Builds the handshake packet, or says why it cannot be built.
pub fn handshake_packet(plan: &ConnectPlan) -> (r: Result<CodecPacket, String>)
    ensures
        r is Ok <==> plan.accepted(),
        r matches Ok(packet) ==> packet == plan.built(),
        r matches Err(reason) ==> reason@ == handshake_failure(*plan),
{
    let cause = match connect_packet(plan) {
        Ok(packet) => {
            return Ok(packet);
        },
        Err(cause) => cause,
    };
    let step = if !fits(plan.client_id.as_str()) {
        "Client ID setup failed: "
    } else if !fits_if_present(&plan.user_name) {
        "Username setup failed: "
    } else if !fits_if_present(&plan.password) {
        "Password setup failed: "
    } else if !will_fits(&plan.will) {
        "Last Will setup failed: "
    } else {
        "CONNECT build failed: "
    };
    Err(join2(step, cause.as_str()))
}

fn fits_if_present(field: &Option<String>) -> (b: bool)
    ensures
        b == (*field matches Some(text) ==> fits_field(text@)),
{
    match field {
        Some(text) => fits(text.as_str()),
        None => true,
    }
}

fn will_fits(will: &Option<LastWill>) -> (b: bool)
    ensures
        b == (*will matches Some(w) ==> fits_field(w.topic@) && fits_field(w.payload@)),
{
    match will {
        Some(w) => fits(w.topic.as_str()) && fits(w.payload.as_str()),
        None => true,
    }
}

/// The user name the handshake carries for `login`.
pub open spec fn planned_user(login: MqttLoginData) -> Option<Seq<char>> {
    non_blank_of(login.username@)
}

/// The password the handshake carries for `login`: the entered one, where
/// a user name was entered too.
pub open spec fn planned_password(login: MqttLoginData) -> Option<Seq<char>> {
    if planned_user(login) is Some {
        non_blank_of(login.password@)
    } else {
        None
    }
}

/// The topic of the last will for `login`: the entered one, or the default.
pub open spec fn planned_will_topic(login: MqttLoginData, client_id: Seq<char>) -> Seq<char> {
    match non_blank_of(login.testament_topic@) {
        Some(topic) => topic,
        None => default_will_topic(client_id),
    }
}

/// The diagnostic with which the handshake for `login` cannot be built, or
/// `None` where it can: the first of client identifier, user name,
/// password and last will that does not fit a field.
pub open spec fn handshake_diagnostic(login: MqttLoginData, client_id: Seq<char>) -> Option<
    Seq<char>,
> {
    if !fits_field(client_id) {
        Some("Client ID setup failed: "@ + malformed_text())
    } else if planned_user(login) matches Some(name) && !fits_field(name) {
        Some("Username setup failed: "@ + malformed_text())
    } else if planned_password(login) matches Some(pwd) && !fits_field(pwd) {
        Some("Password setup failed: "@ + malformed_text())
    } else if non_blank_of(login.testament_and_last_will@) matches Some(message) && !(fits_field(
        planned_will_topic(login, client_id),
    ) && fits_field(message)) {
        Some("Last Will setup failed: "@ + malformed_text())
    } else {
        None
    }
}

/// The last will the handshake carries for `login`, as topic, payload,
/// level and retain flag.
pub open spec fn planned_will(login: MqttLoginData, client_id: Seq<char>) -> Option<
    (Seq<char>, Seq<char>, u8, bool),
> {
    match non_blank_of(login.testament_and_last_will@) {
        Some(message) => Some(
            (
                planned_will_topic(login, client_id),
                message,
                will_level(login.testament_qos),
                login.testament_retain,
            ),
        ),
        None => None,
    }
}

/// The handshake packet for `login`: a clean start under `client_id` with
/// the standard keep-alive, carrying the credentials and the last will
/// that were entered.
pub open spec fn handshake_built(login: MqttLoginData, client_id: Seq<char>) -> CodecPacket {
    connect_built(
        client_id,
        KEEP_ALIVE_SECONDS,
        true,
        planned_user(login),
        planned_password(login),
        planned_will(login, client_id),
    )
}

/// A plan made for a login is accepted exactly when the login has no
/// diagnostic, and is refused with that diagnostic; the packet built from
/// it is the handshake packet for the login.
pub proof fn lemma_plan_outcome(plan: ConnectPlan, login: MqttLoginData, client_id: Seq<char>)
    requires
        plan_matches(plan, login, client_id),
    ensures
        plan.accepted() <==> handshake_diagnostic(login, client_id) is None,
        handshake_diagnostic(login, client_id) matches Some(text) ==> handshake_failure(plan)
            == text,
        plan.built() == handshake_built(login, client_id),
{
}

} // verus!
