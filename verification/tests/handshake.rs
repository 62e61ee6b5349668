use mqtt_endpoint_tokio::mqtt_ep::packet::{Packet, Qos};
use mqui::codec::{ConnectPlan, Inbound, InboundPacket};
use mqui::handshake::{client_identifier, connect_plan, handshake_packet};
use mqui::ipc::ClientEvent;
use mqui::login::MqttLoginData;
use mqui::session::{Action, Input, Session, Stage, TransportFailure};

fn login() -> MqttLoginData {
    let mut data = MqttLoginData::default();
    data.broker = "example.org".to_string();
    data.port = "1884".to_string();
    data
}

fn connect_of(plan: &ConnectPlan) -> mqtt_endpoint_tokio::mqtt_ep::packet::v5_0::Connect {
    match handshake_packet(plan) {
        Ok(packet) => match packet.inner {
            Packet::V5_0Connect(connect) => connect,
            _ => panic!("expected a connect packet"),
        },
        Err(reason) => panic!("the handshake was refused: {}", reason),
    }
}

fn refusal(plan: &ConnectPlan) -> String {
    match handshake_packet(plan) {
        Ok(_) => panic!("the handshake was accepted"),
        Err(reason) => reason,
    }
}

#[test]
fn client_identifier_names_process_and_session() {
    assert_eq!(client_identifier(0, 0), "mqui-client-0-0");
    assert_eq!(client_identifier(4242, 17), "mqui-client-4242-17");
    assert_eq!(
        client_identifier(u32::MAX, u64::MAX),
        "mqui-client-4294967295-18446744073709551615"
    );
}

#[test]
fn plan_without_credentials_or_will() {
    let plan = connect_plan(&login(), "me");
    assert_eq!(plan.client_id, "me");
    assert_eq!(plan.keep_alive, 60);
    assert!(plan.clean_start);
    assert!(plan.user_name.is_none());
    assert!(plan.password.is_none());
    assert!(plan.will.is_none());
    let connect = connect_of(&plan);
    assert_eq!(connect.client_id(), "me");
    assert_eq!(connect.keep_alive(), 60);
    assert!(connect.clean_start());
    assert_eq!(connect.user_name(), None);
    assert_eq!(connect.password(), None);
    assert!(!connect.will_flag());
}

#[test]
fn plan_carries_trimmed_credentials() {
    let mut data = login();
    data.username = "  alice ".to_string();
    data.password = "\tsecret\n".to_string();
    let plan = connect_plan(&data, "me");
    assert_eq!(plan.user_name.as_deref(), Some("alice"));
    assert_eq!(plan.password.as_deref(), Some("secret"));
    let connect = connect_of(&plan);
    assert_eq!(connect.user_name(), Some("alice"));
    assert_eq!(connect.password(), Some(&b"secret"[..]));
}

#[test]
fn password_without_user_name_is_left_out() {
    let mut data = login();
    data.username = "   ".to_string();
    data.password = "secret".to_string();
    let plan = connect_plan(&data, "me");
    assert!(plan.user_name.is_none());
    assert!(plan.password.is_none());
    assert_eq!(data.password_opt(), Some("secret"));
    assert_eq!(data.username_opt(), None);
}

#[test]
fn last_will_takes_its_own_topic_level_and_retain() {
    let mut data = login();
    data.testament_and_last_will = " gone ".to_string();
    data.testament_topic = " status/me ".to_string();
    data.testament_qos = 2;
    data.testament_retain = true;
    let plan = connect_plan(&data, "me");
    let will = plan.will.as_ref().unwrap();
    assert_eq!(will.topic, "status/me");
    assert_eq!(will.payload, "gone");
    assert_eq!(will.qos, Qos::ExactlyOnce);
    assert!(will.retain);
    let connect = connect_of(&plan);
    assert!(connect.will_flag());
    assert_eq!(connect.will_topic(), Some("status/me"));
    assert_eq!(connect.will_payload(), Some(&b"gone"[..]));
    assert_eq!(connect.will_qos(), Qos::ExactlyOnce);
    assert!(connect.will_retain());
}

#[test]
fn last_will_defaults_its_topic_and_level() {
    let mut data = login();
    data.testament_and_last_will = "gone".to_string();
    data.testament_qos = 9;
    let plan = connect_plan(&data, "mqui-client-1-2");
    let will = plan.will.as_ref().unwrap();
    assert_eq!(will.topic, "mqui/mqui-client-1-2/last-will");
    assert_eq!(will.qos, Qos::AtMostOnce);
    assert!(!will.retain);
    assert_eq!(data.testament_topic_opt(), None);
    assert_eq!(data.testament_and_last_will_opt(), Some("gone"));
}

#[test]
fn each_oversized_field_has_its_own_diagnostic() {
    let long = "x".repeat(65536);

    let plan = connect_plan(&login(), &long);
    assert_eq!(refusal(&plan), "Client ID setup failed: MalformedPacket");

    let mut data = login();
    data.username = long.clone();
    data.password = long.clone();
    assert_eq!(refusal(&connect_plan(&data, "me")), "Username setup failed: MalformedPacket");

    let mut data = login();
    data.username = "alice".to_string();
    data.password = long.clone();
    assert_eq!(refusal(&connect_plan(&data, "me")), "Password setup failed: MalformedPacket");

    let mut data = login();
    data.testament_and_last_will = long.clone();
    assert_eq!(refusal(&connect_plan(&data, "me")), "Last Will setup failed: MalformedPacket");

    let mut data = login();
    data.testament_and_last_will = "gone".to_string();
    data.testament_topic = long.clone();
    assert_eq!(refusal(&connect_plan(&data, "me")), "Last Will setup failed: MalformedPacket");
}

#[test]
fn fields_of_exactly_the_limit_are_accepted() {
    let full = "x".repeat(65535);
    let mut data = login();
    data.username = full.clone();
    data.password = full.clone();
    data.testament_and_last_will = full.clone();
    data.testament_topic = full.clone();
    let plan = connect_plan(&data, &full);
    assert!(handshake_packet(&plan).is_ok());
}

#[test]
fn password_without_user_name_in_a_plan_is_a_protocol_error() {
    let mut plan = connect_plan(&login(), "me");
    plan.password = Some("secret".to_string());
    assert_eq!(refusal(&plan), "CONNECT build failed: ProtocolError");
}

#[test]
fn transport_failures_end_the_session_at_once() {
    let (mut session, _) = Session::connect(&login(), 1, 1);
    let step = session.step(Input::TransportOpened(Err(TransportFailure::Connect(
        "connection refused".to_string(),
    ))));
    assert_eq!(
        step.events,
        vec![ClientEvent::Disconnected("TCP connect failed: connection refused".to_string())]
    );
    assert!(matches!(step.action, Action::Exit));
    assert_eq!(session.stage(), Stage::Closed);

    let (mut session, _) = Session::connect(&login(), 1, 1);
    let step = session.step(Input::TransportOpened(Err(TransportFailure::Attach(
        "already attached".to_string(),
    ))));
    assert_eq!(
        step.events,
        vec![ClientEvent::Disconnected("Attach failed: already attached".to_string())]
    );
    assert!(matches!(step.action, Action::Exit));
}

#[test]
fn handshake_that_cannot_be_built_ends_the_session_after_the_transport_opened() {
    let mut data = login();
    data.username = "x".repeat(70000);
    let (mut session, first) = Session::connect(&data, 1, 1);
    assert_eq!(first.events, vec![ClientEvent::Status("Connecting to broker...".to_string())]);
    let step = session.step(Input::TransportOpened(Ok(())));
    assert_eq!(
        step.events,
        vec![ClientEvent::Disconnected("Username setup failed: MalformedPacket".to_string())]
    );
    assert!(matches!(step.action, Action::Close));
    let step = session.step(Input::TransportClosed);
    assert!(step.events.is_empty());
    assert!(matches!(step.action, Action::Exit));
}

#[test]
fn handshake_send_failure_is_fatal() {
    let (mut session, _) = Session::connect(&login(), 1, 1);
    session.step(Input::TransportOpened(Ok(())));
    let step = session.step(Input::Sent(Err("reset".to_string())));
    assert_eq!(
        step.events,
        vec![ClientEvent::Disconnected("CONNECT send failed: reset".to_string())]
    );
    assert!(matches!(step.action, Action::Close));
    assert_eq!(session.stage(), Stage::Closed);
}

#[test]
fn handshake_receive_failure_is_fatal() {
    let (mut session, _) = Session::connect(&login(), 1, 1);
    session.step(Input::TransportOpened(Ok(())));
    session.step(Input::Sent(Ok(())));
    let step = session.step(Input::Received(Err("timeout".to_string())));
    assert_eq!(
        step.events,
        vec![ClientEvent::Disconnected("CONNACK recv failed: timeout".to_string())]
    );
    assert!(matches!(step.action, Action::Close));
}

#[test]
fn any_reply_but_a_connect_acknowledgment_is_fatal() {
    let (mut session, _) = Session::connect(&login(), 1, 1);
    session.step(Input::TransportOpened(Ok(())));
    session.step(Input::Sent(Ok(())));
    let step = session.step(Input::Received(Ok(Inbound {
        kind: "\"suback\"".to_string(),
        packet: InboundPacket::Suback {
            packet_id: 1,
            codes: vec![0],
            details: "[]".to_string(),
        },
    })));
    assert_eq!(
        step.events,
        vec![ClientEvent::Disconnected("Expected CONNACK, got \"suback\"".to_string())]
    );
    assert!(matches!(step.action, Action::Close));
}

#[test]
fn commands_are_not_awaited_before_the_session_is_connected() {
    let (mut session, _) = Session::connect(&login(), 1, 1);
    let command = Input::Command(mqui::ipc::ClientCommand::Unsubscribe { topic: "a".to_string() });
    assert!(!session.awaits(&command));
    assert!(!session.awaits(&Input::Shutdown));
    assert!(session.awaits(&Input::TransportOpened(Ok(()))));
    session.step(Input::TransportOpened(Ok(())));
    assert!(!session.awaits(&command));
    assert!(session.awaits(&Input::Sent(Ok(()))));
    session.step(Input::Sent(Ok(())));
    assert!(!session.awaits(&command));
    assert!(session.awaits(&Input::Received(Err(String::new()))));
}
