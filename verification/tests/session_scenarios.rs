use mqtt_endpoint_tokio::mqtt_ep::packet::v5_0;
use mqtt_endpoint_tokio::mqtt_ep::packet::{Packet, Qos};
use mqtt_endpoint_tokio::mqtt_ep::result_code::{DisconnectReasonCode, SubackReasonCode};
use mqui::codec::{decode, CodecPacket, Inbound, InboundPacket};
use mqui::ipc::{ClientCommand, ClientEvent};
use mqui::login::MqttLoginData;
use mqui::registry::ClientState;
use mqui::session::{Action, Input, PacketKind, Session, Stage, Step};

fn login() -> MqttLoginData {
    let mut data = MqttLoginData::default();
    data.broker = "broker.test".to_string();
    data
}

fn from_broker(packet: Packet) -> Input {
    Input::Received(Ok(decode(&CodecPacket { inner: packet })))
}

fn connected() -> Session {
    let (mut session, first) = Session::connect(&login(), 7, 3);
    assert!(matches!(first.action, Action::OpenTransport { .. }));
    let step = session.step(Input::TransportOpened(Ok(())));
    assert!(matches!(step.action, Action::Send { kind: PacketKind::Connect, packet_id: None, .. }));
    let step = session.step(Input::Sent(Ok(())));
    assert!(matches!(step.action, Action::Receive));
    let connack = v5_0::Connack::builder()
        .session_present(false)
        .reason_code(mqtt_endpoint_tokio::mqtt_ep::result_code::ConnectReasonCode::Success)
        .build()
        .unwrap();
    let step = session.step(from_broker(connack.into()));
    assert_eq!(
        step.events,
        vec![
            ClientEvent::Connected,
            ClientEvent::Status("Connected to broker.test:1883".to_string())
        ]
    );
    assert!(matches!(step.action, Action::Wait));
    assert_eq!(session.stage(), Stage::Connected);
    session
}

fn sent_packet(step: Step) -> Packet {
    match step.action {
        Action::Send { packet, .. } => packet.inner,
        _ => panic!("the step did not hand out a packet"),
    }
}

#[test]
fn start_reports_connecting_and_asks_for_the_transport() {
    let (session, first) = Session::connect(&login(), 7, 3);
    assert_eq!(first.events, vec![ClientEvent::Status("Connecting to broker...".to_string())]);
    match first.action {
        Action::OpenTransport { addr } => assert_eq!(addr, "broker.test:1883"),
        _ => panic!("expected a request to open the transport"),
    }
    assert_eq!(session.stage(), Stage::Connecting);
}

#[test]
fn handshake_packet_carries_the_client_identifier() {
    let (mut session, _) = Session::connect(&login(), 7, 3);
    let step = session.step(Input::TransportOpened(Ok(())));
    assert!(step.events.is_empty());
    assert_eq!(session.stage(), Stage::Handshaking);
    match sent_packet(step) {
        Packet::V5_0Connect(connect) => {
            assert_eq!(connect.client_id(), "mqui-client-7-3");
            assert_eq!(connect.keep_alive(), 60);
            assert!(connect.clean_start());
            assert!(!connect.user_name_flag());
            assert!(!connect.will_flag());
        }
        _ => panic!("expected a connect packet"),
    }
}

#[test]
fn scenario_subscribe_then_suback_reports_subscribed() {
    let mut session = connected();
    let step = session.step(Input::Command(ClientCommand::Subscribe {
        topic: "sensors/temp".to_string(),
        qos: 1,
    }));
    assert!(step.events.is_empty());
    assert!(matches!(step.action, Action::AcquirePacketId));
    let step = session.step(Input::PacketId(Ok(1)));
    assert!(step.events.is_empty());
    assert!(matches!(
        step.action,
        Action::Send { kind: PacketKind::Subscribe, packet_id: Some(1), .. }
    ));
    match sent_packet(step) {
        Packet::V5_0Subscribe(subscribe) => {
            assert_eq!(subscribe.packet_id(), 1);
            assert_eq!(subscribe.entries().len(), 1);
            assert_eq!(subscribe.entries()[0].topic_filter(), "sensors/temp");
            assert_eq!(subscribe.entries()[0].sub_opts().qos(), Qos::AtLeastOnce);
        }
        _ => panic!("expected a subscribe packet"),
    }
    assert!(!session.is_pending(1));
    let step = session.step(Input::Sent(Ok(())));
    assert!(step.events.is_empty());
    assert!(session.is_pending(1));

    let suback = v5_0::Suback::builder()
        .packet_id(1)
        .reason_codes(vec![SubackReasonCode::GrantedQos1])
        .build()
        .unwrap();
    let step = session.step(from_broker(suback.into()));
    assert_eq!(
        step.events,
        vec![ClientEvent::Subscribed {
            topic: "sensors/temp".to_string(),
            qos: 1,
            details: "[GrantedQos1]".to_string(),
        }]
    );
    assert!(matches!(step.action, Action::Wait));
    assert!(!session.is_pending(1));

    let mut consumer = ClientState::new("Connected".to_string());
    for event in step.events {
        consumer.apply_event(event, std::time::UNIX_EPOCH);
    }
    assert_eq!(consumer.granted_qos("sensors/temp"), Some(1));
}

#[test]
fn scenario_publish_at_the_strongest_level_completes_once() {
    let mut session = connected();
    let step = session.step(Input::Command(ClientCommand::Publish {
        topic: "sensors/temp".to_string(),
        payload: b"22.5".to_vec(),
        qos: 2,
        retain: false,
    }));
    assert!(step.events.is_empty());
    assert!(matches!(step.action, Action::AcquirePacketId));
    let step = session.step(Input::PacketId(Ok(9)));
    assert!(step.events.is_empty());
    match sent_packet(step) {
        Packet::V5_0Publish(publish) => {
            assert_eq!(publish.packet_id(), Some(9));
            assert_eq!(publish.topic_name(), "sensors/temp");
            assert_eq!(publish.qos(), Qos::ExactlyOnce);
            assert!(!publish.retain());
            assert_eq!(publish.payload().as_slice(), b"22.5");
        }
        _ => panic!("expected a publish packet"),
    }
    let step = session.step(Input::Sent(Ok(())));
    assert!(step.events.is_empty());
    assert!(session.is_pending(9));

    let pubrec = v5_0::Pubrec::builder().packet_id(9).build().unwrap();
    let step = session.step(from_broker(pubrec.into()));
    assert!(step.events.is_empty());
    assert!(matches!(
        step.action,
        Action::Send { kind: PacketKind::Pubrel, packet_id: Some(9), .. }
    ));
    match sent_packet(step) {
        Packet::V5_0Pubrel(pubrel) => assert_eq!(pubrel.packet_id(), 9),
        _ => panic!("expected a release packet"),
    }
    assert!(session.is_pending(9));
    let step = session.step(Input::Sent(Ok(())));
    assert!(step.events.is_empty());
    assert!(session.is_pending(9));

    let pubcomp = v5_0::Pubcomp::builder().packet_id(9).build().unwrap();
    let step = session.step(from_broker(pubcomp.into()));
    assert_eq!(
        step.events,
        vec![ClientEvent::Published { topic: "sensors/temp".to_string(), packet_id: Some(9) }]
    );
    assert!(!session.is_pending(9));
}

#[test]
fn scenario_inbound_publish_is_reported_and_acknowledged() {
    let mut session = connected();
    let publish = v5_0::Publish::builder()
        .topic_name("news")
        .unwrap()
        .qos(Qos::AtLeastOnce)
        .packet_id(21u16)
        .payload(b"hi".to_vec())
        .build()
        .unwrap();
    let step = session.step(from_broker(publish.into()));
    assert_eq!(
        step.events,
        vec![ClientEvent::MessageReceived {
            topic: "news".to_string(),
            qos: 1,
            retain: false,
            payload: b"hi".to_vec(),
        }]
    );
    assert!(matches!(
        step.action,
        Action::Send { kind: PacketKind::Puback, packet_id: Some(21), .. }
    ));
    match sent_packet(step) {
        Packet::V5_0Puback(puback) => assert_eq!(puback.packet_id(), 21),
        _ => panic!("expected a publish acknowledgment"),
    }
    let step = session.step(Input::Sent(Ok(())));
    assert!(step.events.is_empty());
    assert!(matches!(step.action, Action::Wait));
}

#[test]
fn scenario_broker_disconnect_ends_the_session() {
    let mut session = connected();
    let step = session.step(Input::Received(Ok(Inbound {
        kind: "\"disconnect\"".to_string(),
        packet: InboundPacket::Disconnect {
            reason: "Some(ServerShuttingDown)".to_string(),
            stated: Some("server shutting down".to_string()),
        },
    })));
    assert_eq!(step.events.len(), 1);
    match &step.events[0] {
        ClientEvent::Disconnected(reason) => {
            assert!(reason.contains("server shutting down"));
            assert_eq!(
                reason,
                "Broker disconnected: Some(ServerShuttingDown): server shutting down"
            );
        }
        _ => panic!("expected a disconnect event"),
    }
    assert!(matches!(step.action, Action::Close));
    assert_eq!(session.stage(), Stage::Closed);
    let step = session.step(Input::TransportClosed);
    assert!(step.events.is_empty());
    assert!(matches!(step.action, Action::Exit));
    assert_eq!(session.stage(), Stage::Closed);
}

#[test]
fn broker_disconnect_packet_is_decoded_with_its_reason_code() {
    let mut session = connected();
    let disconnect = v5_0::Disconnect::builder()
        .reason_code(DisconnectReasonCode::ServerShuttingDown)
        .build()
        .unwrap();
    let step = session.step(from_broker(disconnect.into()));
    assert_eq!(
        step.events,
        vec![ClientEvent::Disconnected(
            "Broker disconnected: Some(ServerShuttingDown)".to_string()
        )]
    );
    assert!(matches!(step.action, Action::Close));

    let mut session = connected();
    let reason = mqtt_endpoint_tokio::mqtt_ep::packet::ReasonString::new("server shutting down")
        .unwrap();
    let disconnect = v5_0::Disconnect::builder()
        .reason_code(DisconnectReasonCode::ServerShuttingDown)
        .props(vec![mqtt_endpoint_tokio::mqtt_ep::packet::Property::ReasonString(reason)])
        .build()
        .unwrap();
    let step = session.step(from_broker(disconnect.into()));
    assert_eq!(
        step.events,
        vec![ClientEvent::Disconnected(
            "Broker disconnected: Some(ServerShuttingDown): server shutting down".to_string()
        )]
    );
}

#[test]
fn inbound_publish_at_the_strongest_level_is_answered_with_a_receipt() {
    let mut session = connected();
    let publish = v5_0::Publish::builder()
        .topic_name("news")
        .unwrap()
        .qos(Qos::ExactlyOnce)
        .retain(true)
        .packet_id(5u16)
        .payload(b"x".to_vec())
        .build()
        .unwrap();
    let step = session.step(from_broker(publish.into()));
    assert_eq!(
        step.events,
        vec![ClientEvent::MessageReceived {
            topic: "news".to_string(),
            qos: 2,
            retain: true,
            payload: b"x".to_vec(),
        }]
    );
    match sent_packet(step) {
        Packet::V5_0Pubrec(pubrec) => assert_eq!(pubrec.packet_id(), 5),
        _ => panic!("expected a publish receipt"),
    }
}

#[test]
fn inbound_publish_at_the_weakest_level_gets_no_reply() {
    let mut session = connected();
    let publish = v5_0::Publish::builder()
        .topic_name("news")
        .unwrap()
        .payload(b"quiet".to_vec())
        .build()
        .unwrap();
    let step = session.step(from_broker(publish.into()));
    assert_eq!(
        step.events,
        vec![ClientEvent::MessageReceived {
            topic: "news".to_string(),
            qos: 0,
            retain: false,
            payload: b"quiet".to_vec(),
        }]
    );
    assert!(matches!(step.action, Action::Wait));
}

#[test]
fn other_packets_are_reported_as_status() {
    let mut session = connected();
    let ping = v5_0::Pingresp::new();
    let step = session.step(from_broker(ping.into()));
    assert_eq!(step.events, vec![ClientEvent::Status("Received packet: \"pingresp\"".to_string())]);
    assert!(matches!(step.action, Action::Wait));
    assert_eq!(session.stage(), Stage::Connected);
}

#[test]
fn shutdown_closes_then_reports_closed_last() {
    let mut session = connected();
    let step = session.step(Input::Shutdown);
    assert!(step.events.is_empty());
    assert!(matches!(step.action, Action::Close));
    assert_eq!(session.stage(), Stage::Closing);
    let command = Input::Command(ClientCommand::Unsubscribe { topic: "a".to_string() });
    assert!(!session.awaits(&command));
    assert!(session.awaits(&Input::TransportClosed));
    let step = session.step(Input::TransportClosed);
    assert_eq!(step.events, vec![ClientEvent::Status("Closed".to_string())]);
    assert!(matches!(step.action, Action::Exit));
    assert!(!session.awaits(&command));
    assert!(!session.awaits(&Input::Shutdown));
    assert!(!session.awaits(&Input::TransportClosed));
}

#[test]
fn receive_failure_ends_the_session() {
    let mut session = connected();
    let step = session.step(Input::Received(Err("connection reset".to_string())));
    assert_eq!(
        step.events,
        vec![ClientEvent::Disconnected("Receive loop failed: connection reset".to_string())]
    );
    assert!(matches!(step.action, Action::Close));
    let step = session.step(Input::TransportClosed);
    assert!(step.events.is_empty());
    assert!(matches!(step.action, Action::Exit));
}

#[test]
fn an_input_that_is_not_awaited_is_refused() {
    let mut session = connected();
    assert!(session.try_step(Input::Sent(Ok(()))).is_none());
    assert!(session.try_step(Input::PacketId(Ok(1))).is_none());
    assert!(session.try_step(Input::TransportClosed).is_none());
    assert_eq!(session.stage(), Stage::Connected);
    let step = session
        .try_step(Input::Command(ClientCommand::Unsubscribe { topic: "a".to_string() }))
        .expect("a connected session takes commands");
    assert!(matches!(step.action, Action::AcquirePacketId));
    assert!(session.try_step(Input::Shutdown).is_none());
    assert!(session
        .try_step(Input::Command(ClientCommand::Unsubscribe { topic: "b".to_string() }))
        .is_none());
    let step = session.try_step(Input::PacketId(Ok(5))).expect("the identifier is awaited");
    assert!(matches!(step.action, Action::Send { packet_id: Some(5), .. }));
}

#[test]
fn lifecycle_runs_from_connecting_to_closed() {
    let (mut session, _) = Session::connect(&login(), 1, 1);
    assert_eq!(session.stage(), Stage::Connecting);
    session.step(Input::TransportOpened(Ok(())));
    assert_eq!(session.stage(), Stage::Handshaking);
    session.step(Input::Sent(Ok(())));
    assert_eq!(session.stage(), Stage::Handshaking);
    session.step(Input::Received(Ok(Inbound {
        kind: "\"connack\"".to_string(),
        packet: InboundPacket::Connack,
    })));
    assert_eq!(session.stage(), Stage::Connected);
    session.step(Input::Shutdown);
    assert_eq!(session.stage(), Stage::Closing);
    session.step(Input::TransportClosed);
    assert_eq!(session.stage(), Stage::Closed);
}

#[test]
fn real_suback_grants_the_level_of_its_first_code() {
    let mut session = connected();
    session.step(Input::Command(ClientCommand::Subscribe { topic: "a".to_string(), qos: 2 }));
    session.step(Input::PacketId(Ok(4)));
    session.step(Input::Sent(Ok(())));
    let suback = v5_0::Suback::builder()
        .packet_id(4)
        .reason_codes(vec![SubackReasonCode::GrantedQos0])
        .build()
        .unwrap();
    let step = session.step(from_broker(suback.into()));
    assert_eq!(
        step.events,
        vec![ClientEvent::Subscribed {
            topic: "a".to_string(),
            qos: 0,
            details: "[GrantedQos0]".to_string(),
        }]
    );

    session.step(Input::Command(ClientCommand::Subscribe { topic: "b".to_string(), qos: 1 }));
    session.step(Input::PacketId(Ok(5)));
    session.step(Input::Sent(Ok(())));
    let suback = v5_0::Suback::builder()
        .packet_id(5)
        .reason_codes(vec![SubackReasonCode::NotAuthorized])
        .build()
        .unwrap();
    let step = session.step(from_broker(suback.into()));
    assert_eq!(
        step.events,
        vec![ClientEvent::Error("Subscription to 'b' refused: [NotAuthorized]".to_string())]
    );
    assert!(!session.is_pending(5));
    let mut consumer = ClientState::new("Connected".to_string());
    for event in step.events {
        consumer.apply_event(event, std::time::UNIX_EPOCH);
    }
    assert_eq!(consumer.granted_qos("b"), None);
}
