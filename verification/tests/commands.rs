use mqtt_endpoint_tokio::mqtt_ep::packet::{Packet, Qos};
use mqtt_endpoint_tokio::mqtt_ep::result_code::MqttError;
use mqui::codec::{Inbound, InboundPacket};
use mqui::ipc::{ClientCommand, ClientEvent};
use mqui::login::MqttLoginData;
use mqui::session::{Action, Input, PacketKind, Session, Stage, Step};

fn ready() -> Session {
    let mut data = MqttLoginData::default();
    data.broker = "h".to_string();
    let (mut session, _) = Session::connect(&data, 1, 2);
    session.step(Input::TransportOpened(Ok(())));
    session.step(Input::Sent(Ok(())));
    session.step(Input::Received(Ok(Inbound {
        kind: "\"connack\"".to_string(),
        packet: InboundPacket::Connack,
    })));
    assert_eq!(session.stage(), Stage::Connected);
    session
}

fn arrives(packet: InboundPacket) -> Input {
    Input::Received(Ok(Inbound { kind: "\"packet\"".to_string(), packet }))
}

fn only_error(step: &Step) -> String {
    assert_eq!(step.events.len(), 1);
    match &step.events[0] {
        ClientEvent::Error(text) => text.clone(),
        other => panic!("expected an error, got {:?}", other),
    }
}

fn subscribe(topic: &str, qos: u8) -> Input {
    Input::Command(ClientCommand::Subscribe { topic: topic.to_string(), qos })
}

fn publish(topic: &str, payload: &[u8], qos: u8, retain: bool) -> Input {
    Input::Command(ClientCommand::Publish {
        topic: topic.to_string(),
        payload: payload.to_vec(),
        qos,
        retain,
    })
}

#[test]
fn subscribe_with_a_level_above_two_is_rejected() {
    let mut session = ready();
    let step = session.step(subscribe("a/b", 3));
    assert_eq!(
        only_error(&step),
        "Invalid subscribe QoS 3: No discriminant in enum `Qos` matches the value `3`"
    );
    assert!(matches!(step.action, Action::Wait));
    assert_eq!(session.stage(), Stage::Connected);
    let step = session.step(subscribe("a/b", 255));
    assert_eq!(
        only_error(&step),
        "Invalid subscribe QoS 255: No discriminant in enum `Qos` matches the value `255`"
    );
}

#[test]
fn publish_with_a_level_above_two_is_rejected() {
    let mut session = ready();
    let step = session.step(publish("a/b", b"x", 7, false));
    assert_eq!(
        only_error(&step),
        "Invalid publish QoS 7: No discriminant in enum `Qos` matches the value `7`"
    );
    assert!(matches!(step.action, Action::Wait));
}

#[test]
fn subscribe_at_each_level_is_sent_at_that_level() {
    let levels = [Qos::AtMostOnce, Qos::AtLeastOnce, Qos::ExactlyOnce];
    for qos in 0u8..3 {
        let mut session = ready();
        let step = session.step(subscribe("a/+/c", qos));
        assert!(step.events.is_empty());
        assert!(matches!(step.action, Action::AcquirePacketId));
        let step = session.step(Input::PacketId(Ok(40)));
        match step.action {
            Action::Send { kind, packet_id, packet } => {
                assert_eq!(kind, PacketKind::Subscribe);
                assert_eq!(packet_id, Some(40));
                match packet.inner {
                    Packet::V5_0Subscribe(p) => {
                        assert_eq!(p.entries()[0].sub_opts().qos(), levels[qos as usize]);
                        assert_eq!(p.entries()[0].topic_filter(), "a/+/c");
                    }
                    _ => panic!("expected a subscribe packet"),
                }
            }
            _ => panic!("expected a packet to send"),
        }
        session.step(Input::Sent(Ok(())));
        let step = session.step(arrives(InboundPacket::Suback {
            packet_id: 40,
            codes: vec![qos],
            details: "[ok]".to_string(),
        }));
        assert_eq!(
            step.events,
            vec![ClientEvent::Subscribed {
                topic: "a/+/c".to_string(),
                qos,
                details: "[ok]".to_string()
            }]
        );
    }
}

#[test]
fn subscribe_topic_longer_than_a_field_is_rejected() {
    let mut session = ready();
    let topic = "t".repeat(65536);
    let step = session.step(subscribe(&topic, 0));
    assert_eq!(
        only_error(&step),
        format!("Invalid subscription topic '{}': MalformedPacket", topic)
    );
    assert!(matches!(step.action, Action::Wait));
    assert!(session.awaits(&subscribe("next", 0)));
}

#[test]
fn subscribe_topic_of_exactly_a_field_is_sent() {
    let mut session = ready();
    let topic = "t".repeat(65535);
    session.step(subscribe(&topic, 0));
    let step = session.step(Input::PacketId(Ok(1)));
    assert!(step.events.is_empty());
    assert!(matches!(step.action, Action::Send { kind: PacketKind::Subscribe, .. }));
}

#[test]
fn subscribe_under_identifier_zero_fails_to_build() {
    let mut session = ready();
    session.step(subscribe("a", 1));
    let step = session.step(Input::PacketId(Ok(0)));
    assert_eq!(only_error(&step), "Failed to build SUBSCRIBE: MalformedPacket");
    assert_eq!(session.stage(), Stage::Connected);
}

#[test]
fn subscribe_with_a_malformed_share_name_fails_to_build() {
    for topic in ["$share/", "$share/group", "$share//a", "$share/gr+up/a", "$share/gr#up/a"] {
        let mut session = ready();
        let step = session.step(subscribe(topic, 1));
        assert_eq!(only_error(&step), "Failed to build SUBSCRIBE: MalformedPacket", "{}", topic);
        assert!(matches!(step.action, Action::Wait), "{}", topic);
    }
    for topic in ["$share/group/a", "$share/g/", "$sharex", "share/+"] {
        let mut session = ready();
        session.step(subscribe(topic, 1));
        let step = session.step(Input::PacketId(Ok(3)));
        assert!(step.events.is_empty(), "{}", topic);
        assert!(matches!(step.action, Action::Send { .. }), "{}", topic);
    }
}

#[test]
fn identifier_allocation_failure_drops_the_command() {
    let mut session = ready();
    session.step(subscribe("a", 1));
    let step = session.step(Input::PacketId(Err("no identifier left".to_string())));
    assert_eq!(only_error(&step), "Failed to acquire packet id: no identifier left");
    assert!(matches!(step.action, Action::Wait));
    assert!(session.awaits(&subscribe("a", 1)));
}

#[test]
fn send_failure_is_reported_and_registers_nothing() {
    let mut session = ready();
    session.step(subscribe("a", 1));
    session.step(Input::PacketId(Ok(4)));
    let step = session.step(Input::Sent(Err("broken pipe".to_string())));
    assert_eq!(only_error(&step), "Failed to send SUBSCRIBE: broken pipe");
    assert!(!session.is_pending(4));

    session.step(Input::Command(ClientCommand::Unsubscribe { topic: "a".to_string() }));
    session.step(Input::PacketId(Ok(5)));
    let step = session.step(Input::Sent(Err("broken pipe".to_string())));
    assert_eq!(only_error(&step), "Failed to send UNSUBSCRIBE: broken pipe");
    assert!(!session.is_pending(5));

    session.step(publish("a", b"x", 1, false));
    session.step(Input::PacketId(Ok(6)));
    let step = session.step(Input::Sent(Err("broken pipe".to_string())));
    assert_eq!(only_error(&step), "Failed to send PUBLISH: broken pipe");
    assert!(!session.is_pending(6));
    assert_eq!(session.stage(), Stage::Connected);
}

#[test]
fn unsubscribe_is_sent_and_acknowledged() {
    let mut session = ready();
    let step = session.step(Input::Command(ClientCommand::Unsubscribe { topic: "a/b".to_string() }));
    assert!(step.events.is_empty());
    assert!(matches!(step.action, Action::AcquirePacketId));
    let step = session.step(Input::PacketId(Ok(12)));
    match step.action {
        Action::Send { kind: PacketKind::Unsubscribe, packet_id: Some(12), packet } => {
            match packet.inner {
                Packet::V5_0Unsubscribe(p) => {
                    assert_eq!(p.packet_id(), 12);
                    assert_eq!(p.entries().len(), 1);
                    assert_eq!(p.entries()[0].as_str(), "a/b");
                }
                _ => panic!("expected an unsubscribe packet"),
            }
        }
        _ => panic!("expected a packet to send"),
    }
    session.step(Input::Sent(Ok(())));
    assert!(session.is_pending(12));
    let step = session.step(arrives(InboundPacket::Unsuback {
        packet_id: 12,
        details: "[Success]".to_string(),
    }));
    assert_eq!(
        step.events,
        vec![ClientEvent::Unsubscribed {
            topic: "a/b".to_string(),
            details: "[Success]".to_string()
        }]
    );
    assert!(!session.is_pending(12));
}

#[test]
fn unsubscribe_that_the_codec_refuses_fails_to_build() {
    let mut session = ready();
    let step = session.step(Input::Command(ClientCommand::Unsubscribe {
        topic: "$share//x".to_string(),
    }));
    assert_eq!(only_error(&step), "Failed to build UNSUBSCRIBE: MalformedPacket");
    assert!(matches!(step.action, Action::Wait));
    session.step(Input::Command(ClientCommand::Unsubscribe { topic: "x".to_string() }));
    let step = session.step(Input::PacketId(Ok(0)));
    assert_eq!(only_error(&step), "Failed to build UNSUBSCRIBE: MalformedPacket");
}

#[test]
fn acknowledgment_for_an_unknown_identifier_is_a_status() {
    let mut session = ready();
    let step = session.step(arrives(InboundPacket::Unsuback {
        packet_id: 77,
        details: "[Success]".to_string(),
    }));
    assert_eq!(
        step.events,
        vec![ClientEvent::Status("UNSUBACK for unknown packet id 77".to_string())]
    );
    assert!(matches!(step.action, Action::Wait));
    assert_eq!(session.stage(), Stage::Connected);
    let step = session.step(arrives(InboundPacket::Suback {
        packet_id: 65535,
        codes: vec![],
        details: "[]".to_string(),
    }));
    assert_eq!(
        step.events,
        vec![ClientEvent::Status("SUBACK for unknown packet id 65535".to_string())]
    );
}

#[test]
fn unsubscribe_of_a_topic_never_subscribed_is_still_sent() {
    let mut session = ready();
    session.step(Input::Command(ClientCommand::Unsubscribe { topic: "never/seen".to_string() }));
    let step = session.step(Input::PacketId(Ok(8)));
    assert!(step.events.is_empty());
    assert!(matches!(
        step.action,
        Action::Send { kind: PacketKind::Unsubscribe, packet_id: Some(8), .. }
    ));
    session.step(Input::Sent(Ok(())));
    let step = session.step(arrives(InboundPacket::Unsuback {
        packet_id: 9,
        details: "[NoSubscriptionExisted]".to_string(),
    }));
    assert_eq!(
        step.events,
        vec![ClientEvent::Status("UNSUBACK for unknown packet id 9".to_string())]
    );
    assert!(session.is_pending(8));
}

#[test]
fn publish_at_the_weakest_level_is_done_when_sent() {
    let mut session = ready();
    let step = session.step(publish("a/b", b"fire", 0, true));
    assert!(step.events.is_empty());
    match step.action {
        Action::Send { kind: PacketKind::Publish, packet_id: None, packet } => match packet.inner {
            Packet::V5_0Publish(p) => {
                assert_eq!(p.packet_id(), None);
                assert_eq!(p.qos(), Qos::AtMostOnce);
                assert!(p.retain());
                assert_eq!(p.topic_name(), "a/b");
                assert_eq!(p.payload().as_slice(), b"fire");
            }
            _ => panic!("expected a publish packet"),
        },
        _ => panic!("expected a packet to send without identifier"),
    }
    let step = session.step(Input::Sent(Ok(())));
    assert_eq!(
        step.events,
        vec![ClientEvent::Published { topic: "a/b".to_string(), packet_id: None }]
    );
    for id in [0u16, 1, 2, 65535] {
        assert!(!session.is_pending(id));
    }
}

#[test]
fn publish_topic_with_a_wildcard_is_rejected() {
    for topic in ["a/#", "a/+/b", "+", "#"] {
        let mut session = ready();
        let step = session.step(publish(topic, b"x", 1, false));
        assert_eq!(
            only_error(&step),
            format!("Invalid publish topic '{}': MalformedPacket", topic)
        );
        assert!(matches!(step.action, Action::Wait));
    }
}

#[test]
fn publish_with_an_empty_topic_fails_to_build() {
    let mut session = ready();
    let step = session.step(publish("", b"x", 0, false));
    assert_eq!(only_error(&step), "Failed to build PUBLISH: MalformedPacket");
    let step = session.step(publish("", b"x", 1, false));
    assert_eq!(only_error(&step), "Failed to build PUBLISH: MalformedPacket");
    assert!(matches!(step.action, Action::Wait));
}

#[test]
fn publish_under_identifier_zero_fails_to_build() {
    let mut session = ready();
    session.step(publish("a", b"x", 2, false));
    let step = session.step(Input::PacketId(Ok(0)));
    assert_eq!(only_error(&step), "Failed to build PUBLISH: MalformedPacket");
}

#[test]
fn publish_at_the_middle_level_completes_on_its_acknowledgment() {
    let mut session = ready();
    session.step(publish("a", b"x", 1, false));
    session.step(Input::PacketId(Ok(30)));
    session.step(Input::Sent(Ok(())));
    let step = session.step(arrives(InboundPacket::Pubrec { packet_id: 30 }));
    assert!(step.events.is_empty());
    assert!(matches!(step.action, Action::Wait));
    assert!(session.is_pending(30));
    let step = session.step(arrives(InboundPacket::Puback { packet_id: 30 }));
    assert_eq!(
        step.events,
        vec![ClientEvent::Published { topic: "a".to_string(), packet_id: Some(30) }]
    );
    let step = session.step(arrives(InboundPacket::Puback { packet_id: 30 }));
    assert!(step.events.is_empty());
    let step = session.step(arrives(InboundPacket::Pubcomp { packet_id: 30 }));
    assert!(step.events.is_empty());
}

#[test]
fn receipt_without_a_pending_publish_does_nothing() {
    let mut session = ready();
    let step = session.step(arrives(InboundPacket::Pubrec { packet_id: 4 }));
    assert!(step.events.is_empty());
    assert!(matches!(step.action, Action::Wait));
}

#[test]
fn release_that_cannot_be_sent_is_reported() {
    let mut session = ready();
    session.step(publish("a", b"x", 2, false));
    session.step(Input::PacketId(Ok(11)));
    session.step(Input::Sent(Ok(())));
    let step = session.step(arrives(InboundPacket::Pubrec { packet_id: 11 }));
    assert!(matches!(step.action, Action::Send { kind: PacketKind::Pubrel, .. }));
    let step = session.step(Input::Sent(Err("closed".to_string())));
    assert_eq!(only_error(&step), "Failed to send PUBREL: closed");
    assert!(session.is_pending(11));
}

#[test]
fn inbound_publish_under_identifier_zero_cannot_be_acknowledged() {
    let mut session = ready();
    let step = session.step(arrives(InboundPacket::Publish {
        topic: "t".to_string(),
        payload: vec![1, 2],
        qos: 1,
        retain: false,
        packet_id: Some(0),
    }));
    assert_eq!(
        step.events,
        vec![
            ClientEvent::MessageReceived {
                topic: "t".to_string(),
                qos: 1,
                retain: false,
                payload: vec![1, 2]
            },
            ClientEvent::Error("Failed to build PUBACK: MalformedPacket".to_string()),
        ]
    );
    assert!(matches!(step.action, Action::Wait));
    let step = session.step(arrives(InboundPacket::Publish {
        topic: "t".to_string(),
        payload: vec![],
        qos: 2,
        retain: false,
        packet_id: Some(0),
    }));
    assert_eq!(
        step.events[1],
        ClientEvent::Error("Failed to build PUBREC: MalformedPacket".to_string())
    );
}

#[test]
fn acknowledgment_reply_that_cannot_be_sent_is_reported() {
    let mut session = ready();
    session.step(arrives(InboundPacket::Publish {
        topic: "t".to_string(),
        payload: vec![],
        qos: 1,
        retain: false,
        packet_id: Some(2),
    }));
    let step = session.step(Input::Sent(Err("gone".to_string())));
    assert_eq!(only_error(&step), "Failed to send PUBACK: gone");
    session.step(arrives(InboundPacket::Publish {
        topic: "t".to_string(),
        payload: vec![],
        qos: 2,
        retain: false,
        packet_id: Some(2),
    }));
    let step = session.step(Input::Sent(Err("gone".to_string())));
    assert_eq!(only_error(&step), "Failed to send PUBREC: gone");
}

#[test]
fn identifiers_of_pending_operations_stay_apart() {
    let mut session = ready();
    session.step(subscribe("a", 1));
    session.step(Input::PacketId(Ok(1)));
    session.step(Input::Sent(Ok(())));
    session.step(Input::Command(ClientCommand::Unsubscribe { topic: "b".to_string() }));
    session.step(Input::PacketId(Ok(2)));
    session.step(Input::Sent(Ok(())));
    session.step(publish("c", b"x", 2, false));
    session.step(Input::PacketId(Ok(3)));
    session.step(Input::Sent(Ok(())));
    for id in [1u16, 2, 3] {
        assert!(session.is_pending(id));
    }
    let step = session.step(arrives(InboundPacket::Suback {
        packet_id: 2,
        codes: vec![0],
        details: String::new(),
    }));
    assert_eq!(step.events, vec![ClientEvent::Status("SUBACK for unknown packet id 2".to_string())]);
    let step = session.step(arrives(InboundPacket::Unsuback {
        packet_id: 2,
        details: String::new(),
    }));
    assert_eq!(
        step.events,
        vec![ClientEvent::Unsubscribed { topic: "b".to_string(), details: String::new() }]
    );
    assert!(session.is_pending(1));
    assert!(!session.is_pending(2));
    assert!(session.is_pending(3));
}

#[test]
fn publish_longer_than_a_packet_is_rejected() {
    let mut session = ready();
    let step = session.step(publish("a", &vec![0u8; 268_435_452], 0, false));
    assert_eq!(only_error(&step), "Failed to build PUBLISH: PacketTooLarge");
    assert!(matches!(step.action, Action::Wait));
    assert_eq!(session.stage(), Stage::Connected);

    let step = session.step(publish("a", &vec![0u8; 268_435_450], 1, false));
    assert_eq!(only_error(&step), "Failed to build PUBLISH: PacketTooLarge");
    assert!(matches!(step.action, Action::Wait));

    let step = session.step(publish("a", &vec![0u8; 268_435_456], 0, false));
    assert_eq!(only_error(&step), "Failed to build PUBLISH: PacketTooLarge");
}

#[test]
fn field_length_is_counted_in_bytes() {
    let fits = "\u{20ac}".repeat(21845);
    assert_eq!(fits.len(), 65535);
    let too_long = "\u{20ac}".repeat(21846);

    let mut session = ready();
    session.step(subscribe(&fits, 0));
    let step = session.step(Input::PacketId(Ok(1)));
    assert!(matches!(step.action, Action::Send { .. }));

    let mut session = ready();
    let step = session.step(subscribe(&too_long, 0));
    assert_eq!(
        only_error(&step),
        format!("Invalid subscription topic '{}': MalformedPacket", too_long)
    );

    let mut session = ready();
    let step = session.step(publish(&too_long, b"x", 1, false));
    assert_eq!(
        only_error(&step),
        format!("Invalid publish topic '{}': MalformedPacket", too_long)
    );
    let step = session.step(publish(&fits, b"x", 1, false));
    assert!(matches!(step.action, Action::AcquirePacketId));
    let step = session.step(Input::PacketId(Ok(2)));
    assert!(matches!(step.action, Action::Send { kind: PacketKind::Publish, .. }));

    let mut session = ready();
    let step = session.step(Input::Command(ClientCommand::Unsubscribe { topic: too_long }));
    assert_eq!(only_error(&step), "Failed to build UNSUBSCRIBE: MalformedPacket");
}

fn subscribed_under(session: &mut Session, topic: &str, qos: u8, packet_id: u16) {
    session.step(subscribe(topic, qos));
    session.step(Input::PacketId(Ok(packet_id)));
    session.step(Input::Sent(Ok(())));
    assert!(session.is_pending(packet_id));
}

#[test]
fn subscribed_reports_the_level_the_broker_granted() {
    let mut session = ready();
    subscribed_under(&mut session, "a", 2, 10);
    let step = session.step(arrives(InboundPacket::Suback {
        packet_id: 10,
        codes: vec![1],
        details: "[GrantedQos1]".to_string(),
    }));
    assert_eq!(
        step.events,
        vec![ClientEvent::Subscribed {
            topic: "a".to_string(),
            qos: 1,
            details: "[GrantedQos1]".to_string()
        }]
    );
    assert!(!session.is_pending(10));

    subscribed_under(&mut session, "b", 0, 11);
    let step = session.step(arrives(InboundPacket::Suback {
        packet_id: 11,
        codes: vec![2, 0x80],
        details: "[GrantedQos2, UnspecifiedError]".to_string(),
    }));
    assert_eq!(
        step.events,
        vec![ClientEvent::Subscribed {
            topic: "b".to_string(),
            qos: 2,
            details: "[GrantedQos2, UnspecifiedError]".to_string()
        }]
    );
}

#[test]
fn refused_subscription_is_an_error_and_ends_the_entry() {
    for codes in [vec![0x87u8], vec![0x80, 1], vec![3], vec![]] {
        let mut session = ready();
        subscribed_under(&mut session, "secret/#", 1, 12);
        let step = session.step(arrives(InboundPacket::Suback {
            packet_id: 12,
            codes,
            details: "[NotAuthorized]".to_string(),
        }));
        assert_eq!(
            only_error(&step),
            "Subscription to 'secret/#' refused: [NotAuthorized]"
        );
        assert!(matches!(step.action, Action::Wait));
        assert!(!session.is_pending(12));
        let step = session.step(arrives(InboundPacket::Suback {
            packet_id: 12,
            codes: vec![1],
            details: "[GrantedQos1]".to_string(),
        }));
        assert_eq!(
            step.events,
            vec![ClientEvent::Status("SUBACK for unknown packet id 12".to_string())]
        );
    }
}

#[test]
fn invalid_commands_ask_for_no_identifier() {
    let long = "x".repeat(65536);
    let invalid = [
        subscribe("a", 3),
        subscribe(&long, 1),
        subscribe("$share//a", 1),
        Input::Command(ClientCommand::Unsubscribe { topic: long.clone() }),
        Input::Command(ClientCommand::Unsubscribe { topic: "$share/g".to_string() }),
        publish("a", b"x", 3, false),
        publish("a/#", b"x", 1, false),
        publish(&long, b"x", 2, false),
        publish("", b"x", 2, false),
    ];
    let mut session = ready();
    for command in invalid {
        let step = session.step(command);
        assert_eq!(step.events.len(), 1);
        assert!(matches!(step.events[0], ClientEvent::Error(_)));
        assert!(matches!(step.action, Action::Wait));
        assert_eq!(session.stage(), Stage::Connected);
    }
    let step = session.step(subscribe("a", 1));
    assert!(step.events.is_empty());
    assert!(matches!(step.action, Action::AcquirePacketId));
}

#[test]
fn codec_texts_are_those_of_its_errors() {
    let mut session = ready();
    let step = session.step(publish("", b"x", 1, false));
    assert_eq!(
        only_error(&step),
        format!("Failed to build PUBLISH: {}", MqttError::MalformedPacket)
    );
}

#[test]
fn commands_are_made_from_what_was_entered() {
    assert_eq!(
        ClientCommand::subscribe_to("  a/b ", 1),
        Some(ClientCommand::Subscribe { topic: "a/b".to_string(), qos: 1 })
    );
    assert_eq!(ClientCommand::subscribe_to("   ", 1), None);
    assert_eq!(
        ClientCommand::unsubscribe_from("\ta/b\n"),
        Some(ClientCommand::Unsubscribe { topic: "a/b".to_string() })
    );
    assert_eq!(ClientCommand::unsubscribe_from(""), None);
    assert_eq!(
        ClientCommand::publish_to(" t ", " caf\u{e9} ", 2, true),
        Some(ClientCommand::Publish {
            topic: "t".to_string(),
            payload: " caf\u{e9} ".as_bytes().to_vec(),
            qos: 2,
            retain: true,
        })
    );
    assert_eq!(ClientCommand::publish_to("", "x", 0, false), None);
}
