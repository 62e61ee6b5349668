use mqtt_endpoint_tokio::mqtt_ep::packet::v5_0;
use mqtt_endpoint_tokio::mqtt_ep::packet::{Packet, Qos};
use mqtt_endpoint_tokio::mqtt_ep::result_code::{SubackReasonCode, UnsubackReasonCode};
use mqui::codec::{
    decode, inbound_from, qos_to_u8, CodecPacket, InboundPacket, PacketParts, PublishFields,
};

fn plain(packet: Packet) -> (String, InboundPacket) {
    let kind = format!("{:?}", packet.packet_type());
    let inbound = decode(&CodecPacket { inner: packet });
    assert_eq!(inbound.kind, kind);
    (inbound.kind, inbound.packet)
}

#[test]
fn levels_have_their_numbers() {
    assert_eq!(qos_to_u8(Qos::AtMostOnce), 0);
    assert_eq!(qos_to_u8(Qos::AtLeastOnce), 1);
    assert_eq!(qos_to_u8(Qos::ExactlyOnce), 2);
}

#[test]
fn suback_is_decoded_with_identifier_and_reason_codes() {
    let packet = v5_0::Suback::builder()
        .packet_id(300)
        .reason_codes(vec![SubackReasonCode::GrantedQos2, SubackReasonCode::NotAuthorized])
        .build()
        .unwrap();
    let (kind, body) = plain(packet.into());
    assert_eq!(kind, "\"suback\"");
    match body {
        InboundPacket::Suback { packet_id, codes, details } => {
            assert_eq!(packet_id, 300);
            assert_eq!(codes, vec![2, 0x87]);
            assert_eq!(details, "[GrantedQos2, NotAuthorized]");
        }
        _ => panic!("expected a subscribe acknowledgment"),
    }
}

#[test]
fn unsuback_is_decoded_with_identifier_and_reason_codes() {
    let packet = v5_0::Unsuback::builder()
        .packet_id(7)
        .reason_codes(vec![UnsubackReasonCode::NoSubscriptionExisted])
        .build()
        .unwrap();
    match plain(packet.into()).1 {
        InboundPacket::Unsuback { packet_id, details } => {
            assert_eq!(packet_id, 7);
            assert_eq!(details, "[NoSubscriptionExisted]");
        }
        _ => panic!("expected an unsubscribe acknowledgment"),
    }
}

#[test]
fn publish_acknowledgments_are_decoded_with_their_identifier() {
    let puback = v5_0::Puback::builder().packet_id(1).build().unwrap();
    assert!(matches!(plain(puback.into()).1, InboundPacket::Puback { packet_id: 1 }));
    let pubrec = v5_0::Pubrec::builder().packet_id(2).build().unwrap();
    assert!(matches!(plain(pubrec.into()).1, InboundPacket::Pubrec { packet_id: 2 }));
    let pubcomp = v5_0::Pubcomp::builder().packet_id(3).build().unwrap();
    assert!(matches!(plain(pubcomp.into()).1, InboundPacket::Pubcomp { packet_id: 3 }));
}

#[test]
fn publish_is_decoded_with_all_its_fields() {
    let packet = v5_0::Publish::builder()
        .topic_name("a/b")
        .unwrap()
        .qos(Qos::ExactlyOnce)
        .retain(true)
        .packet_id(99u16)
        .payload(vec![0u8, 255])
        .build()
        .unwrap();
    match plain(packet.into()).1 {
        InboundPacket::Publish { topic, payload, qos, retain, packet_id } => {
            assert_eq!(topic, "a/b");
            assert_eq!(payload, vec![0u8, 255]);
            assert_eq!(qos, 2);
            assert!(retain);
            assert_eq!(packet_id, Some(99));
        }
        _ => panic!("expected a publish"),
    }
}

#[test]
fn disconnect_without_reason_code_is_decoded() {
    let packet = v5_0::Disconnect::builder().build().unwrap();
    let (kind, body) = plain(packet.into());
    assert_eq!(kind, "\"disconnect\"");
    match body {
        InboundPacket::Disconnect { reason, stated } => {
            assert_eq!(reason, "None");
            assert_eq!(stated, None);
        }
        _ => panic!("expected a disconnect"),
    }
}

#[test]
fn packets_of_the_older_protocol_version_are_other_packets() {
    let packet = mqtt_endpoint_tokio::mqtt_ep::packet::v3_1_1::Puback::builder()
        .packet_id(1)
        .build()
        .unwrap();
    let (kind, body) = plain(packet.into());
    assert_eq!(kind, "\"puback\"");
    assert!(matches!(body, InboundPacket::Other));
    let ping = v5_0::Pingreq::new();
    assert!(matches!(plain(ping.into()).1, InboundPacket::Other));
}

fn no_parts(kind: &str) -> PacketParts {
    PacketParts {
        kind: kind.to_string(),
        connack: false,
        publish: None,
        suback: None,
        unsuback: None,
        puback: None,
        pubrec: None,
        pubcomp: None,
        disconnect: None,
    }
}

#[test]
fn parts_without_fields_are_another_packet() {
    let inbound = inbound_from(no_parts("\"auth\""));
    assert_eq!(inbound.kind, "\"auth\"");
    assert!(matches!(inbound.packet, InboundPacket::Other));
}

#[test]
fn each_kind_of_parts_gives_its_packet() {
    let mut parts = no_parts("k");
    parts.connack = true;
    assert!(matches!(inbound_from(parts).packet, InboundPacket::Connack));

    let mut parts = no_parts("k");
    parts.publish = Some(PublishFields {
        topic: "t".to_string(),
        payload: vec![9, 8],
        qos: Qos::AtLeastOnce,
        retain: true,
        packet_id: Some(4),
    });
    match inbound_from(parts).packet {
        InboundPacket::Publish { topic, payload, qos, retain, packet_id } => {
            assert_eq!(topic, "t");
            assert_eq!(payload, vec![9, 8]);
            assert_eq!(qos, 1);
            assert!(retain);
            assert_eq!(packet_id, Some(4));
        }
        _ => panic!("expected a publish"),
    }

    let mut parts = no_parts("k");
    parts.suback = Some((5, vec![1, 128], "[a]".to_string()));
    match inbound_from(parts).packet {
        InboundPacket::Suback { packet_id, codes, details } => {
            assert_eq!(packet_id, 5);
            assert_eq!(codes, vec![1, 128]);
            assert_eq!(details, "[a]");
        }
        _ => panic!("expected a subscribe acknowledgment"),
    }

    let mut parts = no_parts("k");
    parts.unsuback = Some((6, "[b]".to_string()));
    match inbound_from(parts).packet {
        InboundPacket::Unsuback { packet_id, details } => {
            assert_eq!(packet_id, 6);
            assert_eq!(details, "[b]");
        }
        _ => panic!("expected an unsubscribe acknowledgment"),
    }

    let mut parts = no_parts("k");
    parts.puback = Some(7);
    assert!(matches!(inbound_from(parts).packet, InboundPacket::Puback { packet_id: 7 }));
    let mut parts = no_parts("k");
    parts.pubrec = Some(8);
    assert!(matches!(inbound_from(parts).packet, InboundPacket::Pubrec { packet_id: 8 }));
    let mut parts = no_parts("k");
    parts.pubcomp = Some(9);
    assert!(matches!(inbound_from(parts).packet, InboundPacket::Pubcomp { packet_id: 9 }));

    let mut parts = no_parts("k");
    parts.disconnect = Some(("why".to_string(), Some("because".to_string())));
    match inbound_from(parts).packet {
        InboundPacket::Disconnect { reason, stated } => {
            assert_eq!(reason, "why");
            assert_eq!(stated.as_deref(), Some("because"));
        }
        _ => panic!("expected a disconnect"),
    }
}

#[test]
fn the_first_kind_present_decides() {
    let mut parts = no_parts("k");
    parts.connack = true;
    parts.puback = Some(1);
    parts.disconnect = Some(("x".to_string(), None));
    assert!(matches!(inbound_from(parts).packet, InboundPacket::Connack));

    let mut parts = no_parts("k");
    parts.suback = Some((2, vec![], String::new()));
    parts.unsuback = Some((3, String::new()));
    parts.pubcomp = Some(4);
    assert!(matches!(inbound_from(parts).packet, InboundPacket::Suback { packet_id: 2, .. }));

    let mut parts = no_parts("k");
    parts.pubrec = Some(5);
    parts.pubcomp = Some(6);
    parts.disconnect = Some(("x".to_string(), None));
    assert!(matches!(inbound_from(parts).packet, InboundPacket::Pubrec { packet_id: 5 }));
}
