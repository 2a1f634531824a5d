use esp_wiffy::packet::{message_count, publication_at, publications, PubPacket, QoS, TOPIC};
use esp_wiffy::text::{fire_payload, humidity_payload, temperature_payload};

#[test]
fn temperature_payload_positive() {
    assert_eq!(temperature_payload(23), b"23_tmp".to_vec());
}

#[test]
fn temperature_payload_negative() {
    assert_eq!(temperature_payload(-5), b"-5_tmp".to_vec());
}

#[test]
fn temperature_payload_extremes() {
    assert_eq!(temperature_payload(-128), b"-128_tmp".to_vec());
    assert_eq!(temperature_payload(127), b"127_tmp".to_vec());
    assert_eq!(temperature_payload(0), b"0_tmp".to_vec());
}

#[test]
fn humidity_payload_values() {
    assert_eq!(humidity_payload(45), b"45_humidity".to_vec());
    assert_eq!(humidity_payload(0), b"0_humidity".to_vec());
    assert_eq!(humidity_payload(255), b"255_humidity".to_vec());
    assert_eq!(humidity_payload(7), b"7_humidity".to_vec());
}

#[test]
fn payloads_fit_their_capacities() {
    for t in i8::MIN..=i8::MAX {
        assert!(temperature_payload(t).len() <= 20);
    }
    for h in u8::MIN..=u8::MAX {
        assert!(humidity_payload(h).len() <= 30);
    }
}

#[test]
fn fire_payload_text() {
    assert_eq!(fire_payload(), b"FIRE".to_vec());
}

#[test]
fn reading_gives_temperature_then_humidity() {
    let msgs = publications(&PubPacket::Temp(21, 40));
    assert_eq!(msgs.len(), 2);
    assert_eq!(msgs[0].payload, b"21_tmp".to_vec());
    assert_eq!(msgs[1].payload, b"40_humidity".to_vec());
    for m in &msgs {
        assert_eq!(m.topic, "esp32/shazbot/test");
        assert_eq!(m.qos, QoS::AtMostOnce);
        assert!(m.retain);
    }
}

#[test]
fn flame_gives_fire_message() {
    let msgs = publications(&PubPacket::Other(true));
    assert_eq!(msgs.len(), 1);
    assert_eq!(msgs[0].payload, b"FIRE".to_vec());
    assert_eq!(msgs[0].topic, TOPIC);
    assert_eq!(msgs[0].qos, QoS::AtMostOnce);
    assert!(msgs[0].retain);
}

#[test]
fn no_flame_gives_no_message() {
    assert!(publications(&PubPacket::Other(false)).is_empty());
    assert_eq!(message_count(&PubPacket::Other(false)), 0);
}

#[test]
fn message_counts() {
    assert_eq!(message_count(&PubPacket::Temp(-3, 99)), 2);
    assert_eq!(message_count(&PubPacket::Other(true)), 1);
}

#[test]
fn publication_at_picks_the_right_message() {
    let p = PubPacket::Temp(-12, 88);
    assert_eq!(publication_at(&p, 0).payload, b"-12_tmp".to_vec());
    assert_eq!(publication_at(&p, 1).payload, b"88_humidity".to_vec());
}

#[test]
fn distinct_readings_give_distinct_messages() {
    let mut seen = std::collections::HashSet::new();
    for t in i8::MIN..=i8::MAX {
        assert!(seen.insert(temperature_payload(t)));
    }
    let mut seen_h = std::collections::HashSet::new();
    for h in u8::MIN..=u8::MAX {
        assert!(seen_h.insert(humidity_payload(h)));
    }
}
