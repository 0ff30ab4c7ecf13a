use heapless::String;
use mqtt_core::error::MqttError;
use mqtt_core::text::describe;
use mqtt_core::writer::{
    MqttVersion, MqttWriter, QualityOfService, SessionState, MAX_PACKET_SIZE, MAX_PROPERTIES,
    PACKET_ID_SEED,
};

const WRITE: [u8; 80] = [0; 80];
const RECV: [u8; 64] = [0; 64];

fn fresh<'a>() -> MqttWriter<'a> {
    MqttWriter::new("clientId-8rhWgBODCl", &WRITE, 80, &RECV, 64)
}

fn ready<'a>() -> MqttWriter<'a> {
    let mut writer = fresh();
    assert_eq!(writer.connect(Ok(())), Ok(()));
    writer
}

fn text(content: &str) -> String<32> {
    describe(content, "")
}

#[test]
fn construction_leaves_the_session_uninitialized() {
    let writer = fresh();
    assert_eq!(writer.state(), SessionState::Uninitialized);
}

#[test]
fn construction_fixes_the_configuration() {
    let config = fresh().config();
    assert_eq!(config.client_id, "clientId-8rhWgBODCl");
    assert_eq!(config.version, MqttVersion::MQTTv5);
    assert_eq!(config.max_subscribe_qos, QualityOfService::QoS1);
    assert_eq!(config.max_packet_size, 100);
    assert_eq!(config.packet_id_seed, 20000);
    assert_eq!(config.write_capacity, 80);
    assert_eq!(config.recv_capacity, 64);
    assert_eq!(MAX_PACKET_SIZE, 100);
    assert_eq!(PACKET_ID_SEED, 20000);
    assert_eq!(MAX_PROPERTIES, 5);
}

#[test]
fn accepts_a_client_id_with_buffers_of_the_declared_size() {
    assert!(MqttWriter::accepts("c", &WRITE, 80, &RECV, 64));
    assert!(MqttWriter::accepts("c", &[], 0, &[], 0));
}

#[test]
fn accepts_no_empty_client_id() {
    assert!(!MqttWriter::accepts("", &WRITE, 80, &RECV, 64));
}

#[test]
fn accepts_no_capacity_that_differs_from_the_buffer() {
    assert!(!MqttWriter::accepts("c", &WRITE, 79, &RECV, 64));
    assert!(!MqttWriter::accepts("c", &WRITE, 81, &RECV, 64));
    assert!(!MqttWriter::accepts("c", &WRITE, 80, &RECV, 63));
    assert!(!MqttWriter::accepts("c", &WRITE, 80, &RECV, 80));
}

#[test]
fn connect_makes_the_session_ready() {
    let mut writer = fresh();
    assert_eq!(writer.connect(Ok(())), Ok(()));
    assert_eq!(writer.state(), SessionState::Ready);
}

#[test]
fn connect_keeps_the_configuration() {
    let mut writer = fresh();
    let _ = writer.connect(Ok(()));
    assert_eq!(writer.config().client_id, "clientId-8rhWgBODCl");
    assert_eq!(writer.config().write_capacity, 80);
    assert_eq!(writer.config().recv_capacity, 64);
}

#[test]
fn connect_reports_a_network_failure_as_such() {
    let mut writer = fresh();
    assert_eq!(writer.connect(Err(0xFF)), Err(MqttError::NetworkError));
    assert_eq!(writer.state(), SessionState::Uninitialized);
}

#[test]
fn connect_reports_a_refusal_with_its_description() {
    let mut writer = fresh();
    let expected = MqttError::OtherError(text("Other MQTT Error: NotAuthorized"));
    assert_eq!(writer.connect(Err(0x87)), Err(expected));
    assert_eq!(writer.state(), SessionState::Uninitialized);
}

#[test]
fn connect_may_succeed_after_a_failure() {
    let mut writer = fresh();
    assert!(writer.connect(Err(0x88)).is_err());
    assert_eq!(writer.connect(Ok(())), Ok(()));
    assert_eq!(writer.state(), SessionState::Ready);
}

#[test]
fn connect_on_a_ready_session_changes_nothing() {
    let mut writer = ready();
    assert_eq!(writer.connect(Ok(())), Ok(()));
    assert_eq!(writer.state(), SessionState::Ready);
    assert_eq!(writer.connect(Err(0xFF)), Err(MqttError::NetworkError));
    assert_eq!(writer.state(), SessionState::Ready);
}

#[test]
fn publish_asks_for_one_unretained_message_at_most_once() {
    let writer = ready();
    let content = text("21.5");
    let message = writer.publish("t", &content).unwrap();
    assert_eq!(message.topic, "t");
    assert_eq!(message.payload, b"21.5");
    assert_eq!(message.qos, QualityOfService::QoS0);
    assert!(!message.retain);
}

#[test]
fn publish_takes_an_empty_content() {
    let writer = ready();
    let content = text("");
    let message = writer.publish("sensors/adc", &content).unwrap();
    assert_eq!(message.topic, "sensors/adc");
    assert!(message.payload.is_empty());
}

#[test]
fn publish_before_connect_is_refused_as_a_network_failure() {
    let writer = fresh();
    let content = text("21.5");
    assert_eq!(writer.publish("t", &content).err(), Some(MqttError::NetworkError));
}

#[test]
fn send_before_connect_reports_a_network_failure_whatever_the_outcome() {
    let mut writer = fresh();
    assert_eq!(writer.send(Ok(())), Err(MqttError::NetworkError));
    assert_eq!(writer.state(), SessionState::Uninitialized);
    assert_eq!(writer.send(Err(0x99)), Err(MqttError::NetworkError));
    assert_eq!(writer.state(), SessionState::Uninitialized);
}

#[test]
fn send_after_a_failed_connect_is_still_refused() {
    let mut writer = fresh();
    assert!(writer.connect(Err(0x87)).is_err());
    let content = text("x");
    assert_eq!(writer.publish("t", &content).err(), Some(MqttError::NetworkError));
    assert_eq!(writer.send(Ok(())), Err(MqttError::NetworkError));
}

#[test]
fn send_passes_success_on_and_stays_ready() {
    let mut writer = ready();
    assert_eq!(writer.send(Ok(())), Ok(()));
    assert_eq!(writer.state(), SessionState::Ready);
}

#[test]
fn send_reports_a_network_failure_and_becomes_unusable() {
    let mut writer = ready();
    assert_eq!(writer.send(Err(0xFF)), Err(MqttError::NetworkError));
    assert_eq!(writer.state(), SessionState::Unusable);
}

#[test]
fn send_reports_a_refusal_with_the_bare_name_and_becomes_unusable() {
    let mut writer = ready();
    let expected = MqttError::OtherError(text("BuffError"));
    assert_eq!(writer.send(Err(0xFE)), Err(expected));
    assert_eq!(writer.state(), SessionState::Unusable);
}

#[test]
fn an_unusable_session_stays_unusable() {
    let mut writer = ready();
    assert!(writer.send(Err(0x80)).is_err());
    let content = text("x");
    assert_eq!(writer.publish("t", &content).err(), Some(MqttError::NetworkError));
    assert_eq!(writer.send(Ok(())), Err(MqttError::NetworkError));
    assert_eq!(writer.connect(Ok(())), Err(MqttError::NetworkError));
    assert_eq!(writer.state(), SessionState::Unusable);
    assert_eq!(writer.publish("t", &content).err(), Some(MqttError::NetworkError));
}

#[test]
fn an_unusable_session_still_sorts_a_failed_handshake() {
    let mut writer = ready();
    assert!(writer.send(Err(0xFF)).is_err());
    assert_eq!(writer.connect(Err(0xFF)), Err(MqttError::NetworkError));
    let expected = MqttError::OtherError(text("Other MQTT Error: ServerBusy"));
    assert_eq!(writer.connect(Err(0x89)), Err(expected));
    assert_eq!(writer.state(), SessionState::Unusable);
}

#[test]
fn publishing_twice_asks_for_the_same_message_twice() {
    let mut writer = ready();
    let content = text("same");
    let first = writer.publish("t", &content).unwrap();
    let first = (first.topic, first.payload.to_vec(), first.qos, first.retain);
    assert_eq!(writer.send(Ok(())), Ok(()));
    let second = writer.publish("t", &content).unwrap();
    let second = (second.topic, second.payload.to_vec(), second.qos, second.retain);
    assert_eq!(writer.send(Ok(())), Ok(()));
    assert_eq!(first, second);
    assert_eq!(first, ("t", b"same".to_vec(), QualityOfService::QoS0, false));
}

#[test]
fn a_shorter_content_carries_nothing_of_a_longer_one_before_it() {
    let mut writer = ready();
    let long = text("0123456789abcdefghijklmnopqrstuv");
    let short = text("xy");
    assert_eq!(writer.publish("t", &long).unwrap().payload.len(), 32);
    assert_eq!(writer.send(Ok(())), Ok(()));
    let message = writer.publish("t", &short).unwrap();
    assert_eq!(message.payload, b"xy");
    assert_eq!(message.payload.len(), 2);
}

#[test]
fn publish_hands_on_the_bytes_of_text_that_is_not_ascii() {
    let writer = ready();
    let content = text("21\u{b0}C");
    let message = writer.publish("t", &content).unwrap();
    assert_eq!(message.payload, "21\u{b0}C".as_bytes());
    assert_eq!(message.payload.len(), 5);
}
