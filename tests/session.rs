use airsense::hub::Registry;
use airsense::models::{ESPActiveEvent, ESPRecievedEvent, PmValues, SessionType, WsMessage};
use airsense::query::{LastReading, LastReadingSelect, DAY_MS};
use airsense::session::{Phase, SessionAction, SessionEvent, SessionMachine};

fn zero_reading() -> PmValues {
    PmValues::from_parsed(&vec![Some(0); 14])
}

#[test]
fn main_identify_registers() {
    let mut r = Registry::new();
    let mut s = SessionMachine::new(5);
    let a = s.step(&mut r, SessionEvent::Received(WsMessage::Identify(SessionType::Main)));
    assert!(matches!(a, SessionAction::Wait));
    assert_eq!(s.phase(), Phase::Active);
    assert!(r.contains(5));
}

#[test]
fn child_identify_is_validated() {
    let mut r = Registry::new();
    let mut s = SessionMachine::new(6);
    let a = s.step(&mut r, SessionEvent::Received(WsMessage::Identify(SessionType::Child("D1".to_string()))));
    match a {
        SessionAction::CheckDevice(d) => assert_eq!(d, "D1"),
        other => panic!("unexpected action {:?}", other),
    }
    assert_eq!(s.phase(), Phase::Validating);
    assert!(!r.contains(6));
    let a = s.step(&mut r, SessionEvent::DeviceChecked(true));
    assert!(matches!(a, SessionAction::Wait));
    assert!(r.contains(6));
    r.publish_data(&ESPRecievedEvent { id: "D2".to_string(), data: zero_reading() });
    assert!(r.take_data(6).is_none());
    r.publish_data(&ESPRecievedEvent { id: "D1".to_string(), data: zero_reading() });
    assert_eq!(r.take_data(6).unwrap().id, "D1");
}

#[test]
fn missing_device_or_backend_failure_closes() {
    let mut r = Registry::new();
    let mut s = SessionMachine::new(6);
    s.step(&mut r, SessionEvent::Received(WsMessage::Identify(SessionType::Child("NO".to_string()))));
    assert!(matches!(s.step(&mut r, SessionEvent::DeviceChecked(false)), SessionAction::Close));
    assert_eq!(s.phase(), Phase::Closed);
    assert_eq!(r.len(), 0);
    let mut t = SessionMachine::new(7);
    t.step(&mut r, SessionEvent::Received(WsMessage::Identify(SessionType::Child("D1".to_string()))));
    assert!(matches!(t.step(&mut r, SessionEvent::BackendFailed), SessionAction::Close));
    assert_eq!(r.len(), 0);
}

#[test]
fn non_identify_first_message_closes() {
    let mut r = Registry::new();
    let mut s = SessionMachine::new(1);
    assert!(matches!(s.step(&mut r, SessionEvent::Received(WsMessage::KeepAlive)), SessionAction::Close));
    assert_eq!(s.phase(), Phase::Closed);
    let mut t = SessionMachine::new(2);
    assert!(matches!(t.step(&mut r, SessionEvent::ReadFailed), SessionAction::Close));
    assert_eq!(r.len(), 0);
}

#[test]
fn active_session_pushes_and_closes_on_send_failure() {
    let mut r = Registry::new();
    let mut s = SessionMachine::start();
    let id = s.session_id();
    s.step(&mut r, SessionEvent::Received(WsMessage::Identify(SessionType::Main)));
    assert!(matches!(s.step(&mut r, SessionEvent::KeepAliveTick), SessionAction::Send(WsMessage::KeepAlive)));
    let ev = ESPRecievedEvent { id: "D1".to_string(), data: zero_reading() };
    match s.step(&mut r, SessionEvent::Data(ev)) {
        SessionAction::Send(WsMessage::Data(m)) => assert_eq!(m.id, "D1"),
        other => panic!("unexpected action {:?}", other),
    }
    match s.step(&mut r, SessionEvent::Status(ESPActiveEvent { id: "D1".to_string(), active: false })) {
        SessionAction::Send(WsMessage::DeviceActive(m)) => assert!(m.id == "D1" && !m.active),
        other => panic!("unexpected action {:?}", other),
    }
    assert!(r.contains(id));
    assert!(matches!(s.step(&mut r, SessionEvent::SendFailed), SessionAction::Close));
    assert!(!r.contains(id));
    assert_eq!(s.phase(), Phase::Closed);
    assert!(matches!(s.step(&mut r, SessionEvent::KeepAliveTick), SessionAction::Wait));
}

#[test]
fn history_windows() {
    let now = 1_000 * DAY_MS;
    assert_eq!(LastReading::Last.history_start(now), None);
    assert_eq!(LastReading::Hours24.history_start(now), Some(999 * DAY_MS));
    let q = LastReadingSelect { select: LastReading::Days7 };
    assert_eq!(q.select.history_start(now), Some(993 * DAY_MS));
}
