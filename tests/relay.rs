use usb_serial_relay::orchestrator::{RelayAction, RelayEvent, RelayParent, RunError};
use usb_serial_relay::relay::{
    candidate_devices, classify_receive, devices_or_none, direct_usb_fd, relay_message, select_role,
    ConfigError, RecvOutcome, Role, RELAY_BUFFER_LEN,
};
use usb_serial_relay::session::SessionError;

#[test]
fn receive_outcomes_are_told_apart() {
    assert_eq!(classify_receive(Some((21, 1)), 7), RecvOutcome::Delivered { size: 21, fd: 7 });
    assert_eq!(classify_receive(Some((21, 0)), 7), RecvOutcome::MissingFd);
    assert_eq!(classify_receive(None, 7), RecvOutcome::TransportError);
    assert_eq!(RELAY_BUFFER_LEN, 256);
}

#[test]
fn roles_by_environment() {
    assert_eq!(select_role(true, true, true, false), Role::RelayChild);
    assert_eq!(select_role(true, true, true, true), Role::RelayChild);
    assert_eq!(select_role(true, true, false, true), Role::RelayParent);
    assert_eq!(select_role(false, true, false, false), Role::Direct);
    assert_eq!(select_role(false, false, false, false), Role::Direct);
}

#[test]
fn direct_mode_descriptor() {
    assert_eq!(direct_usb_fd(Some("7")), Ok(7));
    assert_eq!(direct_usb_fd(Some("+12")), Ok(12));
    assert_eq!(direct_usb_fd(Some("-1")), Ok(-1));
    assert_eq!(direct_usb_fd(Some("2147483647")), Ok(i32::MAX));
    assert_eq!(direct_usb_fd(Some("2147483648")), Err(ConfigError::BadUsbFd));
    assert_eq!(direct_usb_fd(Some(" 7")), Err(ConfigError::BadUsbFd));
    assert_eq!(direct_usb_fd(Some("")), Err(ConfigError::BadUsbFd));
    assert_eq!(direct_usb_fd(Some("-")), Err(ConfigError::BadUsbFd));
    assert_eq!(direct_usb_fd(None), Err(ConfigError::MissingUsbFd));
}

#[test]
fn relay_child_message() {
    let m = relay_message("/dev/bus/usb/001/002", "9", "4").unwrap();
    assert_eq!(m.socket, 4);
    assert_eq!(m.fd, 9);
    assert_eq!(m.payload, "/dev/bus/usb/001/002");
    assert!(matches!(relay_message("/dev/x", "9", "four"), Err(ConfigError::BadRelayFd)));
    assert!(matches!(relay_message("/dev/x", "nine", "4"), Err(ConfigError::BadUsbFd)));
    assert!(matches!(relay_message("/dev/x", "nine", "four"), Err(ConfigError::BadRelayFd)));
}

#[test]
fn candidate_list_from_broker_output() {
    let out = br#"["/dev/bus/usb/001/002", "/dev/bus/usb/001/003"]"#;
    assert_eq!(
        candidate_devices(Some(&out[..])),
        vec![String::from("/dev/bus/usb/001/002"), String::from("/dev/bus/usb/001/003")]
    );
    assert_eq!(candidate_devices(Some(&b"[]\n"[..])), Vec::<String>::new());
    assert_eq!(candidate_devices(Some(&b"no devices"[..])), Vec::<String>::new());
    assert_eq!(candidate_devices(Some(&b"[1, 2]"[..])), Vec::<String>::new());
    assert_eq!(candidate_devices(None), Vec::<String>::new());
    assert_eq!(devices_or_none(None), Vec::<String>::new());
    assert_eq!(devices_or_none(Some(vec![String::from("a")])), vec![String::from("a")]);
}

#[test]
fn empty_candidate_list_is_a_clean_run() {
    let p = RelayParent::new(candidate_devices(Some(&b"[]"[..])));
    assert!(p.is_done());
    assert!(matches!(p.action(), RelayAction::Finish { resolved: 0 }));
    let p = RelayParent::new(candidate_devices(None));
    assert!(matches!(p.action(), RelayAction::Finish { resolved: 0 }));
}

fn expect_request(p: &RelayParent, want: &str) {
    match p.action() {
        RelayAction::RequestDevice { path } => assert_eq!(path, want),
        other => panic!("unexpected {:?}", other),
    }
}

#[test]
fn relay_run_over_three_devices() {
    let devs = vec![String::from("/dev/a"), String::from("/dev/b"), String::from("/dev/c")];
    let mut p = RelayParent::new(devs);
    expect_request(&p, "/dev/a");
    p.record(RelayEvent::BrokerExited);
    assert!(matches!(p.action(), RelayAction::Receive));
    p.record(RelayEvent::Received(RecvOutcome::Delivered { size: 6, fd: 11 }));
    assert!(matches!(p.action(), RelayAction::Identify { fd: 11 }));
    p.record(RelayEvent::Identified);
    expect_request(&p, "/dev/b");
    p.record(RelayEvent::BrokerExited);
    p.record(RelayEvent::Received(RecvOutcome::MissingFd));
    expect_request(&p, "/dev/c");
    p.record(RelayEvent::BrokerExited);
    p.record(RelayEvent::Received(RecvOutcome::TransportError));
    assert!(p.is_done());
    assert!(matches!(p.action(), RelayAction::Finish { resolved: 1 }));
}

#[test]
fn relay_run_stops_on_fatal_errors() {
    let mut p = RelayParent::new(vec![String::from("/dev/a"), String::from("/dev/b")]);
    p.record(RelayEvent::BrokerFailed);
    assert!(matches!(p.action(), RelayAction::Abort(RunError::Broker)));
    let mut p = RelayParent::new(vec![String::from("/dev/a"), String::from("/dev/b")]);
    p.record(RelayEvent::BrokerExited);
    p.record(RelayEvent::Received(RecvOutcome::Delivered { size: 6, fd: 5 }));
    p.record(RelayEvent::IdentifyFailed(SessionError::OpenDevice));
    assert!(p.is_done());
    assert!(matches!(p.action(), RelayAction::Abort(RunError::Session(SessionError::OpenDevice))));
}

#[test]
fn relay_ignores_out_of_turn_events() {
    let mut p = RelayParent::new(vec![String::from("/dev/a")]);
    p.record(RelayEvent::Identified);
    expect_request(&p, "/dev/a");
    p.record(RelayEvent::BrokerExited);
    p.record(RelayEvent::BrokerExited);
    assert!(matches!(p.action(), RelayAction::Receive));
}
