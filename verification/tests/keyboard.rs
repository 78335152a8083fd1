use layerhook::config::DeviceRef;
use layerhook::device::{find_current, find_interface, find_product, find_remembered, HidInterface, KeyboardDeviceInfo};
use layerhook::diagnostics::{cycle_plan, probe_step, ProbeStep};
use layerhook::hid::{get_layer, set_layer, transact, HidAction, HidEvent};

fn keyboard(vendor_id: u16, product_id: u16, serial: Option<&str>, product: Option<&str>) -> KeyboardDeviceInfo {
    KeyboardDeviceInfo {
        vendor_id,
        product_id,
        usage_page: 0xFF60,
        manufacturer: None,
        product: product.map(|p| p.to_string()),
        serial_number: serial.map(|s| s.to_string()),
    }
}

fn response(start: &[u8]) -> [u8; 32] {
    let mut r = [0u8; 32];
    r[..start.len()].copy_from_slice(start);
    r
}

#[test]
fn labels() {
    assert_eq!(keyboard(0xFEED, 0x0A, None, Some("BCORNE")).label(), "BCORNE (FEED:000A)");
    assert_eq!(keyboard(0, 0xFFFF, None, None).label(), " (0000:FFFF)");
}

#[test]
fn remembered_without_serial_is_any_of_its_make() {
    let devices = vec![keyboard(1, 2, Some("x"), None), keyboard(1, 3, Some("a"), None), keyboard(1, 3, Some("b"), None)];
    let any = DeviceRef { vendor_id: 1, product_id: 3, serial_number: None };
    assert_eq!(find_remembered(&devices, &any), Some(1));
    let b = DeviceRef { vendor_id: 1, product_id: 3, serial_number: Some("b".to_string()) };
    assert_eq!(find_remembered(&devices, &b), Some(2));
    let c = DeviceRef { vendor_id: 1, product_id: 3, serial_number: Some("c".to_string()) };
    assert_eq!(find_remembered(&devices, &c), None);
}

#[test]
fn current_keyboard_is_found_by_its_exact_serial() {
    let devices = vec![keyboard(1, 3, Some("a"), None), keyboard(1, 3, None, None)];
    assert_eq!(find_current(&devices, &keyboard(1, 3, None, Some("other name"))), Some(1));
    assert_eq!(find_current(&devices, &keyboard(1, 3, Some("a"), None)), Some(0));
    assert_eq!(find_current(&devices, &keyboard(1, 4, Some("a"), None)), None);
}

#[test]
fn a_remembered_keyboard_is_found_again() {
    let devices = vec![keyboard(1, 3, None, None), keyboard(1, 3, Some("b"), None)];
    assert_eq!(find_remembered(&devices, &devices[1].reference()), Some(1));
    assert_eq!(find_remembered(&devices, &devices[0].reference()), Some(0));
}

#[test]
fn interface_of_a_keyboard() {
    let interface = |usage_page: u16, product_id: u16| HidInterface { vendor_id: 1, product_id, usage_page };
    let list = vec![interface(0x0001, 3), interface(0xFF60, 2), interface(0xFF60, 3), interface(0xFF60, 3)];
    assert_eq!(find_interface(&list, &keyboard(1, 3, Some("s"), None)), Some(2));
    assert_eq!(find_interface(&list, &keyboard(2, 3, None, None)), None);
}

#[test]
fn keyboard_by_product_name() {
    let devices = vec![keyboard(1, 2, None, None), keyboard(1, 3, None, Some("BCORNE"))];
    assert_eq!(find_product(&devices, "BCORNE"), Some(1));
    assert_eq!(find_product(&devices, "bcorne"), None);
}

#[test]
fn switch_writes_the_command() {
    match set_layer(7, HidEvent::Start) {
        HidAction::Write(report) => {
            assert_eq!(&report[..5], &[0, 0x02, 0xB0, 7, 0]);
            assert!(report[4..].iter().all(|b| *b == 0));
            assert_eq!(report.len(), 33);
        }
        _ => panic!("expected a write"),
    }
    match get_layer(HidEvent::Start) {
        HidAction::Write(report) => assert_eq!(&report[..4], &[0, 0x02, 0xB1, 0]),
        _ => panic!("expected a write"),
    }
}

#[test]
fn longest_payload_fills_the_report() {
    let payload = [9u8; 32];
    match transact(&payload, HidEvent::Start) {
        HidAction::Write(report) => {
            assert_eq!(report[0], 0);
            assert_eq!(&report[1..], &payload);
        }
        _ => panic!("expected a write"),
    }
}

#[test]
fn replies_are_told_apart() {
    let set = response(&[0x02, 0xB0, 3]);
    let get = response(&[0x02, 0xB1, 5]);
    assert!(matches!(set_layer(3, HidEvent::Received(Ok(32), set)), HidAction::Finish(Ok(()))));
    assert!(matches!(set_layer(3, HidEvent::Received(Ok(32), get)), HidAction::ReadClock));
    assert!(matches!(get_layer(HidEvent::Received(Ok(32), get)), HidAction::Finish(Ok(5))));
    assert!(matches!(get_layer(HidEvent::Received(Ok(32), set)), HidAction::ReadClock));
    assert!(matches!(get_layer(HidEvent::Received(Ok(0), get)), HidAction::ReadClock));
}

#[test]
fn waiting_for_a_reply() {
    assert!(matches!(get_layer(HidEvent::Written(Ok(()))), HidAction::ReadClock));
    assert!(matches!(get_layer(HidEvent::Elapsed(0)), HidAction::Read { timeout_ms: 1000 }));
    assert!(matches!(get_layer(HidEvent::Elapsed(1)), HidAction::Read { timeout_ms: 999 }));
    assert!(matches!(get_layer(HidEvent::Elapsed(999_999_999)), HidAction::Read { timeout_ms: 0 }));
    match get_layer(HidEvent::Elapsed(1_000_000_000)) {
        HidAction::Finish(Err(e)) => assert_eq!(e, "timeout waiting for reply"),
        _ => panic!("expected a timeout"),
    }
}

#[test]
fn hid_errors_end_the_exchange() {
    match set_layer(1, HidEvent::Written(Err("write".to_string()))) {
        HidAction::Finish(Err(e)) => assert_eq!(e, "write"),
        _ => panic!("expected an error"),
    }
    match set_layer(1, HidEvent::Received(Err("read".to_string()), [0; 32])) {
        HidAction::Finish(Err(e)) => assert_eq!(e, "read"),
        _ => panic!("expected an error"),
    }
}

#[test]
fn probe_switches_and_restores() {
    assert!(matches!(probe_step(&[]), ProbeStep::Read));
    assert!(matches!(probe_step(&[4]), ProbeStep::SwitchAndRead(1)));
    assert!(matches!(probe_step(&[4, 1]), ProbeStep::SwitchAndRead(4)));
    assert!(matches!(probe_step(&[4, 1, 4]), ProbeStep::Passed));
    match probe_step(&[4, 4]) {
        ProbeStep::Failed(m) => assert_eq!(m, "Keyboard did not switch to layer 1"),
        _ => panic!("expected a failure"),
    }
    match probe_step(&[4, 1, 1]) {
        ProbeStep::Failed(m) => assert_eq!(m, "Restore failed"),
        _ => panic!("expected a failure"),
    }
}

#[test]
fn cycle_ends_where_it_began() {
    assert_eq!(cycle_plan(9), vec![1, 2, 3, 4, 9]);
}
