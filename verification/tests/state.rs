use layerhook::autostart::{desktop_entry, run_key};
use layerhook::config::{AppConfig, DeviceRef, Rule};
use layerhook::device::KeyboardDeviceInfo;
use layerhook::icon::decode_icon;
use layerhook::launch::{show_on_launch, start, ShowRequest};
use layerhook::matcher::{next_title, outcome_of, target_layer, News, Outcome, Shared};
use layerhook::settings::{
    always_on_top_effective, always_on_top_supported, layer_choices, layer_label, status, window_level, App, UiEvent, WindowLevel,
};
use layerhook::tray::{click_action, menu_action, TrayAction};

fn keyboard(product_id: u16, serial: Option<&str>) -> KeyboardDeviceInfo {
    KeyboardDeviceInfo {
        vendor_id: 1,
        product_id,
        usage_page: 0xFF60,
        manufacturer: None,
        product: Some("Board".to_string()),
        serial_number: serial.map(|s| s.to_string()),
    }
}

fn rule(pattern: &str, layer: u8) -> Rule {
    Rule { pattern: pattern.to_string(), layer }
}

fn shared() -> Shared {
    Shared {
        rules: vec![rule("code", 2), rule("term", 3)],
        default_layer: 1,
        device: Some(keyboard(5, None)),
        last_title: None,
        last_layer_sent: None,
        hid_error: None,
    }
}

fn app() -> App {
    let stored = AppConfig { start_minimized: true, always_on_top: true, ..AppConfig::default() };
    App::new(vec![keyboard(4, None), keyboard(5, None)], &shared(), true, &stored, vec!["w".to_string()], true)
}

fn title(t: &str) -> Option<String> {
    Some(t.to_string())
}

#[test]
fn news_of_the_watcher() {
    assert_eq!(next_title(title("a"), News::Focused(title("b"))), Some(title("b")));
    assert_eq!(next_title(title("a"), News::Focused(None)), Some(None));
    assert_eq!(next_title(title("a"), News::Timeout), Some(title("a")));
    assert_eq!(next_title(title("a"), News::Disconnected), None);
}

#[test]
fn unmatched_windows_get_the_default_layer() {
    let s = shared();
    assert_eq!(target_layer(&s.rules, &title("Code"), 9), 2);
    assert_eq!(target_layer(&s.rules, &title("browser"), 9), 9);
    assert_eq!(target_layer(&s.rules, &None, 9), 9);
}

#[test]
fn repeats_are_free() {
    let mut s = shared();
    let plan = s.plan(&title("code"));
    assert_eq!(plan.target_layer, 2);
    assert!(plan.switch.is_some());
    let outcome = outcome_of(&plan, Some(Ok(())));
    s.record(title("code"), plan.target_layer, outcome);
    assert_eq!(s.last_layer_sent, Some(2));
    assert_eq!(s.last_title, title("code"));
    let again = s.plan(&title("code"));
    assert_eq!(again.target_layer, 2);
    assert!(again.switch.is_none());
    let idle = outcome_of(&again, None);
    assert!(matches!(idle, Outcome::NotTried));
    s.record(None, again.target_layer, idle);
    assert_eq!(s.last_layer_sent, Some(2));
    assert_eq!(s.last_title, None);
    assert_eq!(s.plan(&None).target_layer, 1);
    assert!(s.plan(&None).switch.is_some());
}

#[test]
fn failed_switch_is_retried() {
    let mut s = shared();
    let plan = s.plan(&title("code"));
    s.record(title("code"), plan.target_layer, outcome_of(&plan, None));
    assert_eq!(s.hid_error, title("Device unreachable"));
    assert_eq!(s.last_layer_sent, None);
    let plan = s.plan(&title("code"));
    assert!(plan.switch.is_some());
    s.record(title("code"), plan.target_layer, outcome_of(&plan, Some(Err("broken pipe".to_string()))));
    assert_eq!(s.hid_error, title("broken pipe"));
    let plan = s.plan(&title("code"));
    assert!(plan.switch.is_some());
    s.record(title("code"), plan.target_layer, outcome_of(&plan, Some(Ok(()))));
    assert_eq!(s.hid_error, None);
    assert_eq!(s.last_layer_sent, Some(2));
}

#[test]
fn nothing_is_sent_without_a_keyboard() {
    let s = Shared { device: None, ..shared() };
    assert!(s.plan(&title("code")).switch.is_none());
}

#[test]
fn defaults_where_nothing_is_stored() {
    let c = AppConfig::load(None);
    assert!(c.rules.is_empty() && c.device.is_none());
    assert_eq!((c.default_layer, c.start_minimized, c.always_on_top), (0, false, false));
    let stored = AppConfig { default_layer: 4, ..AppConfig::default() };
    assert_eq!(AppConfig::load(Some(stored)).default_layer, 4);
}

#[test]
fn saving_needs_a_place_and_an_encoding() {
    assert_eq!(AppConfig::save(true, title("{}")), title("{}"));
    assert_eq!(AppConfig::save(false, title("{}")), None);
    assert_eq!(AppConfig::save(true, None), None);
}

#[test]
fn start_finds_the_remembered_keyboard() {
    let config = |serial: Option<&str>| AppConfig {
        rules: vec![rule("x", 6)],
        device: Some(DeviceRef { vendor_id: 1, product_id: 5, serial_number: serial.map(|s| s.to_string()) }),
        default_layer: 3,
        ..AppConfig::default()
    };
    let devices = vec![keyboard(4, None), keyboard(5, Some("a")), keyboard(5, Some("b"))];
    let s = start(config(None), &devices);
    assert_eq!(s.device.unwrap().serial_number, title("a"));
    assert_eq!((s.default_layer, s.rules[0].layer), (3, 6));
    assert_eq!((s.last_title, s.last_layer_sent, s.hid_error), (None, None, None));
    assert_eq!(start(config(Some("b")), &devices).device.unwrap().serial_number, title("b"));
    assert!(start(config(Some("c")), &devices).device.is_none());
    assert!(start(AppConfig::default(), &devices).device.is_none());
}

#[test]
fn settings_survive_a_restart() {
    let a = app();
    let s = start(a.persist(), &a.devices);
    assert_eq!(s.rules.len(), 2);
    assert_eq!(s.default_layer, 1);
    assert_eq!(s.device.unwrap().product_id, 5);
}

#[test]
fn window_on_launch() {
    assert!(show_on_launch(false, false));
    assert!(show_on_launch(true, false));
    assert!(show_on_launch(false, true));
    assert!(!show_on_launch(true, true));
    let mut r = ShowRequest::new(false);
    assert!(!r.take());
    r.request();
    assert!(r.take());
    assert!(!r.take());
    assert!(ShowRequest::new(true).take());
}

#[test]
fn window_opens_on_the_shared_state() {
    let a = app();
    assert_eq!(a.selected_device, Some(1));
    assert_eq!(a.rules.len(), 2);
    assert_eq!((a.default_layer, a.autostart, a.start_minimized, a.always_on_top), (1, true, true, true));
    assert_eq!((a.new_pattern.as_str(), a.new_layer), ("", 0));
    assert_eq!(a.window_titles, vec!["w".to_string()]);
    assert_eq!(a.selected_text(), "Board (0001:0005)");
}

#[test]
fn options_are_stored() {
    let mut a = app();
    let e = a.ui(UiEvent::StartMinimized(false));
    assert!(!a.start_minimized && e.persist && !e.sync);
    let e = a.ui(UiEvent::Autostart(false));
    assert!(!a.autostart && e.persist && !e.sync);
    assert_eq!(e.set_autostart, Some(false));
    let e = a.ui(UiEvent::AlwaysOnTop(false));
    assert!(!a.always_on_top && e.persist && !e.sync);
    assert!(e.set_level == Some(WindowLevel::Normal));
}

#[test]
fn without_support_the_option_stays() {
    let stored = AppConfig { always_on_top: true, ..AppConfig::default() };
    let mut a = App::new(Vec::new(), &shared(), true, &stored, Vec::new(), false);
    assert!(!always_on_top_effective(a.can_pin, a.always_on_top));
    for event in [UiEvent::Autostart(false), UiEvent::DefaultLayer(2), UiEvent::NewPattern("x".to_string()), UiEvent::AddRule] {
        let e = a.ui(event);
        assert!(e.set_level.is_none());
        assert!(a.persist().always_on_top && !a.can_pin);
    }
}

#[test]
fn choosing_a_keyboard() {
    let mut a = app();
    let e = a.ui(UiEvent::SelectDevice(0));
    assert!(e.sync && e.persist);
    assert_eq!(a.persist().device.unwrap().product_id, 4);
    let mut s = shared();
    s.last_layer_sent = Some(7);
    a.sync_shared(&mut s);
    assert_eq!(s.device.unwrap().product_id, 4);
    assert_eq!(s.last_layer_sent, Some(7));
    let e = a.ui(UiEvent::Rescan(vec![keyboard(8, None)]));
    assert!(e.sync && !e.persist);
    assert_eq!(a.selected_device, None);
    assert_eq!(a.selected_text(), "No keyboard selected");
    assert!(a.persist().device.is_none());
}

#[test]
fn adding_a_rule() {
    let mut a = app();
    assert!(!a.can_add());
    a.ui(UiEvent::PickWindow("a.b".to_string()));
    assert_eq!(a.new_pattern, "a\\.b");
    assert!(a.can_add());
    let e = a.ui(UiEvent::NewPattern(String::new()));
    assert!(!e.sync && !e.persist && !a.can_add());
    a.ui(UiEvent::NewPattern("a\\.b".to_string()));
    a.ui(UiEvent::NewLayer(6));
    let e = a.ui(UiEvent::AddRule);
    assert!(e.sync && e.persist);
    assert_eq!(a.new_pattern, "");
    assert_eq!((a.rules[2].pattern.as_str(), a.rules[2].layer), ("a\\.b", 6));
}

#[test]
fn working_on_the_rule_list() {
    let mut a = app();
    let e = a.ui(UiEvent::Rules { removed: None, dropped: None });
    assert!(!e.sync && !e.persist);
    let e = a.ui(UiEvent::EditRule { at: 0, pattern: "emacs".to_string(), layer: 9 });
    assert!(e.sync && e.persist);
    assert_eq!((a.rules[0].pattern.as_str(), a.rules[0].layer), ("emacs", 9));
    assert_eq!((a.rules.len(), a.rules[1].layer), (2, 3));
    let e = a.ui(UiEvent::Rules { removed: None, dropped: Some((0, 2)) });
    assert!(e.sync && e.persist);
    assert_eq!(a.rules[0].layer, 3);
    let e = a.ui(UiEvent::Rules { removed: Some(1), dropped: Some((0, 2)) });
    assert!(e.sync && e.persist);
    assert_eq!(a.rules.len(), 1);
    assert_eq!(a.rules[0].layer, 3);
}

#[test]
fn lists_and_default_layer() {
    let mut a = app();
    let e = a.ui(UiEvent::Refresh(vec!["x".to_string(), "y".to_string()]));
    assert!(!e.sync && !e.persist);
    assert_eq!(a.window_titles.len(), 2);
    let e = a.ui(UiEvent::DefaultLayer(8));
    assert!(e.sync && e.persist);
    assert_eq!(a.persist().default_layer, 8);
    let mut s = shared();
    a.sync_shared(&mut s);
    assert_eq!(s.plan(&title("anything else")).target_layer, 8);
}

#[test]
fn handed_over_rules_are_used() {
    let mut a = app();
    a.ui(UiEvent::Rules { removed: Some(0), dropped: None });
    let mut s = shared();
    a.sync_shared(&mut s);
    assert_eq!(s.plan(&title("code")).target_layer, 1);
    assert_eq!(s.plan(&title("term")).target_layer, 3);
}

#[test]
fn always_on_top() {
    assert!(always_on_top_supported(false, true));
    assert!(always_on_top_supported(true, false));
    assert!(!always_on_top_supported(true, true));
    assert!(!always_on_top_effective(false, true));
    assert!(always_on_top_effective(true, true));
    assert!(window_level(true) == WindowLevel::AlwaysOnTop);
}

#[test]
fn layer_names() {
    assert_eq!(layer_label(0), "Layer 0");
    assert_eq!(layer_label(10), "Layer 10");
    assert_eq!(layer_label(255), "Layer 255");
    assert_eq!(layer_choices(), vec![0, 1, 2, 3, 4, 5, 6, 7, 8, 9]);
}

#[test]
fn status_line() {
    let mut s = shared();
    let shown = status(&s, &None);
    assert!(shown.connected);
    assert_eq!((shown.active_window.as_str(), shown.last_layer.as_str()), ("-", "-"));
    assert_eq!((shown.owner, shown.error), (None, None));
    s.last_title = title("t");
    s.last_layer_sent = Some(12);
    s.hid_error = title("oops");
    let shown = status(&s, &title("Photoshop"));
    assert!(!shown.connected);
    assert_eq!((shown.active_window.as_str(), shown.last_layer.as_str()), ("t", "12"));
    assert_eq!(shown.owner, title("(owner: Photoshop)"));
    assert_eq!(shown.error, title("HID error: oops"));
}

#[test]
fn tray_entries() {
    assert!(menu_action("show") == TrayAction::Show);
    assert!(menu_action("quit") == TrayAction::Quit);
    assert!(menu_action("Show") == TrayAction::Ignore);
    assert!(click_action(true, true) == TrayAction::Show);
    assert!(click_action(true, false) == TrayAction::Ignore);
    assert!(click_action(false, true) == TrayAction::Ignore);
}

#[test]
fn autostart_entry() {
    assert!(desktop_entry::is_enabled(Some(true)));
    assert!(!desktop_entry::is_enabled(Some(false)));
    assert!(!desktop_entry::is_enabled(None));
    match desktop_entry::set_enabled(true, true, title("/usr/bin/layerhook")) {
        desktop_entry::EntryChange::Write(c) => assert_eq!(
            c,
            "[Desktop Entry]\nType=Application\nName=layerhook\nExec=/usr/bin/layerhook\nX-GNOME-Autostart-enabled=true\n"
        ),
        _ => panic!("expected an entry"),
    }
    assert!(matches!(desktop_entry::set_enabled(true, true, None), desktop_entry::EntryChange::Nothing));
    assert!(matches!(desktop_entry::set_enabled(true, false, title("x")), desktop_entry::EntryChange::Nothing));
    assert!(matches!(desktop_entry::set_enabled(false, true, None), desktop_entry::EntryChange::Remove));
}

#[test]
fn autostart_value() {
    assert!(run_key::is_enabled(true));
    assert!(!run_key::is_enabled(false));
    match run_key::set_enabled(true, true, title("C:\\layerhook.exe")) {
        run_key::ValueChange::Store(path) => assert_eq!(path, "C:\\layerhook.exe"),
        _ => panic!("expected a value"),
    }
    assert!(matches!(run_key::set_enabled(true, true, None), run_key::ValueChange::Nothing));
    assert!(matches!(run_key::set_enabled(true, false, title("x")), run_key::ValueChange::Nothing));
    assert!(matches!(run_key::set_enabled(false, true, None), run_key::ValueChange::Delete));
}

#[test]
fn icons_come_as_rgba_pixels() {
    // Two pixels side by side, red and blue, without opacity.
    let png: Vec<u8> = vec![
        137, 80, 78, 71, 13, 10, 26, 10, 0, 0, 0, 13, 73, 72, 68, 82,
        0, 0, 0, 2, 0, 0, 0, 1, 8, 2, 0, 0, 0, 123, 64, 232,
        221, 0, 0, 0, 13, 73, 68, 65, 84, 120, 156, 99, 248, 207, 0, 4,
        255, 1, 7, 0, 1, 255, 226, 35, 158, 89, 0, 0, 0, 0, 73, 69,
        78, 68, 174, 66, 96, 130,
    ];
    let icon = decode_icon(&png).unwrap();
    assert_eq!((icon.width, icon.height), (2, 1));
    assert_eq!(icon.rgba, vec![255, 0, 0, 255, 0, 0, 255, 255]);
    assert!(decode_icon(&png[..20]).is_none());
    assert!(decode_icon(&[]).is_none());
}

#[test]
fn reopened_window_shows_the_same() {
    let mut a = app();
    a.ui(UiEvent::SelectDevice(0));
    a.ui(UiEvent::DefaultLayer(7));
    let mut s = shared();
    a.sync_shared(&mut s);
    let again = App::new(vec![keyboard(5, None), keyboard(4, None)], &s, false, &AppConfig::default(), Vec::new(), true);
    assert_eq!(again.selected_device, Some(1));
    assert_eq!(again.default_layer, 7);
    assert_eq!(again.rules.len(), 2);
    let gone = App::new(vec![keyboard(5, None)], &s, false, &AppConfig::default(), Vec::new(), true);
    assert_eq!(gone.selected_device, None);
}

#[test]
fn first_cycle_sends_whatever_the_layer() {
    let config = AppConfig {
        device: Some(DeviceRef { vendor_id: 1, product_id: 5, serial_number: None }),
        ..AppConfig::default()
    };
    let s = start(config, &vec![keyboard(5, None)]);
    let plan = s.plan(&None);
    assert_eq!(plan.target_layer, 0);
    assert!(plan.switch.is_some());
}

#[test]
fn copies_keep_everything() {
    let config = AppConfig {
        rules: vec![rule("x", 6)],
        device: Some(DeviceRef { vendor_id: 1, product_id: 5, serial_number: title("s") }),
        default_layer: 3,
        start_minimized: true,
        always_on_top: true,
    };
    let copy = config.clone();
    assert_eq!((copy.rules[0].pattern.as_str(), copy.rules[0].layer), ("x", 6));
    assert_eq!(copy.device.unwrap().serial_number, title("s"));
    assert_eq!((copy.default_layer, copy.start_minimized, copy.always_on_top), (3, true, true));
}
