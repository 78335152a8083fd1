use layerhook::window::linux::hyprctl::{self, Run};
use layerhook::window::linux::toplevels::State;
use layerhook::window::linux::{self, cosmic_toplevel, plasma_window, wlr_toplevel, Backend, ListStep};
use layerhook::window::linux::wire::{holds_word, read_words};
use layerhook::window::linux::x11::{self, Atoms, Notice, PropertyReply, TitleStep, Watcher};
use layerhook::window::windows::{self, ForegroundStep, Found, HookEvent, NoteChange, OpenWindow, OwnerNote, OwnerStep, StackedWindow, Subject};

fn title(t: &str) -> Option<String> {
    Some(t.to_string())
}

fn units(t: &str) -> Vec<u16> {
    t.encode_utf16().collect()
}

fn value(format: u8, bytes: &[u8]) -> PropertyReply {
    PropertyReply::Value { format, value: bytes.to_vec() }
}

const ATOMS: Atoms = Atoms { net_active_window: 1, net_wm_name: 2, utf8_string: 3, wm_name: 4, net_client_list: 5 };

#[test]
fn numbers_in_byte_arrays() {
    let bytes = [2u8, 0, 0, 0, 1, 2, 3, 4, 9, 9];
    assert_eq!(read_words(&bytes, true), vec![2, 0x04030201]);
    assert_eq!(read_words(&bytes, false), vec![0x02000000, 0x01020304]);
    assert!(holds_word(&bytes, 2, true));
    assert!(!holds_word(&bytes, 2, false));
    assert!(!holds_word(&[], 0, true));
    let native = 7u32.to_ne_bytes();
    assert_eq!(read_words(&native, 1u16.to_ne_bytes()[0] == 1), vec![7]);
}

#[test]
fn backends_in_turn() {
    assert!(linux::watch(true, None) == Some(Backend::Wlr));
    assert!(linux::watch(true, Some(Backend::Wlr)) == Some(Backend::Cosmic));
    assert!(linux::watch(true, Some(Backend::Cosmic)) == Some(Backend::Plasma));
    assert!(linux::watch(true, Some(Backend::Plasma)).is_none());
    assert!(linux::watch(false, None) == Some(Backend::X11));
    assert!(linux::watch(false, Some(Backend::X11)).is_none());
    assert!(linux::owner_note().is_none());
}

#[test]
fn first_backend_that_answers_lists() {
    assert!(matches!(linux::list_window_titles(true, None), ListStep::Ask(Backend::Wlr)));
    assert!(matches!(linux::list_window_titles(false, None), ListStep::Ask(Backend::X11)));
    assert!(matches!(linux::list_window_titles(true, Some((Backend::Wlr, None))), ListStep::Ask(Backend::Cosmic)));
    match linux::list_window_titles(true, Some((Backend::Cosmic, Some(vec!["a".to_string()])))) {
        ListStep::Titles(t) => assert_eq!(t, vec!["a".to_string()]),
        _ => panic!("expected titles"),
    }
    match linux::list_window_titles(true, Some((Backend::Plasma, None))) {
        ListStep::Titles(t) => assert!(t.is_empty()),
        _ => panic!("expected titles"),
    }
}

#[test]
fn wlr_reports_on_done() {
    let mut s = wlr_toplevel::watch(true).unwrap();
    let active = vec![0u8, 0, 0, 0, 2, 0, 0, 0];
    assert_eq!(wlr_toplevel::event(&mut s, wlr_toplevel::Event::Toplevel { id: 1 }, true), None);
    assert_eq!(wlr_toplevel::event(&mut s, wlr_toplevel::Event::Title { id: 1, title: "one".to_string() }, true), None);
    assert_eq!(wlr_toplevel::event(&mut s, wlr_toplevel::Event::State { id: 1, states: active.clone() }, true), None);
    assert_eq!(wlr_toplevel::event(&mut s, wlr_toplevel::Event::Done, true), Some(title("one")));
    assert_eq!(wlr_toplevel::event(&mut s, wlr_toplevel::Event::Done, true), None);
    assert_eq!(wlr_toplevel::event(&mut s, wlr_toplevel::Event::Title { id: 1, title: "uno".to_string() }, true), None);
    assert_eq!(wlr_toplevel::event(&mut s, wlr_toplevel::Event::Done, true), Some(title("uno")));
    assert_eq!(wlr_toplevel::event(&mut s, wlr_toplevel::Event::State { id: 1, states: vec![] }, true), None);
    assert_eq!(wlr_toplevel::event(&mut s, wlr_toplevel::Event::State { id: 2, states: active }, true), None);
    assert_eq!(wlr_toplevel::event(&mut s, wlr_toplevel::Event::Done, true), Some(None));
    assert_eq!(wlr_toplevel::event(&mut s, wlr_toplevel::Event::Other, true), None);
    assert_eq!(wlr_toplevel::event(&mut s, wlr_toplevel::Event::Title { id: 2, title: "two".to_string() }, true), None);
    assert_eq!(wlr_toplevel::event(&mut s, wlr_toplevel::Event::Closed { id: 1 }, true), Some(title("two")));
    assert_eq!(wlr_toplevel::event(&mut s, wlr_toplevel::Event::Closed { id: 2 }, true), Some(None));
    assert!(wlr_toplevel::watch(false).is_none());
}

#[test]
fn cosmic_reports_at_once() {
    let mut s = cosmic_toplevel::watch(true).unwrap();
    let active = vec![2u8, 0, 0, 0];
    assert_eq!(cosmic_toplevel::event(&mut s, cosmic_toplevel::Event::State { id: 1, states: active.clone() }, true), None);
    assert!(s.windows.is_empty());
    assert_eq!(cosmic_toplevel::event(&mut s, cosmic_toplevel::Event::Toplevel { id: 1 }, true), None);
    assert_eq!(cosmic_toplevel::event(&mut s, cosmic_toplevel::Event::State { id: 1, states: active }, true), None);
    assert_eq!(cosmic_toplevel::event(&mut s, cosmic_toplevel::Event::Title { id: 1, title: "one".to_string() }, true), Some(title("one")));
    assert_eq!(cosmic_toplevel::event(&mut s, cosmic_toplevel::Event::Other, true), None);
    assert_eq!(cosmic_toplevel::event(&mut s, cosmic_toplevel::Event::Closed { id: 1 }, true), Some(None));
    assert!(cosmic_toplevel::watch(false).is_none());
}

#[test]
fn plasma_goes_by_flags() {
    let mut s = plasma_window::watch(true).unwrap();
    assert_eq!(plasma_window::event(&mut s, plasma_window::Event::Window { id: 1 }), None);
    assert_eq!(plasma_window::event(&mut s, plasma_window::Event::TitleChanged { id: 1, title: "one".to_string() }), None);
    assert_eq!(plasma_window::event(&mut s, plasma_window::Event::StateChanged { id: 1, flags: 0x10 }), None);
    assert_eq!(plasma_window::event(&mut s, plasma_window::Event::StateChanged { id: 1, flags: 0x11 }), Some(title("one")));
    assert_eq!(plasma_window::event(&mut s, plasma_window::Event::Other), None);
    assert_eq!(plasma_window::event(&mut s, plasma_window::Event::Unmapped { id: 1 }), Some(None));
    assert!(plasma_window::watch(false).is_none());
}

#[test]
fn collecting_tells_nothing() {
    let mut s = State::new(false);
    assert_eq!(plasma_window::event(&mut s, plasma_window::Event::StateChanged { id: 1, flags: 1 }), None);
    assert_eq!(plasma_window::event(&mut s, plasma_window::Event::TitleChanged { id: 1, title: "one".to_string() }), None);
    assert_eq!(plasma_window::event(&mut s, plasma_window::Event::TitleChanged { id: 2, title: String::new() }), None);
    assert_eq!(plasma_window::event(&mut s, plasma_window::Event::Window { id: 3 }), None);
    assert_eq!(plasma_window::event(&mut s, plasma_window::Event::TitleChanged { id: 4, title: "four".to_string() }), None);
    assert_eq!(s.last_sent, None);
    for list in [
        plasma_window::list_window_titles(Some(&s)),
        wlr_toplevel::list_window_titles(Some(&s)),
        cosmic_toplevel::list_window_titles(Some(&s)),
    ] {
        let mut titles = list.unwrap();
        titles.sort();
        assert_eq!(titles, vec!["four".to_string(), "one".to_string()]);
    }
    assert!(plasma_window::list_window_titles(None).is_none());
}

#[test]
fn x11_titles() {
    let titled = |step: TitleStep| match step {
        TitleStep::Title(t) => Some(t),
        TitleStep::AskLegacy => None,
    };
    assert_eq!(titled(x11::window_title(value(8, "Gr\u{fc}n".as_bytes()))), Some(title("Gr\u{fc}n")));
    assert_eq!(titled(x11::window_title(value(8, &[0xFF, 0xFE]))), Some(None));
    assert_eq!(titled(x11::window_title(PropertyReply::Refused)), Some(None));
    assert_eq!(titled(x11::window_title(PropertyReply::Failed)), None);
    assert_eq!(titled(x11::window_title(value(8, &[]))), None);
    assert_eq!(x11::legacy_title(value(8, &[b'G', 0xFC])), title("G\u{fc}"));
    assert_eq!(x11::legacy_title(value(8, &[])), None);
    assert_eq!(x11::legacy_title(PropertyReply::Refused), None);
    assert_eq!(x11::legacy_title(PropertyReply::Failed), None);
}

#[test]
fn x11_windows() {
    assert_eq!(x11::active_window(&value(32, &[5, 0, 0, 0, 6, 0, 0, 0]), true), Some(5));
    assert_eq!(x11::active_window(&value(32, &[0, 0, 0, 0]), true), None);
    assert_eq!(x11::active_window(&value(32, &[5, 0, 0]), true), None);
    assert_eq!(x11::active_window(&value(8, &[5, 0, 0, 0]), true), None);
    assert_eq!(x11::active_window(&PropertyReply::Failed, true), None);
    assert_eq!(x11::client_windows(&value(32, &[5, 0, 0, 0, 0, 0, 0, 6]), false), vec![0x05000000, 6]);
    assert!(x11::client_windows(&PropertyReply::Refused, true).is_empty());
    let titles = vec![title("b"), None, title(""), title("a")];
    assert_eq!(x11::list_window_titles(&titles), vec!["b".to_string(), "a".to_string()]);
}

#[test]
fn x11_watch() {
    let mut w = Watcher::watch(100, ATOMS);
    assert!(w.notice(100, 1) == Notice::ReadFocus);
    assert!(w.notice(100, 2) == Notice::Ignore);
    assert!(w.notice(7, 2) == Notice::Ignore);
    assert_eq!(w.focus(None), None);
    assert_eq!(w.tell(None), None);
    assert_eq!(w.focus(Some(7)), Some(7));
    assert_eq!(w.tell(title("seven")), Some(title("seven")));
    assert_eq!(w.focus(Some(7)), None);
    assert_eq!(w.tell(title("seven")), None);
    assert!(w.notice(7, 2) == Notice::ReadTitle(7));
    assert!(w.notice(7, 4) == Notice::ReadTitle(7));
    assert!(w.notice(7, 1) == Notice::Ignore);
    assert!(w.notice(8, 2) == Notice::Ignore);
    assert_eq!(w.focus(None), None);
    assert_eq!(w.tell(None), Some(None));
    assert!(w.notice(7, 2) == Notice::Ignore);
}

#[test]
fn hyprctl_answers() {
    let run = |success: bool, stdout: &str| Some(Run { success, stdout: stdout.as_bytes().to_vec() });
    assert_eq!(hyprctl::active_window_title(run(true, "{\"class\": \"x\", \"title\": \"Gr\\u00fcn\"}")), title("Gr\u{fc}n"));
    assert_eq!(hyprctl::active_window_title(run(false, "{\"title\": \"t\"}")), None);
    assert_eq!(hyprctl::active_window_title(run(true, "{\"title\": 3}")), None);
    assert_eq!(hyprctl::active_window_title(run(true, "{}")), None);
    assert_eq!(hyprctl::active_window_title(run(true, "[\"title\"]")), None);
    assert_eq!(hyprctl::active_window_title(run(true, "{\"title\":")), None);
    assert_eq!(hyprctl::active_window_title(None), None);
    let clients = "[{\"title\": \"b\"}, {\"title\": \"\"}, {\"x\": 1}, 4, {\"title\": \"a\"}]";
    assert_eq!(hyprctl::list_window_titles(run(true, clients)), vec!["b".to_string(), "a".to_string()]);
    assert!(hyprctl::list_window_titles(run(true, "{\"title\": \"b\"}")).is_empty());
    assert!(hyprctl::list_window_titles(run(false, clients)).is_empty());
    assert!(hyprctl::list_window_titles(None).is_empty());
}

#[test]
fn window_texts() {
    assert_eq!(windows::text_room(0), None);
    assert_eq!(windows::text_room(5), Some(6));
    let buffer = units("Gr\u{fc}n \u{1F600}\0\0");
    assert_eq!(windows::window_text(&buffer, 7), title("Gr\u{fc}n \u{1F600}"));
    assert_eq!(windows::window_text(&buffer, 6), title("Gr\u{fc}n \u{FFFD}"));
    assert_eq!(windows::window_text(&[0xDC00, 0x41], 2), title("\u{FFFD}A"));
    assert_eq!(windows::window_text(&[0xD800, 0xD83D, 0xDE00], 3), title("\u{FFFD}\u{1F600}"));
    assert_eq!(windows::window_text(&buffer, 0), None);
}

#[test]
fn titles_by_way_of_the_owner() {
    match windows::window_text_via_owner(0, Found::Text(title("own"))) {
        OwnerStep::Done { title: t, note: NoteChange::Clear } => assert_eq!(t, title("own")),
        _ => panic!("expected the window's own title"),
    }
    assert!(matches!(windows::window_text_via_owner(0, Found::Text(None)), OwnerStep::AskOwner));
    match windows::window_text_via_owner(3, Found::Text(title("owner"))) {
        OwnerStep::Done { title: t, note: NoteChange::Show(n) } => assert_eq!((t, n), (title("owner"), "owner".to_string())),
        _ => panic!("expected the owner's title"),
    }
    assert!(matches!(windows::window_text_via_owner(7, Found::Text(None)), OwnerStep::AskOwner));
    assert!(matches!(
        windows::window_text_via_owner(8, Found::Text(None)),
        OwnerStep::Done { title: None, note: NoteChange::Clear }
    ));
    assert!(matches!(
        windows::window_text_via_owner(2, Found::NoOwner),
        OwnerStep::Done { title: None, note: NoteChange::Clear }
    ));
}

#[test]
fn owner_notes() {
    let mut n = OwnerNote::new();
    assert_eq!(n.owner_note(), None);
    n.change(NoteChange::Show("o".to_string()));
    assert_eq!(n.owner_note(), title("o"));
    n.change(NoteChange::Keep);
    assert_eq!(n.owner_note(), title("o"));
    n.change(NoteChange::Clear);
    assert_eq!(n.owner_note(), None);
    n.change(NoteChange::Show("stale".to_string()));
    match windows::window_text_via_owner(1, Found::NoOwner) {
        OwnerStep::Done { title: None, note } => n.change(note),
        _ => panic!("expected no title"),
    }
    assert_eq!(n.owner_note(), None);
}

#[test]
fn window_labels() {
    assert_eq!(windows::window_label(title("Photoshop.exe"), title("Untitled-1 @ 50% (RGB/8)")), "[Photoshop.exe]:Untitled-1 @ 50% (RGB/8)");
    assert_eq!(windows::window_label(None, None), "[(unknown)]:(null)");
    assert_eq!(windows::window_label(title("a.exe"), None), "[a.exe]:(null)");
}

#[test]
fn program_names() {
    assert_eq!(windows::exe_name("C:\\Program Files\\App\\app.exe"), "app.exe");
    assert_eq!(windows::exe_name("C:\\a/b.exe"), "b.exe");
    assert_eq!(windows::exe_name("plain.exe"), "plain.exe");
    assert_eq!(windows::exe_name("C:\\"), "");
    assert_eq!(windows::process_exe_name(4, Some(units("C:\\x\\y.exe"))), title("y.exe"));
    assert_eq!(windows::process_exe_name(0, Some(units("C:\\x\\y.exe"))), None);
    assert_eq!(windows::process_exe_name(4, None), None);
}

#[test]
fn listed_windows() {
    assert!(windows::is_listed(true, &title("t")));
    assert!(!windows::is_listed(false, &title("t")));
    assert!(!windows::is_listed(true, &title("")));
    assert!(!windows::is_listed(true, &None));
    let open = |visible, text: Option<&str>, exe: Option<&str>| OpenWindow {
        visible,
        text: text.map(str::to_string),
        exe: exe.map(str::to_string),
        title: text.map(str::to_string),
    };
    let visited = vec![
        open(true, Some("a"), Some("a.exe")),
        open(false, Some("b"), Some("b.exe")),
        open(true, None, Some("c.exe")),
        open(true, Some(""), Some("d.exe")),
        open(true, Some("e"), None),
    ];
    assert_eq!(windows::list_window_titles(visited), ["[a.exe]:a", "[(unknown)]:e"]);
}

#[test]
fn switchers_and_the_foreground() {
    for class in ["XamlExplorerHostIslandWindow", "MultitaskingViewFrame", "TaskSwitcherWnd"] {
        assert!(windows::is_switcher(&units(class)));
    }
    assert!(!windows::is_switcher(&units("Notepad")));
    assert!(!windows::is_switcher(&units("TaskSwitcherWnd2")));
    assert!(windows::is_top_window(true, true, false));
    assert!(!windows::is_top_window(true, true, true));
    assert!(!windows::is_top_window(false, true, false));
    assert!(!windows::is_top_window(true, false, false));
    let stacked = |handle, visible, has_text, switcher| StackedWindow { handle, visible, has_text, switcher };
    let windows_from_top =
        vec![stacked(1, true, true, true), stacked(2, false, true, false), stacked(3, true, false, false), stacked(4, true, true, false), stacked(5, true, true, false)];
    assert_eq!(windows::top_window(&windows_from_top), Some(4));
    assert_eq!(windows::top_window(&windows_from_top[..3].to_vec()), None);
    assert!(matches!(windows::effective_foreground(Some(1), false, &None), ForegroundStep::Use(Some(1))));
    assert!(matches!(windows::effective_foreground(None, false, &None), ForegroundStep::Use(None)));
    assert!(matches!(windows::effective_foreground(Some(1), true, &None), ForegroundStep::VisitWindows));
    assert!(matches!(windows::effective_foreground(Some(1), true, &Some(windows_from_top)), ForegroundStep::Use(Some(4))));
    assert!(matches!(windows::effective_foreground(Some(1), true, &Some(vec![])), ForegroundStep::Use(Some(1))));
}

#[test]
fn announcements() {
    assert!(windows::subject(HookEvent::Foreground) == Subject::Named);
    assert!(windows::subject(HookEvent::SwitchEnd) == Subject::Foreground);
    assert!(windows::subject(HookEvent::Other) == Subject::Nothing);
    let r = windows::report(title("l"));
    assert_eq!(r.title, title("l"));
    assert!(matches!(r.note, NoteChange::Keep));
    let r = windows::report(None);
    assert_eq!(r.title, None);
    assert!(matches!(r.note, NoteChange::Clear));
}
