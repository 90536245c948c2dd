use taskbar::dispatch::{Command, Notice, Request, ToplevelEvent};
use taskbar::registry::{Registry, ToplevelKey};

fn title(t: &str) -> ToplevelEvent {
    ToplevelEvent::Title(t.to_string())
}

fn app_id(a: &str) -> ToplevelEvent {
    ToplevelEvent::AppId(a.to_string())
}

fn updated(t: &str, a: &str) -> Notice {
    Notice::Updated { title: t.to_string(), app_id: a.to_string() }
}

fn is_nothing(n: &Notice) -> bool {
    matches!(n, Notice::Nothing)
}

fn assert_updated(n: Notice, t: &str, a: &str) {
    match (n, updated(t, a)) {
        (Notice::Updated { title, app_id }, Notice::Updated { title: et, app_id: ea }) => {
            assert_eq!(title, et);
            assert_eq!(app_id, ea);
        }
        _ => panic!("expected an update"),
    }
}

fn announced(r: &mut Registry) -> ToplevelKey {
    assert!(r.can_allocate());
    let k = r.allocate();
    r.attach_listener(k);
    k
}

#[test]
fn scenario_announce_stage_commit() {
    let mut r = Registry::new();
    assert!(r.can_allocate());
    let k = r.allocate();
    assert!(r.is_live(k));
    assert!(r.commit(k).is_none());
    r.attach_listener(k);
    assert_eq!(r.commit(k), Some((String::new(), String::new())));
    assert!(is_nothing(&r.dispatch(k, title("Editor"))));
    assert!(is_nothing(&r.dispatch(k, app_id("editor.app"))));
    assert_updated(r.dispatch(k, ToplevelEvent::Done), "Editor", "editor.app");
}

#[test]
fn scenario_close_notifies_once() {
    let mut r = Registry::new();
    let k = announced(&mut r);
    r.dispatch(k, title("Editor"));
    r.dispatch(k, app_id("editor.app"));
    assert_updated(r.dispatch(k, ToplevelEvent::Done), "Editor", "editor.app");
    assert!(matches!(r.dispatch(k, ToplevelEvent::Closed), Notice::Closed));
    assert!(!r.is_live(k));
    assert!(is_nothing(&r.dispatch(k, ToplevelEvent::Closed)));
    assert!(is_nothing(&r.dispatch(k, ToplevelEvent::Done)));
    assert!(is_nothing(&r.dispatch(k, title("Late"))));
    assert!(is_nothing(&r.dispatch(k, ToplevelEvent::Done)));
}

#[test]
fn scenario_commit_before_listener_is_dropped() {
    let mut r = Registry::new();
    let k = r.allocate();
    assert!(is_nothing(&r.dispatch(k, title("Early"))));
    assert!(is_nothing(&r.dispatch(k, ToplevelEvent::Done)));
    r.attach_listener(k);
    assert!(is_nothing(&r.dispatch(k, app_id("early.app"))));
    assert_updated(r.dispatch(k, ToplevelEvent::Done), "Early", "early.app");
}

#[test]
fn scenario_focus_after_close_sends_nothing() {
    let mut r = Registry::new();
    let k = announced(&mut r);
    assert_eq!(r.route(k, Command::Focus), Some(Request::Activate));
    r.dispatch(k, ToplevelEvent::Closed);
    assert_eq!(r.route(k, Command::Focus), None);
    assert_eq!(r.route(k, Command::Maximize), None);
    assert_eq!(r.route(k, Command::Close), None);
}

#[test]
fn last_staged_values_win() {
    let mut r = Registry::new();
    let k = announced(&mut r);
    r.dispatch(k, title("one"));
    r.dispatch(k, app_id("a.one"));
    r.dispatch(k, title("two"));
    r.dispatch(k, title("three"));
    r.dispatch(k, app_id("a.two"));
    assert_updated(r.dispatch(k, ToplevelEvent::Done), "three", "a.two");
    r.dispatch(k, title("four"));
    assert_updated(r.dispatch(k, ToplevelEvent::Done), "four", "a.two");
    assert_updated(r.dispatch(k, ToplevelEvent::Done), "four", "a.two");
}

#[test]
fn window_without_listener_hears_nothing() {
    let mut r = Registry::new();
    let k = r.allocate();
    assert!(is_nothing(&r.dispatch(k, title("t"))));
    assert!(is_nothing(&r.dispatch(k, app_id("a"))));
    assert!(is_nothing(&r.dispatch(k, ToplevelEvent::Done)));
    assert!(is_nothing(&r.dispatch(k, ToplevelEvent::Closed)));
    assert!(!r.is_live(k));
}

#[test]
fn keys_are_distinct_and_never_reused() {
    let mut r = Registry::new();
    let a = announced(&mut r);
    let b = announced(&mut r);
    assert_ne!(a, b);
    r.dispatch(a, ToplevelEvent::Closed);
    let c = announced(&mut r);
    assert_ne!(c, a);
    assert_ne!(c, b);
    assert!(!r.is_live(a));
    assert!(r.is_live(b));
    assert!(r.is_live(c));
    for _ in 0..10 {
        let d = announced(&mut r);
        r.dispatch(d, ToplevelEvent::Closed);
        assert_ne!(d, a);
        assert!(!r.is_live(a));
    }
}

#[test]
fn windows_are_kept_apart() {
    let mut r = Registry::new();
    let a = announced(&mut r);
    let b = announced(&mut r);
    r.dispatch(a, title("A"));
    r.dispatch(b, title("B"));
    r.dispatch(b, app_id("b.app"));
    assert_updated(r.dispatch(a, ToplevelEvent::Done), "A", "");
    assert_updated(r.dispatch(b, ToplevelEvent::Done), "B", "b.app");
    r.dispatch(b, ToplevelEvent::Closed);
    assert_updated(r.dispatch(a, ToplevelEvent::Done), "A", "");
}

#[test]
fn commands_map_to_requests() {
    let mut r = Registry::new();
    let k = announced(&mut r);
    assert_eq!(r.route(k, Command::Focus), Some(Request::Activate));
    assert_eq!(r.route(k, Command::Maximize), Some(Request::SetMaximized));
    assert_eq!(r.route(k, Command::Close), Some(Request::Close));
    assert!(r.is_live(k));
}

#[test]
fn unknown_key_is_ignored() {
    let mut r = Registry::new();
    let k = announced(&mut r);
    let forged = ToplevelKey { slot: k.slot, serial: k.serial + 7 };
    let even = ToplevelKey { slot: 0, serial: 0 };
    for key in [forged, even] {
        assert!(!r.is_live(key));
        assert!(is_nothing(&r.dispatch(key, title("x"))));
        assert!(is_nothing(&r.dispatch(key, ToplevelEvent::Done)));
        assert!(is_nothing(&r.dispatch(key, ToplevelEvent::Closed)));
        assert_eq!(r.route(key, Command::Close), None);
    }
    assert!(r.is_live(k));
}

#[test]
fn remove_reports_whether_listener_was_attached() {
    let mut r = Registry::new();
    let a = r.allocate();
    let b = announced(&mut r);
    assert!(!r.remove(a));
    assert!(r.remove(b));
    assert!(!r.remove(b));
    assert!(!r.is_live(a));
    assert!(!r.is_live(b));
}

#[test]
fn staging_keeps_the_other_attribute() {
    let mut r = Registry::new();
    let k = announced(&mut r);
    r.stage_app_id(k, "keep.me".to_string());
    r.stage_title(k, "T".to_string());
    assert_eq!(r.commit(k), Some(("T".to_string(), "keep.me".to_string())));
}
