use rustx11::Error;
use rustx11::backend::BUTTON_PRESS;
use rustx11::backend::EXPOSE;
use rustx11::backend::KEY_PRESS;
use rustx11::backend::KEY_RELEASE;
use rustx11::backend::RawEvent;
use rustx11::config::GCV;
use rustx11::event::Event;
use rustx11::event::EventKind;
use rustx11::event::LoopState;
use rustx11::event::MODIFIER_KEY;
use rustx11::event::QUIT_KEY;
use rustx11::event::SECONDARY_QUIT_KEY;
use rustx11::event::handle_event;

fn event(event_type: i32, keycode: u32) -> Event {
    Event::new(RawEvent { event_type, keycode })
}

#[test]
fn key_press_event_exposes_its_code() {
    let e = event(KEY_PRESS, 24);
    assert_eq!(e.get_type(), 2);
    assert_eq!(e.kind(), EventKind::KeyPress);
    assert_eq!(e.get_key_press_code(), Some(24));
    assert_eq!(e.get_key_release_code(), None);
}

#[test]
fn key_release_event_exposes_its_code() {
    let e = event(KEY_RELEASE, 37);
    assert_eq!(e.get_type(), 3);
    assert_eq!(e.kind(), EventKind::KeyRelease);
    assert_eq!(e.get_key_press_code(), None);
    assert_eq!(e.get_key_release_code(), Some(37));
}

#[test]
fn mismatched_tags_read_as_absent() {
    // Tag/payload consistency over the four decoded tags and one unknown
    // tag: a key-code slot is never readable under a foreign tag.
    let exposure = event(EXPOSE, 99);
    assert_eq!(exposure.kind(), EventKind::Exposure);
    assert_eq!(exposure.get_key_press_code(), None);
    assert_eq!(exposure.get_key_release_code(), None);

    let button = event(BUTTON_PRESS, 99);
    assert_eq!(button.kind(), EventKind::ButtonPress);
    assert_eq!(button.get_key_press_code(), None);
    assert_eq!(button.get_key_release_code(), None);

    let press = event(KEY_PRESS, 99);
    assert_eq!(press.get_key_release_code(), None);

    let release = event(KEY_RELEASE, 99);
    assert_eq!(release.get_key_press_code(), None);

    let unknown = event(0, 99);
    assert_eq!(unknown.kind(), EventKind::Other);
    assert_eq!(unknown.get_key_press_code(), None);
    assert_eq!(unknown.get_key_release_code(), None);
}

#[test]
fn loop_state_starts_running_without_modifier() {
    let s = LoopState::new();
    assert!(s.running);
    assert!(!s.modifier_held);
}

#[test]
fn quit_key_press_stops_the_loop_state() {
    let mut s = LoopState::new();
    handle_event(&mut s, &event(KEY_PRESS, QUIT_KEY));
    assert!(!s.running);
}

#[test]
fn secondary_quit_without_modifier_keeps_running() {
    let mut s = LoopState::new();
    handle_event(&mut s, &event(KEY_PRESS, SECONDARY_QUIT_KEY));
    assert!(s.running);
}

#[test]
fn modifier_press_is_tracked_and_release_clears_it() {
    let mut s = LoopState::new();
    handle_event(&mut s, &event(KEY_PRESS, MODIFIER_KEY));
    assert!(s.modifier_held);
    assert!(s.running);
    handle_event(&mut s, &event(KEY_RELEASE, MODIFIER_KEY));
    assert!(!s.modifier_held);
    assert!(s.running);
}

#[test]
fn secondary_quit_with_held_modifier_stops_the_loop_state() {
    let mut s = LoopState::new();
    handle_event(&mut s, &event(KEY_PRESS, MODIFIER_KEY));
    handle_event(&mut s, &event(KEY_PRESS, SECONDARY_QUIT_KEY));
    assert!(!s.running);
}

#[test]
fn unrelated_keys_leave_the_state_alone() {
    let mut s = LoopState::new();
    handle_event(&mut s, &event(KEY_PRESS, 10));
    handle_event(&mut s, &event(KEY_RELEASE, 10));
    handle_event(&mut s, &event(EXPOSE, 0));
    assert!(s.running);
    assert!(!s.modifier_held);
}

#[test]
fn gcv_defaults_match_the_documented_bundle() {
    let gcv = GCV::new();
    assert_eq!(gcv.flags(), 0);
    let v = gcv.values();
    assert_eq!(v.line_width, 10);
    assert_eq!(v.function, 0);
    assert_eq!(v.plane_mask, 0);
    assert_eq!(v.foreground, 0);
    assert_eq!(v.background, 0);
    assert_eq!(v.line_style, 0);
    assert_eq!(v.cap_style, 0);
    assert_eq!(v.join_style, 0);
    assert_eq!(v.fill_style, 0);
    assert_eq!(v.fill_rule, 0);
    assert_eq!(v.arc_mode, 0);
    assert_eq!(v.tile, 0);
    assert_eq!(v.stipple, 0);
    assert_eq!(v.ts_x_origin, 0);
    assert_eq!(v.ts_y_origin, 0);
    assert_eq!(v.font, 0);
    assert_eq!(v.subwindow_mode, 0);
    assert_eq!(v.graphics_exposures, 0);
    assert_eq!(v.clip_x_origin, 0);
    assert_eq!(v.clip_y_origin, 0);
    assert_eq!(v.clip_mask, 0);
    assert_eq!(v.dash_offset, 0);
    assert_eq!(v.dashes, 0);
}

#[test]
fn error_descriptions_name_the_failing_step() {
    assert_eq!(Error::ConnectionFailed.describe(), "Failed to open display");
    assert_eq!(Error::SurfaceCreationFailed.describe(), "Failed to create window");
    assert_eq!(Error::DrawContextCreationFailed.describe(), "Failed to create GC");
}
