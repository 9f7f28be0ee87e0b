use rustx11::Error;
use rustx11::backend::Backend;
use rustx11::backend::Call;
use rustx11::backend::KEY_PRESS;
use rustx11::backend::KEY_RELEASE;
use rustx11::backend::RawEvent;
use rustx11::config::GCV;
use rustx11::display::Display;
use rustx11::event::EventHandler;
use rustx11::event::INPUT_EVENT_MASK;
use rustx11::event::LoopState;
use rustx11::event::MODIFIER_KEY;
use rustx11::event::QUIT_KEY;
use rustx11::event::SECONDARY_QUIT_KEY;
use rustx11::fake::FakeBackend;
use rustx11::session::run;
use rustx11::shape::Line;
use rustx11::shape::Shape;
use rustx11::window::Window;

fn created_window_handle(log: &[Call]) -> u64 {
    for c in log {
        if let Call::CreateWindow { result, .. } = c {
            return *result;
        }
    }
    panic!("no window creation recorded");
}

#[test]
fn drawing_a_line_records_one_exact_draw_request() {
    let mut fake = FakeBackend::new();
    let display = Display::new(&mut fake, None).unwrap();
    let window = Window::new(&mut fake, &display, None).unwrap();
    window.map(&mut fake);
    let gcv = GCV::new();
    let line = Line::new(&mut fake, &display, &window, 5, 5, 100, 100, &gcv).unwrap();
    line.draw(&mut fake);

    let log = fake.log().clone();
    let w = created_window_handle(&log);
    let draws: Vec<&Call> = log
        .iter()
        .filter(|c| matches!(c, Call::DrawLine { .. }))
        .collect();
    assert_eq!(draws.len(), 1);
    match draws[0] {
        Call::DrawLine { window, x1, y1, x2, y2, .. } => {
            assert_eq!(*window, w);
            assert_eq!((*x1, *y1, *x2, *y2), (5, 5, 100, 100));
        },
        _ => unreachable!(),
    }
}

#[test]
fn destruction_order_reverses_construction_order() {
    let mut fake = FakeBackend::new();
    let display = Display::new(&mut fake, None).unwrap();
    let gcv = GCV::new();
    let window = Window::new(&mut fake, &display, Some(&gcv)).unwrap();
    window.destroy(&display, &mut fake);
    display.close(&mut fake);

    assert_eq!(fake.outstanding(), 0);
    let log = fake.log().clone();
    let w = created_window_handle(&log);

    let open_at = log
        .iter()
        .position(|c| matches!(c, Call::OpenDisplay { .. }))
        .unwrap();
    let create_window_at = log
        .iter()
        .position(|c| matches!(c, Call::CreateWindow { .. }))
        .unwrap();
    let create_gc_at = log
        .iter()
        .position(|c| matches!(c, Call::CreateGc { .. }))
        .unwrap();
    let free_gc_at = log.iter().position(|c| matches!(c, Call::FreeGc { .. })).unwrap();
    let destroy_at = log
        .iter()
        .position(|c| matches!(c, Call::DestroyWindow { window, .. } if *window == w))
        .unwrap();
    let close_at = log
        .iter()
        .position(|c| matches!(c, Call::CloseDisplay { .. }))
        .unwrap();

    // Construction: connection, then window, then context.
    assert!(open_at < create_window_at);
    assert!(create_window_at < create_gc_at);
    // Destruction: context, then window, then connection — reversed.
    assert!(create_gc_at < free_gc_at);
    assert!(free_gc_at < destroy_at);
    assert!(destroy_at < close_at);
}

#[test]
fn failed_context_step_destroys_the_window_exactly_once() {
    let mut fake = FakeBackend::with_failures(false, false, true);
    let display = Display::new(&mut fake, None).unwrap();
    let gcv = GCV::new();
    let r = Window::new(&mut fake, &display, Some(&gcv));
    assert!(matches!(r, Err(Error::DrawContextCreationFailed)));

    let log = fake.log().clone();
    let w = created_window_handle(&log);
    assert_ne!(w, 0);
    let destroys = log
        .iter()
        .filter(|c| matches!(c, Call::DestroyWindow { window, .. } if *window == w))
        .count();
    assert_eq!(destroys, 1);

    // Only the connection is still outstanding; closing it settles the
    // counters at zero.
    assert_eq!(fake.outstanding(), 1);
    display.close(&mut fake);
    assert_eq!(fake.outstanding(), 0);
}

#[test]
fn selecting_input_twice_leaves_the_same_mask() {
    let mut fake = FakeBackend::new();
    let display = Display::new(&mut fake, None).unwrap();
    let window = Window::new(&mut fake, &display, None).unwrap();
    let mut handler = EventHandler::new(&display, &window);

    handler.select_input(&mut fake);
    let mask_once = last_selected_mask(fake.log());
    handler.select_input(&mut fake);
    let mask_twice = last_selected_mask(fake.log());

    assert_eq!(mask_once, Some(INPUT_EVENT_MASK));
    assert_eq!(mask_twice, mask_once);
    assert_eq!(INPUT_EVENT_MASK, 0x8007);
}

fn last_selected_mask(log: &Vec<Call>) -> Option<i64> {
    let mut found: Option<i64> = None;
    for c in log {
        if let Call::SelectInput { mask, .. } = c {
            found = Some(*mask);
        }
    }
    found
}

#[test]
fn quit_key_through_next_stops_the_loop() {
    let mut fake = FakeBackend::new();
    let display = Display::new(&mut fake, None).unwrap();
    let window = Window::new(&mut fake, &display, None).unwrap();
    let mut handler = EventHandler::new(&display, &window);
    handler.select_input(&mut fake);
    fake.queue_event(RawEvent { event_type: KEY_PRESS, keycode: QUIT_KEY });

    let mut state = LoopState::new();
    let e = handler.next(&mut fake, &mut state);
    assert_eq!(e.get_key_press_code(), Some(QUIT_KEY));
    assert!(!state.running);
}

#[test]
fn secondary_quit_needs_the_modifier_held_in_order() {
    // Held modifier, then the secondary quit key: the loop stops.
    let mut fake = FakeBackend::new();
    let display = Display::new(&mut fake, None).unwrap();
    let window = Window::new(&mut fake, &display, None).unwrap();
    let mut handler = EventHandler::new(&display, &window);
    fake.queue_event(RawEvent { event_type: KEY_PRESS, keycode: MODIFIER_KEY });
    fake.queue_event(RawEvent { event_type: KEY_PRESS, keycode: SECONDARY_QUIT_KEY });
    let mut state = LoopState::new();
    handler.next(&mut fake, &mut state);
    assert!(state.running);
    assert!(state.modifier_held);
    handler.next(&mut fake, &mut state);
    assert!(!state.running);

    // The secondary quit key alone leaves the loop running.
    let mut fake2 = FakeBackend::new();
    let display2 = Display::new(&mut fake2, None).unwrap();
    let window2 = Window::new(&mut fake2, &display2, None).unwrap();
    let mut handler2 = EventHandler::new(&display2, &window2);
    fake2.queue_event(RawEvent { event_type: KEY_PRESS, keycode: SECONDARY_QUIT_KEY });
    let mut state2 = LoopState::new();
    handler2.next(&mut fake2, &mut state2);
    assert!(state2.running);

    // A modifier released before the secondary quit key does not count as
    // held: the loop keeps running.
    let mut fake3 = FakeBackend::new();
    let display3 = Display::new(&mut fake3, None).unwrap();
    let window3 = Window::new(&mut fake3, &display3, None).unwrap();
    let mut handler3 = EventHandler::new(&display3, &window3);
    fake3.queue_event(RawEvent { event_type: KEY_PRESS, keycode: MODIFIER_KEY });
    fake3.queue_event(RawEvent { event_type: KEY_RELEASE, keycode: MODIFIER_KEY });
    fake3.queue_event(RawEvent { event_type: KEY_PRESS, keycode: SECONDARY_QUIT_KEY });
    let mut state3 = LoopState::new();
    handler3.next(&mut fake3, &mut state3);
    handler3.next(&mut fake3, &mut state3);
    handler3.next(&mut fake3, &mut state3);
    assert!(state3.running);
}

#[test]
fn failed_connection_makes_no_further_requests() {
    let mut fake = FakeBackend::with_failures(true, false, false);
    let r = run(&mut fake, None, 8);
    assert!(matches!(r, Err(Error::ConnectionFailed)));
    let log = fake.log().clone();
    assert_eq!(log.len(), 1);
    assert_eq!(log[0], Call::OpenDisplay { result: 0 });
}

#[test]
fn whole_session_releases_everything_in_reverse_order() {
    let mut fake = FakeBackend::new();
    fake.queue_event(RawEvent { event_type: KEY_PRESS, keycode: QUIT_KEY });
    let r = run(&mut fake, None, 8);
    assert!(r.is_ok());
    assert_eq!(fake.outstanding(), 0);

    let log = fake.log().clone();
    let n = log.len();
    assert!(n >= 4);
    assert!(matches!(log[n - 4], Call::FreeGc { .. }));
    assert!(matches!(log[n - 3], Call::UnmapWindow { .. }));
    assert!(matches!(log[n - 2], Call::DestroyWindow { .. }));
    assert!(matches!(log[n - 1], Call::CloseDisplay { .. }));
}

#[test]
fn failed_window_allocation_closes_the_connection() {
    let mut fake = FakeBackend::with_failures(false, true, false);
    let r = run(&mut fake, None, 8);
    assert!(matches!(r, Err(Error::SurfaceCreationFailed)));
    assert_eq!(fake.outstanding(), 0);
    let log = fake.log().clone();
    assert!(matches!(log[log.len() - 1], Call::CloseDisplay { .. }));
}

#[test]
fn failed_line_context_releases_window_and_connection() {
    let mut fake = FakeBackend::with_failures(false, false, true);
    let r = run(&mut fake, None, 8);
    assert!(matches!(r, Err(Error::DrawContextCreationFailed)));
    assert_eq!(fake.outstanding(), 0);
    let log = fake.log().clone();
    let w = created_window_handle(&log);
    let destroy_at = log
        .iter()
        .position(|c| matches!(c, Call::DestroyWindow { window, .. } if *window == w))
        .unwrap();
    let close_at = log.len() - 1;
    assert!(matches!(log[close_at], Call::CloseDisplay { .. }));
    assert!(destroy_at < close_at);
}

#[test]
fn session_budget_reaches_teardown_without_a_quit_event() {
    // A backend that never delivers a quit event: the receive budget runs
    // out and the session still tears everything down.
    let mut fake = FakeBackend::new();
    let r = run(&mut fake, None, 3);
    assert!(r.is_ok());
    assert_eq!(fake.outstanding(), 0);
    let receives = fake
        .log()
        .iter()
        .filter(|c| matches!(c, Call::NextEvent { .. }))
        .count();
    assert_eq!(receives, 3);
}

#[test]
fn dispatcher_starts_idle_and_listens_after_select_input() {
    let mut fake = FakeBackend::new();
    let display = Display::new(&mut fake, None).unwrap();
    let window = Window::new(&mut fake, &display, None).unwrap();
    let mut handler = EventHandler::new(&display, &window);
    assert!(!handler.is_listening());
    handler.select_input(&mut fake);
    assert!(handler.is_listening());
    handler.select_input(&mut fake);
    assert!(handler.is_listening());
}
