use frameloop::frame::{Dispatch, Event, FrameState, Key, Mods};
use frameloop::shader::{Shader, StageOutcome};

fn no_mods() -> Mods {
    Mods { ctrl: false, shift: false, alt: false, superkey: false }
}

fn ctrl_only() -> Mods {
    Mods { ctrl: true, shift: false, alt: false, superkey: false }
}

fn toggle_chord() -> Event {
    Event::KeyPress { key: Key::H, mods: ctrl_only() }
}

#[test]
fn initial_state() {
    let s = FrameState::new();
    assert!(s.ui_visible);
    assert!(!s.recompile_requested);
    assert!(!s.close_requested);
}

#[test]
fn resize_sets_viewport_to_origin_and_new_size() {
    let mut s = FrameState::new();
    let d = s.handle_event(Event::FramebufferResize { width: 1280, height: 720 });
    assert_eq!(d, Dispatch::SetViewport { x: 0, y: 0, width: 1280, height: 720 });
    assert_eq!(s, FrameState::new());
}

#[test]
fn exit_key_requests_close() {
    let mut s = FrameState::new();
    let d = s.handle_event(Event::KeyPress { key: Key::Escape, mods: no_mods() });
    assert_eq!(d, Dispatch::CloseWindow);
    assert!(s.close_requested);
}

#[test]
fn exit_key_works_under_any_modifiers() {
    let mut s = FrameState::new();
    let d = s.handle_event(Event::KeyPress {
        key: Key::Escape,
        mods: Mods { ctrl: true, shift: true, alt: true, superkey: true },
    });
    assert_eq!(d, Dispatch::CloseWindow);
    assert!(s.close_requested);
}

#[test]
fn toggle_chord_flips_overlay() {
    let mut s = FrameState::new();
    let d = s.handle_event(toggle_chord());
    assert_eq!(d, Dispatch::Handled);
    assert!(!s.ui_visible);
}

#[test]
fn toggle_twice_restores_state() {
    let mut s = FrameState::new();
    let before = s;
    s.handle_event(toggle_chord());
    s.handle_event(toggle_chord());
    assert_eq!(s, before);
}

#[test]
fn chord_with_extra_modifier_is_forwarded() {
    let mut s = FrameState::new();
    let d = s.handle_event(Event::KeyPress {
        key: Key::H,
        mods: Mods { ctrl: true, shift: true, alt: false, superkey: false },
    });
    assert_eq!(d, Dispatch::Forward);
    assert!(s.ui_visible);
}

#[test]
fn bare_toggle_key_is_forwarded() {
    let mut s = FrameState::new();
    let d = s.handle_event(Event::KeyPress { key: Key::H, mods: no_mods() });
    assert_eq!(d, Dispatch::Forward);
    assert!(s.ui_visible);
}

#[test]
fn unrelated_events_are_forwarded() {
    let mut s = FrameState::new();
    assert_eq!(s.handle_event(Event::Other), Dispatch::Forward);
    assert_eq!(
        s.handle_event(Event::KeyPress { key: Key::Other, mods: ctrl_only() }),
        Dispatch::Forward
    );
    assert_eq!(s, FrameState::new());
}

#[test]
fn batch_is_dispatched_in_order() {
    let mut s = FrameState::new();
    let events = vec![
        Event::Other,
        Event::FramebufferResize { width: 640, height: 480 },
        toggle_chord(),
        Event::KeyPress { key: Key::Escape, mods: no_mods() },
    ];
    let ds = s.process_events(&events);
    assert_eq!(
        ds,
        vec![
            Dispatch::Forward,
            Dispatch::SetViewport { x: 0, y: 0, width: 640, height: 480 },
            Dispatch::Handled,
            Dispatch::CloseWindow,
        ]
    );
    assert!(!s.ui_visible);
    assert!(s.close_requested);
}

#[test]
fn request_latch_collapses_repeated_presses() {
    let mut s = FrameState::new();
    for _ in 0..5 {
        s.request_recompile();
    }
    assert!(s.take_recompile_request());
    assert!(!s.take_recompile_request());
    assert!(!s.take_recompile_request());
}

#[test]
fn one_button_press_causes_one_rebuild() {
    // One loop pass with the overlay visible: the button is pressed once,
    // and the next iteration performs exactly one rebuild and clears the
    // latch.
    let mut s = FrameState::new();
    assert!(s.ui_visible);
    s.request_recompile();

    let mut rebuilds = 0;
    for _ in 0..3 {
        if s.take_recompile_request() {
            let ok = StageOutcome { ok: true, log: Vec::new() };
            let ok2 = StageOutcome { ok: true, log: Vec::new() };
            let ok3 = StageOutcome { ok: true, log: Vec::new() };
            let rebuilt = Shader::new(ok, ok2, ok3, 5).expect("valid source");
            assert_eq!(rebuilt.id, 5);
            rebuilds += 1;
        }
        assert!(!s.recompile_requested);
    }
    assert_eq!(rebuilds, 1);
}

#[test]
fn resize_viewport_precedes_next_draw() {
    // The viewport dispatch for a resize comes out of event processing,
    // which an iteration finishes before it issues any draw command.
    let mut s = FrameState::new();
    let events = vec![Event::FramebufferResize { width: 333, height: 222 }];
    let ds = s.process_events(&events);
    assert_eq!(ds, vec![Dispatch::SetViewport { x: 0, y: 0, width: 333, height: 222 }]);
    let shader = Shader { id: 1 };
    let cmds = frameloop::commands::frame_commands(&shader, 2, 3);
    assert_eq!(cmds.len(), 6);
}
