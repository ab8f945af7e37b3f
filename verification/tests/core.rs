use window_host::dispatch::{Directive, EventLoop, LoopState};
use window_host::events::{
    button_event_for_code, classify, termination_message, ClassifiedEvent, RawEvent,
    WindowIdentity, BUTTON_PRESS_CODE, CLIENT_MESSAGE_CODE, EXPOSE_CODE,
};
use window_host::gl_utils::{check_glx_extension, glx_version_code};
use window_host::gui_state::{GuiState, MouseEvent};
use window_host::visual_info::VisualInfo;
use window_host::x11_window::{resolve_parent, X11Window};

/// A recording callback object: remembers every invocation in order and
/// checks, through a reentrancy guard, that no invocation overlaps another.
struct Recorder {
    calls: Vec<String>,
    busy: bool,
    guard_tripped: bool,
}

impl Recorder {
    fn new() -> Recorder {
        Recorder { calls: Vec::new(), busy: false, guard_tripped: false }
    }

    fn enter(&mut self) {
        if self.busy {
            self.guard_tripped = true;
        }
        self.busy = true;
    }

    fn exit(&mut self) {
        self.busy = false;
    }
}

impl GuiState for Recorder {
    fn draw(&mut self) {
        self.enter();
        self.calls.push(String::from("draw"));
        self.exit();
    }

    fn handle_mouse(&mut self, mouse_event: MouseEvent, x: i32, y: i32) {
        self.enter();
        self.calls.push(format!("mouse {:?} {} {}", mouse_event, x, y));
        self.exit();
    }
}

fn identity() -> WindowIdentity {
    WindowIdentity { window_id: 900, protocols_atom: 321, delete_window_atom: 654 }
}

fn plain_event(response_type: u8) -> RawEvent {
    RawEvent {
        response_type,
        detail: 0,
        event_x: 0,
        event_y: 0,
        window: 0,
        message_type: 0,
        message_format: 0,
        message_data0: 0,
    }
}

fn button_event(detail: u8, x: i16, y: i16) -> RawEvent {
    RawEvent { detail, event_x: x, event_y: y, ..plain_event(BUTTON_PRESS_CODE) }
}

#[test]
fn it_works() {
    assert_eq!(1, 1);
}

#[test]
fn button_codes_map_in_order() {
    let expected = [
        MouseEvent::LeftMouseButtonDown,
        MouseEvent::MiddleMouseButtonDown,
        MouseEvent::RightMouseButtonDown,
        MouseEvent::ScrollUp,
        MouseEvent::ScrollDown,
        MouseEvent::ScrollLeft,
        MouseEvent::ScrollRight,
        MouseEvent::BackMouseButtonDown,
        MouseEvent::ForwardMouseButtonDown,
    ];
    for (i, kind) in expected.iter().enumerate() {
        assert_eq!(button_event_for_code((i + 1) as u8), Some(*kind));
    }
}

#[test]
fn button_codes_outside_table_map_to_nothing() {
    assert_eq!(button_event_for_code(0), None);
    assert_eq!(button_event_for_code(10), None);
    assert_eq!(button_event_for_code(128), None);
    assert_eq!(button_event_for_code(255), None);
}

#[test]
fn expose_classifies_as_draw() {
    let id = identity();
    assert_eq!(classify(&plain_event(EXPOSE_CODE), &id), ClassifiedEvent::Draw);
}

#[test]
fn synthetic_origin_bit_is_stripped() {
    let id = identity();
    assert_eq!(classify(&plain_event(EXPOSE_CODE | 0x80), &id), ClassifiedEvent::Draw);
}

#[test]
fn recognized_button_press_classifies_with_coordinates() {
    let id = identity();
    assert_eq!(
        classify(&button_event(4, 10, 20), &id),
        ClassifiedEvent::PointerDown(MouseEvent::ScrollUp, 10, 20)
    );
    assert_eq!(
        classify(&button_event(1, -3, 7), &id),
        ClassifiedEvent::PointerDown(MouseEvent::LeftMouseButtonDown, -3, 7)
    );
}

#[test]
fn unknown_button_press_is_unrecognized() {
    let id = identity();
    assert_eq!(classify(&button_event(11, 10, 20), &id), ClassifiedEvent::Unrecognized(11));
}

#[test]
fn matching_client_message_requests_termination() {
    let id = identity();
    let ev = RawEvent {
        window: id.window_id,
        message_type: id.protocols_atom,
        message_format: 32,
        message_data0: id.delete_window_atom,
        ..plain_event(CLIENT_MESSAGE_CODE)
    };
    assert_eq!(classify(&ev, &id), ClassifiedEvent::TerminationRequested);
}

#[test]
fn client_message_with_wrong_payload_is_ignored() {
    let id = identity();
    let wrong_payload = RawEvent {
        message_type: id.protocols_atom,
        message_format: 32,
        message_data0: id.delete_window_atom + 1,
        ..plain_event(CLIENT_MESSAGE_CODE)
    };
    let wrong_atom = RawEvent {
        message_type: id.protocols_atom + 1,
        message_format: 32,
        message_data0: id.delete_window_atom,
        ..plain_event(CLIENT_MESSAGE_CODE)
    };
    let wrong_format = RawEvent {
        message_type: id.protocols_atom,
        message_format: 8,
        message_data0: id.delete_window_atom,
        ..plain_event(CLIENT_MESSAGE_CODE)
    };
    let unrecognized = ClassifiedEvent::Unrecognized(CLIENT_MESSAGE_CODE);
    assert_eq!(classify(&wrong_payload, &id), unrecognized);
    assert_eq!(classify(&wrong_atom, &id), unrecognized);
    assert_eq!(classify(&wrong_format, &id), unrecognized);
}

#[test]
fn other_event_classes_are_unrecognized() {
    let id = identity();
    assert_eq!(classify(&plain_event(2), &id), ClassifiedEvent::Unrecognized(2));
    assert_eq!(classify(&plain_event(85), &id), ClassifiedEvent::Unrecognized(85));
}

#[test]
fn termination_message_addresses_the_identity() {
    let id = identity();
    let ev = termination_message(&id);
    assert_eq!(ev.response_type, CLIENT_MESSAGE_CODE);
    assert_eq!(ev.window, 900);
    assert_eq!(ev.message_type, 321);
    assert_eq!(ev.message_format, 32);
    assert_eq!(ev.message_data0, 654);
}

#[test]
fn termination_message_is_recognized_by_its_own_loop() {
    let id = identity();
    let ev = termination_message(&id);
    assert_eq!(classify(&ev, &id), ClassifiedEvent::TerminationRequested);
    let synthetic = RawEvent { response_type: ev.response_type | 0x80, ..ev };
    assert_eq!(classify(&synthetic, &id), ClassifiedEvent::TerminationRequested);
}

#[test]
fn termination_message_for_another_window_is_ignored() {
    let id = identity();
    let other = WindowIdentity { window_id: 901, protocols_atom: 111, delete_window_atom: 222 };
    let ev = termination_message(&other);
    assert_eq!(classify(&ev, &id), ClassifiedEvent::Unrecognized(CLIENT_MESSAGE_CODE));
}

#[test]
fn dispatch_scenario_draw_mouse_teardown() {
    // One synthesized redraw gives exactly one draw call; one button code 4
    // gives exactly one ScrollUp call with the event's coordinates; the
    // injected termination message stops the loop.
    let id = identity();
    let mut engine = EventLoop::new(Recorder::new(), id);
    assert_eq!(engine.current_state(), LoopState::WaitingForEvent);

    let d = engine.handle(Some(plain_event(EXPOSE_CODE)));
    assert_eq!(d, Directive::Render);
    assert_eq!(engine.current_state(), LoopState::Dispatching);
    engine.render_frame();
    assert_eq!(engine.current_state(), LoopState::WaitingForEvent);

    let d = engine.handle(Some(button_event(4, 15, 25)));
    assert_eq!(d, Directive::Continue);

    let d = engine.handle(Some(termination_message(&id)));
    assert_eq!(d, Directive::Stop);
    assert_eq!(engine.current_state(), LoopState::Terminated);

    let recorder = engine.into_gui_state();
    assert_eq!(recorder.calls, vec![
        String::from("draw"),
        format!("mouse {:?} {} {}", MouseEvent::ScrollUp, 15, 25),
    ]);
    assert!(!recorder.guard_tripped);
}

#[test]
fn dispatch_drops_unrecognized_events_without_callbacks() {
    let id = identity();
    let mut engine = EventLoop::new(Recorder::new(), id);
    assert_eq!(engine.handle(Some(plain_event(2))), Directive::Continue);
    assert_eq!(engine.handle(Some(button_event(12, 1, 2))), Directive::Continue);
    assert_eq!(engine.handle(None), Directive::Stop);
    assert_eq!(engine.current_state(), LoopState::Terminated);
    let recorder = engine.into_gui_state();
    assert_eq!(recorder.calls.len(), 0);
}

#[test]
fn many_synthetic_events_never_trip_the_reentrancy_guard() {
    let id = identity();
    let mut engine = EventLoop::new(Recorder::new(), id);
    let mut expected: usize = 0;
    for round in 0..2000u32 {
        let code = (round % 12) as u8;
        if round % 2 == 0 {
            assert_eq!(engine.handle(Some(plain_event(EXPOSE_CODE))), Directive::Render);
            engine.render_frame();
            expected += 1;
        } else {
            let d = engine.handle(Some(button_event(code, 1, 2)));
            assert_eq!(d, Directive::Continue);
            if (1..=9).contains(&code) {
                expected += 1;
            }
        }
    }
    let recorder = engine.into_gui_state();
    assert_eq!(recorder.calls.len(), expected);
    assert!(!recorder.guard_tripped);
}

#[test]
fn extension_is_found_only_as_a_whole_token() {
    let exts = "GLX_ARB_get_proc_address GLX_ARB_create_context GLX_EXT_swap_control";
    assert!(check_glx_extension(exts, "GLX_ARB_create_context"));
    assert!(check_glx_extension(exts, "GLX_ARB_get_proc_address"));
    assert!(check_glx_extension(exts, "GLX_EXT_swap_control"));
    assert!(!check_glx_extension(exts, "GLX_ARB_create"));
    assert!(!check_glx_extension(exts, "GLX_ARB_create_context_profile"));
    assert!(!check_glx_extension(exts, "swap_control"));
}

#[test]
fn extension_search_edge_cases() {
    assert!(!check_glx_extension("", "GLX_ARB_create_context"));
    assert!(check_glx_extension("GLX_ARB_create_context", "GLX_ARB_create_context"));
    assert!(check_glx_extension(" GLX_ARB_create_context ", "GLX_ARB_create_context"));
    assert!(!check_glx_extension("GLX_ARB_create_context", ""));
    assert!(check_glx_extension("a  b", ""));
}

#[test]
fn version_code_packs_major_and_minor() {
    assert_eq!(glx_version_code(1, 4), 14);
    assert_eq!(glx_version_code(3, 0), 30);
    assert_eq!(glx_version_code(0, 9), 9);
}

#[test]
fn parent_resolution_defaults_to_root() {
    assert_eq!(resolve_parent(0, 77), 77);
    assert_eq!(resolve_parent(5, 77), 5);
}

#[test]
fn window_records_hold_their_values() {
    let v = VisualInfo::new(4242, 1, 33, 24);
    assert_eq!(v.glx_frame_buffer_config(), 4242);
    assert_eq!(v.screen(), 1);
    assert_eq!(v.visual_id(), 33);
    assert_eq!(v.depth(), 24);
    let w = X11Window::new(900, 901, v);
    assert_eq!(w.id(), 900);
    assert_eq!(w.visual_info().visual_id(), 33);
}
