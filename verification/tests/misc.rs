use display_backend::frame::{CursorImageStatus, DragIcon};
use display_backend::gpu::{primary_gpu, GpuCandidate};
use display_backend::input::{KeyOutcome, KeyState, VtSwitcher, KEY_F1, KEY_F10, KEY_LEFTALT, KEY_LEFTCTRL};
use display_backend::mode::OutputMode;
use display_backend::output::Rectangle;
use display_backend::state::DrmState;
use display_backend::surface::{Cause, SwapBuffersError};
use display_backend::winit::{
    cursor_visible, keeps_running, plan_winit_pointer, winit_mode, winit_output, Backend, WinitData,
    WinitPointer,
};

fn gpu(path: &str, render_node: Option<u64>) -> GpuCandidate {
    GpuCandidate { path: String::from(path), render_node }
}

#[test]
fn seat_primary_gpu_is_chosen_when_it_can_render() {
    let all = vec![gpu("/dev/dri/card1", Some(129)), gpu("/dev/dri/card0", Some(128))];
    let choice = primary_gpu(&Some(gpu("/dev/dri/card0", Some(128))), &all).unwrap();
    assert_eq!((choice.node, choice.path.as_str()), (128, "/dev/dri/card0"));
}

#[test]
fn first_gpu_with_a_render_node_is_the_fallback() {
    let all = vec![gpu("/dev/dri/card0", None), gpu("/dev/dri/card1", Some(129)), gpu("/dev/dri/card2", Some(130))];
    let choice = primary_gpu(&Some(gpu("/dev/dri/card0", None)), &all).unwrap();
    assert_eq!((choice.node, choice.path.as_str()), (129, "/dev/dri/card1"));
    let choice = primary_gpu(&None, &all).unwrap();
    assert_eq!(choice.node, 129);
}

#[test]
fn no_gpu_with_a_render_node_is_no_choice() {
    assert!(primary_gpu(&None, &vec![]).is_none());
    assert!(primary_gpu(&Some(gpu("a", None)), &vec![gpu("a", None)]).is_none());
}

#[test]
fn control_alt_function_key_switches_the_terminal() {
    let mut keys = VtSwitcher::new();
    assert_eq!(keys.on_key(KEY_F1 + 2, KeyState::Pressed), KeyOutcome::Forward);
    assert_eq!(keys.on_key(KEY_LEFTCTRL, KeyState::Pressed), KeyOutcome::Forward);
    assert_eq!(keys.on_key(KEY_F1 + 2, KeyState::Pressed), KeyOutcome::Forward);
    assert_eq!(keys.on_key(KEY_LEFTALT, KeyState::Pressed), KeyOutcome::Forward);
    assert_eq!(keys.on_key(KEY_F1, KeyState::Pressed), KeyOutcome::ChangeVt { vt: 1 });
    assert_eq!(keys.on_key(KEY_F1 + 2, KeyState::Pressed), KeyOutcome::ChangeVt { vt: 3 });
    assert_eq!(keys.on_key(KEY_F10, KeyState::Pressed), KeyOutcome::ChangeVt { vt: 10 });
    assert_eq!(keys.on_key(KEY_F10 + 1, KeyState::Pressed), KeyOutcome::Forward);
    assert_eq!(keys.on_key(KEY_F1 - 1, KeyState::Pressed), KeyOutcome::Forward);
    assert_eq!(keys.on_key(KEY_F1, KeyState::Released), KeyOutcome::Forward);
    assert_eq!(keys.on_key(KEY_LEFTALT, KeyState::Released), KeyOutcome::Forward);
    assert_eq!(keys.on_key(KEY_F1, KeyState::Pressed), KeyOutcome::Forward);
    assert!(keys.ctrl_pressed);
    assert!(!keys.alt_pressed);
}

#[test]
fn windowed_backend_describes_its_output() {
    assert_eq!(WinitData.seat_name(), "winit");
    assert_eq!(Backend::Winit(WinitData).seat_name("seat0"), "winit");
    assert_eq!(Backend::Drm(DrmState::new(1, None, 2)).seat_name("seat0"), "seat0");
    assert!(Backend::Winit(WinitData).drm_state().is_none());
    assert_eq!(Backend::Drm(DrmState::new(9, None, 2)).drm_state().unwrap().primary_gpu(), 9);
    assert_eq!(winit_mode(1280, 800), OutputMode { width: 1280, height: 800, refresh: 60_000 });
    let output = winit_output(1280, 800, "Window", "Nested");
    assert_eq!(output.name, "winit");
    assert_eq!(output.physical.size, (0, 0));
    assert_eq!(output.physical.make, "Window");
    assert_eq!(output.physical.model, "Nested");
    assert_eq!(output.preferred_mode, None);
    assert_eq!(
        output.geometry(),
        Some(Rectangle { x: 0, y: 0, width: 1280, height: 800 })
    );
}

#[test]
fn windowed_backend_stops_on_a_lost_context_only() {
    assert!(keeps_running(Ok(())));
    assert!(keeps_running(Err(SwapBuffersError::AlreadySwapped)));
    assert!(keeps_running(Err(SwapBuffersError::TemporaryFailure(Cause::DeviceInactive))));
    assert!(!keeps_running(Err(SwapBuffersError::ContextLost(Cause::Other { code: 1 }))));
    assert!(cursor_visible(CursorImageStatus::Default));
    assert!(cursor_visible(CursorImageStatus::Hidden));
    assert!(!cursor_visible(CursorImageStatus::Image { surface: 1 }));
}

#[test]
fn windowed_pointer_prefers_the_client_cursor() {
    let mut status = CursorImageStatus::Image { surface: 4 };
    let plan = plan_winit_pointer(Some(DragIcon { surface: 9, alive: true }), &mut status, true);
    assert_eq!(plan, WinitPointer { drag_icon: Some(9), cursor: Some(4), cursor_visible: false });
    let plan = plan_winit_pointer(Some(DragIcon { surface: 9, alive: false }), &mut status, false);
    assert_eq!(plan, WinitPointer { drag_icon: None, cursor: None, cursor_visible: true });
    assert_eq!(status, CursorImageStatus::Default);
    let mut hidden = CursorImageStatus::Hidden;
    let plan = plan_winit_pointer(None, &mut hidden, true);
    assert_eq!(plan, WinitPointer { drag_icon: None, cursor: None, cursor_visible: true });
    assert_eq!(hidden, CursorImageStatus::Hidden);
}
