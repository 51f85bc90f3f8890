use display_backend::connector::{ConnectorInfo, EncoderInfo, Resources, Subpixel};
use display_backend::event::{Action, DrmEvent, OpenError, OpenedDevice, SessionEvent, UdevEvent};
use display_backend::mode::Mode;
use display_backend::router::RenderPath;
use display_backend::scanner::Binding;
use display_backend::scheduler::{Task, TaskKind};
use display_backend::state::{DrmState, ScanError};
use display_backend::surface::{Cause, Frame, SwapBuffersError, AGE_UNKNOWN};

fn connector(handle: u32, connected: bool, mask: u32) -> ConnectorInfo {
    ConnectorInfo {
        handle,
        interface: 10,
        interface_id: handle,
        connected,
        size: None,
        subpixel: Subpixel::Unknown,
        modes: vec![Mode { width: 1280, height: 720, vrefresh: 60, mode_type: 0 }],
        encoders: vec![EncoderInfo { handle: 1, possible_crtcs: mask }],
        edid: None,
    }
}

fn two_outputs() -> Resources {
    Resources {
        crtcs: vec![31, 32],
        connectors: vec![connector(10, true, 0b11), connector(20, true, 0b11)],
    }
}

fn path(render_node: u64) -> String {
    format!("/dev/dri/card{}", render_node - 128)
}

fn opened(render_node: u64) -> Result<OpenedDevice, OpenError> {
    Ok(OpenedDevice { render_node: Some(render_node), canonical_path: Some(path(render_node)) })
}

fn registry() -> DrmState {
    DrmState::new(128, Some(path(128)), 3)
}

fn draw(node: u64, crtc: u32, buffer: usize, age: u8, blank: bool) -> Action {
    Action::Draw { node, crtc, frame: Frame { buffer, age }, blank }
}

fn state_with_two_devices() -> DrmState {
    let mut state = registry();
    state.on_device_added(1, opened(128), Some(&two_outputs()), 0);
    state.on_device_added(2, opened(129), Some(&two_outputs()), 0);
    state
}

#[test]
fn added_device_is_scanned_and_its_first_frames_are_scheduled() {
    let mut state = registry();
    let changes = state.on_device_added(1, opened(128), Some(&two_outputs()), 50);
    assert_eq!(
        changes.actions,
        vec![Action::AddRenderNode { node: 128 }, Action::EnableAcceleration { node: 1 }]
    );
    assert!(changes.removed.is_empty());
    assert_eq!(
        changes.added,
        vec![Binding { connector: 10, crtc: 31 }, Binding { connector: 20, crtc: 32 }]
    );
    assert_eq!(state.devices().len(), 1);
    let device = state.device(1).unwrap();
    assert!(device.is_accelerated());
    assert!(device.is_active());
    assert_eq!(device.render_node(), 128);
    assert_eq!(device.surfaces().len(), 2);
    assert_eq!(device.surface(32).unwrap().output().name, "DP-20");
    assert_eq!(
        state.scheduler().tasks(),
        &vec![
            Task { node: 1, crtc: 31, due: 50, kind: TaskKind::Initial },
            Task { node: 1, crtc: 32, due: 50, kind: TaskKind::Initial },
        ]
    );
    let draws = state.dispatch(50);
    assert_eq!(
        draws,
        vec![draw(1, 31, 0, AGE_UNKNOWN, true), draw(1, 32, 0, AGE_UNKNOWN, true)]
    );
    assert_eq!(state.scheduler().len(), 0);
}

#[test]
fn device_that_cannot_be_opened_is_skipped() {
    let mut state = registry();
    for error in [OpenError::Io, OpenError::Allocator, OpenError::RenderContext] {
        let changes = state.on_device_added(1, Err(error), Some(&two_outputs()), 0);
        assert!(changes.actions.is_empty());
        assert!(changes.added.is_empty());
    }
    assert_eq!(state.devices().len(), 0);
    assert_eq!(state.scheduler().len(), 0);
    // Other devices are still taken in.
    state.on_device_added(2, opened(129), None, 0);
    assert_eq!(state.devices().len(), 1);
}

#[test]
fn device_without_render_node_registers_itself() {
    let mut state = registry();
    let changes =
        state.on_device_added(
            5,
            Ok(OpenedDevice { render_node: None, canonical_path: Some(String::from("/dev/dri/card5")) }),
            Some(&two_outputs()),
            0,
        );
    assert_eq!(changes.actions, vec![Action::AddRenderNode { node: 5 }]);
    assert_eq!(state.device(5).unwrap().render_node(), 5);
    assert!(!state.device(5).unwrap().is_accelerated());
}

#[test]
fn known_device_is_not_added_twice() {
    let mut state = registry();
    state.on_device_added(1, opened(128), Some(&two_outputs()), 0);
    let again = state.on_device_added(1, opened(128), Some(&two_outputs()), 0);
    assert!(again.actions.is_empty());
    assert!(again.added.is_empty());
    assert_eq!(state.devices().len(), 1);
    assert_eq!(state.scheduler().len(), 2);
}

#[test]
fn render_of_one_crtc_touches_one_surface() {
    let mut state = state_with_two_devices();
    state.dispatch(0);
    state.frame_rendered(1, 31, Ok(true), 0).unwrap();
    state.frame_rendered(1, 32, Ok(true), 0).unwrap();
    state.frame_rendered(2, 31, Ok(true), 0).unwrap();
    state.frame_rendered(2, 32, Ok(true), 0).unwrap();
    for device in state.devices() {
        for surface in device.surfaces() {
            assert_eq!(surface.in_flight_count(), 1);
        }
    }
    let draws = state.on_drm_event(1, DrmEvent::VBlank { crtc: 32 }, 16);
    assert_eq!(draws, vec![draw(1, 32, 1, AGE_UNKNOWN, false)]);
    assert_eq!(state.device(1).unwrap().surface(32).unwrap().in_flight_count(), 0);
    assert_eq!(state.device(1).unwrap().surface(31).unwrap().in_flight_count(), 1);
    assert_eq!(state.device(2).unwrap().surface(31).unwrap().in_flight_count(), 1);
    assert_eq!(state.device(2).unwrap().surface(32).unwrap().in_flight_count(), 1);
}

#[test]
fn render_without_crtc_touches_every_surface_of_the_device() {
    let mut state = state_with_two_devices();
    let draws = state.render(2, None, 0);
    assert_eq!(
        draws,
        vec![draw(2, 31, 0, AGE_UNKNOWN, false), draw(2, 32, 0, AGE_UNKNOWN, false)]
    );
    assert!(state.render(3, None, 0).is_empty());
    assert!(state.render(2, Some(77), 0).is_empty());
    assert_eq!(state.render(1, Some(31), 0), vec![draw(1, 31, 0, AGE_UNKNOWN, false)]);
}

#[test]
fn render_while_a_flip_is_pending_is_a_no_op() {
    let mut state = state_with_two_devices();
    state.render(1, Some(31), 0);
    let flip = state.frame_rendered(1, 31, Ok(true), 0).unwrap();
    assert_eq!(flip, vec![Action::PageFlip { node: 1, crtc: 31, buffer: 0 }]);
    let tasks_before = state.scheduler().len();
    assert!(state.render(1, Some(31), 5).is_empty());
    assert_eq!(state.scheduler().len(), tasks_before);
}

#[test]
fn permission_denied_schedules_nothing_and_the_surface_stays_idle() {
    let mut state = state_with_two_devices();
    state.dispatch(0);
    assert_eq!(state.scheduler().len(), 0);
    let result = state.frame_rendered(
        1,
        31,
        Err(SwapBuffersError::TemporaryFailure(Cause::PermissionDenied)),
        100,
    );
    assert_eq!(result, Ok(vec![]));
    assert_eq!(state.scheduler().len(), 0);
    assert!(state.dispatch(10_000).is_empty());
    assert_eq!(state.device(1).unwrap().surface(31).unwrap().in_flight_count(), 0);
    // The next explicit render hands the same buffer out again.
    assert_eq!(state.render(1, Some(31), 200), vec![draw(1, 31, 0, AGE_UNKNOWN, false)]);
}

#[test]
fn other_temporary_failure_is_retried_one_frame_later() {
    let mut state = state_with_two_devices();
    state.dispatch(0);
    let result = state.frame_rendered(
        2,
        32,
        Err(SwapBuffersError::TemporaryFailure(Cause::Other { code: 16 })),
        100,
    );
    assert_eq!(result, Ok(vec![]));
    assert_eq!(
        state.scheduler().tasks(),
        &vec![Task { node: 2, crtc: 32, due: 116, kind: TaskKind::Retry }]
    );
    assert!(state.dispatch(115).is_empty());
    assert_eq!(state.dispatch(116), vec![draw(2, 32, 0, AGE_UNKNOWN, false)]);
    assert_eq!(state.scheduler().len(), 0);
}

#[test]
fn lost_context_is_handed_back() {
    let mut state = state_with_two_devices();
    state.dispatch(0);
    let result =
        state.frame_rendered(1, 31, Err(SwapBuffersError::ContextLost(Cause::Other { code: 5 })), 0);
    assert_eq!(result, Err(Cause::Other { code: 5 }));
    assert_eq!(state.scheduler().len(), 0);
    // For an unknown surface there is nothing to end.
    let result =
        state.frame_rendered(2, 99, Err(SwapBuffersError::ContextLost(Cause::Other { code: 5 })), 0);
    assert_eq!(result, Ok(vec![]));
    assert!(!state.device(2).unwrap().is_lost());
}

#[test]
fn scene_is_told_only_once_the_flip_was_accepted() {
    let mut state = state_with_two_devices();
    state.dispatch(0);
    // Nothing is in flight yet.
    assert!(state.flip_queued(1, 31).is_empty());
    let flip = state.frame_rendered(1, 31, Ok(true), 0).unwrap();
    assert_eq!(flip, vec![Action::PageFlip { node: 1, crtc: 31, buffer: 0 }]);
    assert_eq!(state.flip_queued(1, 31), vec![Action::FrameConsumed { node: 1, crtc: 31 }]);
    assert!(state.flip_queued(1, 32).is_empty());
    assert!(state.flip_queued(1, 99).is_empty());
    assert!(state.flip_queued(9, 31).is_empty());
    // Once the flip is confirmed nothing is in flight any more.
    state.on_drm_event(1, DrmEvent::VBlank { crtc: 31 }, 16);
    assert!(state.flip_queued(1, 31).is_empty());
}

#[test]
fn failed_flip_tells_the_scene_nothing() {
    for error in [
        SwapBuffersError::TemporaryFailure(Cause::DeviceInactive),
        SwapBuffersError::TemporaryFailure(Cause::PermissionDenied),
        SwapBuffersError::TemporaryFailure(Cause::Other { code: 16 }),
        SwapBuffersError::ContextLost(Cause::Other { code: 5 }),
    ] {
        let mut state = state_with_two_devices();
        state.dispatch(0);
        let asked = state.frame_rendered(1, 31, Ok(true), 0).unwrap();
        assert!(asked.iter().all(|a| !matches!(a, Action::FrameConsumed { .. })));
        let _ = state.flip_failed(1, 31, error, 100);
        assert!(state.flip_queued(1, 31).is_empty());
        let retries = state.scheduler().tasks().iter().filter(|t| t.kind == TaskKind::Retry).count();
        match error {
            SwapBuffersError::TemporaryFailure(Cause::Other { .. }) => {
                assert_eq!(
                    state.scheduler().tasks(),
                    &vec![Task { node: 1, crtc: 31, due: 116, kind: TaskKind::Retry }]
                );
            }
            _ => assert_eq!(retries, 0),
        }
    }
}

#[test]
fn lost_context_ends_the_rendering_of_the_device() {
    let mut state = state_with_two_devices();
    state.dispatch(0);
    state.frame_rendered(1, 32, Err(SwapBuffersError::TemporaryFailure(Cause::NoFreeSlot)), 0).unwrap();
    state.frame_rendered(2, 32, Err(SwapBuffersError::TemporaryFailure(Cause::NoFreeSlot)), 0).unwrap();
    assert_eq!(state.scheduler().len(), 2);
    let lost =
        state.frame_rendered(1, 31, Err(SwapBuffersError::ContextLost(Cause::Other { code: 5 })), 5);
    assert_eq!(lost, Err(Cause::Other { code: 5 }));
    assert!(state.device(1).unwrap().is_lost());
    assert!(!state.device(2).unwrap().is_lost());
    // The device's renders are off the list; the other device's stay.
    assert_eq!(
        state.scheduler().tasks(),
        &vec![Task { node: 2, crtc: 32, due: 16, kind: TaskKind::Retry }]
    );
    // The device is asked for no frame any more.
    assert!(state.render(1, None, 10).is_empty());
    assert!(state.render(1, Some(32), 10).is_empty());
    assert!(state.on_drm_event(1, DrmEvent::VBlank { crtc: 32 }, 10).is_empty());
    assert_eq!(state.frame_rendered(1, 32, Ok(true), 10), Ok(vec![]));
    assert_eq!(state.frame_rendered(1, 32, Ok(false), 10), Ok(vec![]));
    assert_eq!(
        state.frame_rendered(1, 32, Err(SwapBuffersError::TemporaryFailure(Cause::NoFreeSlot)), 10),
        Ok(vec![])
    );
    assert_eq!(state.scheduler().len(), 1);
    let mut res = two_outputs();
    res.connectors.push(connector(30, true, 0b111));
    res.crtcs.push(33);
    let changes = state.on_device_changed(1, Some(&res), 10).unwrap();
    assert_eq!(changes.added.len(), 1);
    assert_eq!(state.scheduler().len(), 1);
    let woken = state.on_session_event(SessionEvent::ActivateSession, 20);
    let frames: Vec<&Action> = woken.iter().filter(|a| matches!(a, Action::Draw { .. })).collect();
    assert_eq!(frames.len(), 2);
    assert!(frames.iter().all(|a| matches!(a, Action::Draw { node: 2, .. })));
    // The other device goes on: its retry hands out the buffer it holds.
    assert_eq!(state.dispatch(20), vec![draw(2, 32, 0, AGE_UNKNOWN, false)]);
    // A device that is added anew has its context.
    state.on_device_removed(1);
    state.on_device_added(1, opened(128), Some(&two_outputs()), 30);
    assert!(!state.device(1).unwrap().is_lost());
    assert_eq!(state.dispatch(30).len(), 2);
}

#[test]
fn paused_device_is_not_asked_for_a_flip() {
    let mut state = state_with_two_devices();
    state.dispatch(0);
    state.on_session_event(SessionEvent::PauseSession, 1);
    assert_eq!(state.frame_rendered(1, 31, Ok(true), 2), Ok(vec![]));
    assert_eq!(state.device(1).unwrap().surface(31).unwrap().in_flight_count(), 0);
    assert!(state.flip_queued(1, 31).is_empty());
    assert_eq!(state.scheduler().len(), 0);
}

#[test]
fn frame_with_nothing_to_draw_is_due_again_at_once() {
    let mut state = state_with_two_devices();
    state.dispatch(0);
    assert_eq!(state.frame_rendered(1, 31, Ok(false), 40), Ok(vec![]));
    assert_eq!(
        state.scheduler().tasks(),
        &vec![Task { node: 1, crtc: 31, due: 40, kind: TaskKind::Idle }]
    );
}

#[test]
fn refused_flip_frees_the_buffer_and_is_classified() {
    let mut state = state_with_two_devices();
    state.dispatch(0);
    state.frame_rendered(1, 31, Ok(true), 0).unwrap();
    let result =
        state.flip_failed(1, 31, SwapBuffersError::TemporaryFailure(Cause::Other { code: 16 }), 7);
    assert_eq!(result, Ok(()));
    assert_eq!(state.device(1).unwrap().surface(31).unwrap().in_flight_count(), 0);
    assert_eq!(
        state.scheduler().tasks(),
        &vec![Task { node: 1, crtc: 31, due: 23, kind: TaskKind::Retry }]
    );
    state.frame_rendered(2, 31, Ok(true), 0).unwrap();
    state.frame_rendered(2, 32, Err(SwapBuffersError::TemporaryFailure(Cause::NoFreeSlot)), 0).unwrap();
    let fatal = state.flip_failed(2, 31, SwapBuffersError::ContextLost(Cause::Other { code: 9 }), 7);
    assert_eq!(fatal, Err(Cause::Other { code: 9 }));
    assert!(state.device(2).unwrap().is_lost());
    assert!(state.scheduler().tasks().iter().all(|t| t.node != 2));
    assert!(state.render(2, None, 8).is_empty());
    assert_eq!(state.flip_failed(9, 31, SwapBuffersError::AlreadySwapped, 7), Ok(()));
}

#[test]
fn pause_then_activate_renders_every_surface_once() {
    let mut state = state_with_two_devices();
    state.dispatch(0);
    state.frame_rendered(1, 31, Ok(true), 0).unwrap();
    let paused = state.on_session_event(SessionEvent::PauseSession, 10);
    assert_eq!(
        paused,
        vec![
            Action::SuspendInput,
            Action::PauseDevice { node: 1 },
            Action::PauseDevice { node: 2 },
        ]
    );
    assert!(state.is_input_suspended());
    assert_eq!(state.devices().len(), 2);
    for device in state.devices() {
        assert!(!device.is_active());
        assert_eq!(device.surfaces().len(), 2);
    }
    // While paused a render fails for the moment and schedules nothing.
    assert!(state.render(1, None, 11).is_empty());
    assert_eq!(state.scheduler().len(), 0);

    let woken = state.on_session_event(SessionEvent::ActivateSession, 20);
    assert_eq!(
        woken,
        vec![
            Action::ResumeInput,
            Action::ActivateDevice { node: 1 },
            Action::ResetSurface { node: 1, crtc: 31 },
            Action::ResetSurface { node: 1, crtc: 32 },
            Action::ActivateDevice { node: 2 },
            Action::ResetSurface { node: 2, crtc: 31 },
            Action::ResetSurface { node: 2, crtc: 32 },
            draw(1, 31, 0, AGE_UNKNOWN, false),
            draw(1, 32, 0, AGE_UNKNOWN, false),
            draw(2, 31, 0, AGE_UNKNOWN, false),
            draw(2, 32, 0, AGE_UNKNOWN, false),
        ]
    );
    let renders = woken.iter().filter(|a| matches!(a, Action::Draw { .. })).count();
    assert_eq!(renders, 4);
    assert!(!state.is_input_suspended());
    assert_eq!(state.devices().len(), 2);
    for device in state.devices() {
        assert!(device.is_active());
        assert_eq!(device.surfaces().len(), 2);
    }
}

#[test]
fn changed_device_keeps_surfaces_of_connectors_that_stay() {
    let mut state = registry();
    state.on_device_added(1, opened(128), Some(&two_outputs()), 0);
    state.dispatch(0);
    state.frame_rendered(1, 32, Ok(true), 0).unwrap();
    let mut res = two_outputs();
    res.connectors[0].connected = false;
    res.connectors.push(connector(30, true, 0b01));
    let changes = state.on_device_changed(1, Some(&res), 100).unwrap();
    assert!(changes.actions.is_empty());
    assert_eq!(changes.removed.len(), 1);
    assert_eq!(changes.removed[0].crtc(), 31);
    assert_eq!(changes.removed[0].output().name, "DP-10");
    assert_eq!(changes.added, vec![Binding { connector: 30, crtc: 31 }]);
    let device = state.device(1).unwrap();
    assert_eq!(device.surfaces().len(), 2);
    // The surface that stayed still has its flip pending.
    assert_eq!(device.surface(32).unwrap().in_flight_count(), 1);
    assert_eq!(device.surface(31).unwrap().connector(), 30);
    assert_eq!(
        state.scheduler().tasks(),
        &vec![Task { node: 1, crtc: 31, due: 100, kind: TaskKind::Initial }]
    );
}

#[test]
fn rescan_without_change_touches_nothing() {
    let mut state = registry();
    state.on_device_added(1, opened(128), Some(&two_outputs()), 0);
    state.dispatch(0);
    let changes = state.on_device_changed(1, Some(&two_outputs()), 5).unwrap();
    assert!(changes.removed.is_empty());
    assert!(changes.added.is_empty());
    assert_eq!(state.scheduler().len(), 0);
    assert_eq!(state.device(1).unwrap().surfaces().len(), 2);
}

#[test]
fn failed_enumeration_fails_the_scan_only() {
    let mut state = registry();
    state.on_device_added(1, opened(128), None, 0);
    assert_eq!(state.device(1).unwrap().surfaces().len(), 0);
    assert_eq!(state.on_device_changed(1, None, 0).err(), Some(ScanError::Enumeration));
    // The next change is scanned as usual.
    let changes = state.on_device_changed(1, Some(&two_outputs()), 0).unwrap();
    assert_eq!(changes.added.len(), 2);
    // An unknown device is no failure.
    assert!(state.on_device_changed(9, None, 0).is_ok());
}

#[test]
fn removed_device_is_torn_down() {
    let mut state = state_with_two_devices();
    state.frame_rendered(2, 31, Err(SwapBuffersError::TemporaryFailure(Cause::NoFreeSlot)), 0)
        .unwrap();
    let changes = state.on_device_removed(1);
    assert_eq!(
        changes.actions,
        vec![
            Action::RemoveRenderNode { node: 128 },
            Action::DisableAcceleration { node: 1 },
            Action::CloseDevice { node: 1 },
        ]
    );
    assert_eq!(changes.removed.len(), 2);
    assert!(changes.added.is_empty());
    assert!(state.device(1).is_none());
    assert_eq!(state.devices().len(), 1);
    // Only the other device's renders are still due.
    assert!(state.scheduler().tasks().iter().all(|t| t.node == 2));
    assert_eq!(state.scheduler().len(), 3);
    let changes = state.on_device_removed(2);
    assert_eq!(
        changes.actions,
        vec![Action::RemoveRenderNode { node: 129 }, Action::CloseDevice { node: 2 }]
    );
    assert_eq!(state.scheduler().len(), 0);
    assert!(state.on_device_removed(2).actions.is_empty());
}

#[test]
fn hot_plug_events_are_dispatched() {
    let mut state = registry();
    let added = state
        .on_udev_event(
            UdevEvent::Added { device_id: 1, opened: opened(128), resources: Some(two_outputs()) },
            0,
        )
        .unwrap();
    assert_eq!(added.added.len(), 2);
    let mut res = two_outputs();
    res.connectors[1].connected = false;
    let changed = state
        .on_udev_event(UdevEvent::Changed { device_id: 1, resources: Some(res) }, 0)
        .unwrap();
    assert_eq!(changed.removed.len(), 1);
    assert!(state.on_udev_event(UdevEvent::Changed { device_id: 1, resources: None }, 0).is_err());
    let removed = state.on_udev_event(UdevEvent::Removed { device_id: 1 }, 0).unwrap();
    assert_eq!(removed.removed.len(), 1);
    assert_eq!(state.devices().len(), 0);
}

#[test]
fn render_path_depends_on_the_primary_gpu() {
    let mut state = state_with_two_devices();
    assert_eq!(state.primary_gpu(), 128);
    assert_eq!(state.render_path(1, 7), Some(RenderPath::Direct { node: 128 }));
    assert_eq!(
        state.render_path(2, 7),
        Some(RenderPath::CrossGpu { render: 128, target: 129, format: 7 })
    );
    assert_eq!(state.render_path(3, 7), None);
    state.on_device_removed(1);
    assert_eq!(state.render_path(2, 7), None);
}

#[test]
fn device_error_changes_nothing() {
    let mut state = state_with_two_devices();
    let tasks = state.scheduler().len();
    assert!(state.on_drm_event(1, DrmEvent::Error, 0).is_empty());
    assert_eq!(state.scheduler().len(), tasks);
}

#[test]
fn surface_created_while_paused_is_paused() {
    let mut state = registry();
    state.on_device_added(1, opened(128), None, 0);
    state.on_session_event(SessionEvent::PauseSession, 0);
    state.on_device_changed(1, Some(&two_outputs()), 0).unwrap();
    assert!(!state.device(1).unwrap().surface(31).unwrap().is_active());
    assert!(state.dispatch(0).is_empty());
}

#[test]
fn primary_gpu_is_told_by_its_canonical_path() {
    let mut state = DrmState::new(128, Some(String::from("/dev/dri/card0")), 3);
    // The same render node under another path is not the primary GPU.
    let other = OpenedDevice { render_node: Some(128), canonical_path: Some(String::from("/dev/dri/card9")) };
    let changes = state.on_device_added(1, Ok(other), None, 0);
    assert_eq!(changes.actions, vec![Action::AddRenderNode { node: 128 }]);
    let unresolved = OpenedDevice { render_node: Some(130), canonical_path: None };
    let changes = state.on_device_added(2, Ok(unresolved), None, 0);
    assert_eq!(changes.actions, vec![Action::AddRenderNode { node: 130 }]);
    let primary = OpenedDevice { render_node: Some(131), canonical_path: Some(String::from("/dev/dri/card0")) };
    let changes = state.on_device_added(3, Ok(primary), None, 0);
    assert_eq!(
        changes.actions,
        vec![Action::AddRenderNode { node: 131 }, Action::EnableAcceleration { node: 3 }]
    );
    // Where no primary GPU is known, a device without a resolved path counts as it.
    let mut state = DrmState::new(128, None, 3);
    let unresolved = OpenedDevice { render_node: Some(130), canonical_path: None };
    let changes = state.on_device_added(2, Ok(unresolved), None, 0);
    assert_eq!(
        changes.actions,
        vec![Action::AddRenderNode { node: 130 }, Action::EnableAcceleration { node: 2 }]
    );
}
