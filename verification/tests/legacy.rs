use display_backend::connector::{ConnectorInfo, EncoderInfo, Subpixel};
use display_backend::legacy::{
    check_connector, cursor_moved, cursor_set, holds, is_subset, page_flip_failed, unique,
    AccessKind, ConnectorProbe, ControlCall, CursorCall, Error, LegacyDrmSurface, State, NOT_PROBED,
};
use display_backend::mode::Mode;
use display_backend::surface::{Cause, SwapBuffersError};

const FULL_HD: Mode = Mode { width: 1920, height: 1080, vrefresh: 60, mode_type: 0 };
const UHD: Mode = Mode { width: 3840, height: 2160, vrefresh: 30, mode_type: 8 };

fn info(handle: u32, modes: Vec<Mode>, masks: &[u32]) -> ConnectorInfo {
    ConnectorInfo {
        handle,
        interface: 11,
        interface_id: 1,
        connected: true,
        size: None,
        subpixel: Subpixel::Unknown,
        modes,
        encoders: masks.iter().map(|m| EncoderInfo { handle: 1, possible_crtcs: *m }).collect(),
        edid: None,
    }
}

fn probe(handle: u32, modes: Vec<Mode>, masks: &[u32]) -> ConnectorProbe {
    ConnectorProbe {
        handle,
        connector: Ok(info(handle, modes, masks)),
        encoder_failure: None,
        crtcs: Ok(vec![51, 52]),
    }
}

/// A surface that runs the mode on the connectors already.
fn running(crtc: u32, mode: Mode, connectors: Vec<u32>) -> LegacyDrmSurface {
    let state = State { mode: Some(mode), connectors };
    LegacyDrmSurface::new(crtc, &state, &state)
}

fn count_mode_sets(calls: &[ControlCall]) -> usize {
    calls.iter().filter(|c| matches!(c, ControlCall::ModeSet { .. })).count()
}

#[test]
fn fresh_surface_has_nothing_pending() {
    let surface = running(51, FULL_HD, vec![7, 7, 8]);
    assert_eq!(surface.crtc(), 51);
    assert_eq!(surface.current_connectors(), vec![7, 8]);
    assert_eq!(surface.pending_connectors(), vec![7, 8]);
    assert_eq!(surface.current_mode(), Some(FULL_HD));
    assert_eq!(surface.pending_mode(), Some(FULL_HD));
    assert!(!surface.commit_pending());
    assert_eq!(surface.commit(3).calls, vec![ControlCall::PageFlip { framebuffer: 3 }]);
    assert_eq!(surface.page_flip(4), ControlCall::PageFlip { framebuffer: 4 });
}

#[test]
fn repeated_commits_set_the_mode_once() {
    let mut surface = running(51, FULL_HD, vec![7]);
    surface.use_mode(Some(UHD), &vec![probe(7, vec![FULL_HD, UHD], &[0b01])]).unwrap();
    assert!(surface.commit_pending());
    let mut mode_sets = 0;
    for frame in 0..5 {
        let plan = surface.commit(frame);
        assert_eq!(plan.mode, Some(UHD));
        assert_eq!(plan.connectors, vec![7]);
        let calls = plan.calls;
        mode_sets += count_mode_sets(&calls);
        assert_eq!(surface.commit_done(frame, calls.len(), 0), Ok(()));
        assert!(!surface.commit_pending());
    }
    assert_eq!(mode_sets, 1);
    assert_eq!(surface.current_mode(), Some(UHD));
}

#[test]
fn removed_connector_releases_the_pipeline_first() {
    let mut surface = running(51, FULL_HD, vec![7, 8]);
    surface.remove_connector(7);
    assert_eq!(surface.pending_connectors(), vec![8]);
    assert_eq!(surface.current_connectors(), vec![7, 8]);
    assert!(surface.commit_pending());
    let plan = surface.commit(9);
    assert_eq!(plan.connectors, vec![8]);
    assert_eq!(plan.mode, Some(FULL_HD));
    assert_eq!(
        plan.calls,
        vec![
            ControlCall::ReleasePipeline,
            ControlCall::ModeSet { framebuffer: 9 },
            ControlCall::PageFlip { framebuffer: 9 },
        ]
    );
    assert_eq!(surface.commit_done(9, 3, 0), Ok(()));
    assert_eq!(surface.current_connectors(), vec![8]);
    assert_eq!(surface.commit(10).calls, vec![ControlCall::PageFlip { framebuffer: 10 }]);
}

#[test]
fn added_connector_sets_the_mode_without_release() {
    let mut surface = running(51, FULL_HD, vec![7]);
    surface.add_connector(&probe(8, vec![FULL_HD], &[0b01])).unwrap();
    assert_eq!(surface.pending_connectors(), vec![7, 8]);
    assert_eq!(
        surface.commit(2).calls,
        vec![ControlCall::ModeSet { framebuffer: 2 }, ControlCall::PageFlip { framebuffer: 2 }]
    );
    assert_eq!(surface.commit(2).connectors, vec![7, 8]);
}

#[test]
fn failed_calls_are_reported_and_keep_the_state() {
    let mut surface = running(51, FULL_HD, vec![7, 8]);
    surface.remove_connector(7);
    // The release fails.
    assert_eq!(
        surface.commit_done(1, 0, 13),
        Err(Error::Access { errmsg: AccessKind::SetCrtc, source: 13 })
    );
    assert!(surface.commit_pending());
    // The mode-set fails.
    assert_eq!(
        surface.commit_done(1, 1, 22),
        Err(Error::Access { errmsg: AccessKind::SetCrtc, source: 22 })
    );
    assert!(surface.commit_pending());
    assert_eq!(surface.current_connectors(), vec![7, 8]);
    // The flip fails after the mode was set.
    assert_eq!(
        surface.commit_done(1, 2, 16),
        Err(Error::Access { errmsg: AccessKind::PageFlip, source: 16 })
    );
    assert!(!surface.commit_pending());
    assert_eq!(surface.current_connectors(), vec![8]);
}

#[test]
fn failed_flip_of_a_plain_commit_is_reported() {
    let mut surface = running(51, FULL_HD, vec![7]);
    assert_eq!(
        surface.commit_done(1, 0, 16),
        Err(Error::Access { errmsg: AccessKind::PageFlip, source: 16 })
    );
    assert_eq!(surface.commit_done(1, 1, 0), Ok(()));
    assert_eq!(page_flip_failed(16), SwapBuffersError::ContextLost(Cause::Other { code: 16 }));
}

#[test]
fn same_connectors_in_another_order_are_no_difference() {
    let mut surface = running(51, FULL_HD, vec![7, 8]);
    surface
        .set_connectors(&vec![probe(8, vec![FULL_HD], &[0b01]), probe(7, vec![FULL_HD], &[0b01])])
        .unwrap();
    assert_eq!(surface.pending_connectors(), vec![8, 7]);
    assert!(!surface.commit_pending());
}

#[test]
fn connector_check_follows_the_probes() {
    let fit = probe(7, vec![FULL_HD], &[0b01, 0b11]);
    assert_eq!(check_connector(&fit, 51, FULL_HD), Ok(true));
    // One encoder cannot drive the second CRTC.
    assert_eq!(check_connector(&fit, 52, FULL_HD), Ok(false));
    assert_eq!(check_connector(&fit, 51, UHD), Ok(false));
    // A connector without encoders has none that fails.
    assert_eq!(check_connector(&probe(7, vec![FULL_HD], &[]), 51, FULL_HD), Ok(true));
    let mut broken = probe(7, vec![FULL_HD], &[0b01]);
    broken.encoder_failure = Some(5);
    assert_eq!(
        check_connector(&broken, 51, FULL_HD),
        Err(Error::Access { errmsg: AccessKind::EncoderInfo, source: 5 })
    );
    // The mode is looked at before the encoders.
    assert_eq!(check_connector(&broken, 51, UHD), Ok(false));
    broken.encoder_failure = None;
    broken.crtcs = Err(6);
    assert_eq!(
        check_connector(&broken, 51, FULL_HD),
        Err(Error::Access { errmsg: AccessKind::Resources, source: 6 })
    );
    broken.connector = Err(2);
    assert_eq!(
        check_connector(&broken, 51, FULL_HD),
        Err(Error::Access { errmsg: AccessKind::ConnectorInfo, source: 2 })
    );
}

#[test]
fn unfit_connector_is_left_out_silently() {
    let mut surface = running(51, FULL_HD, vec![7]);
    assert_eq!(surface.add_connector(&probe(8, vec![UHD], &[0b01])), Ok(()));
    assert_eq!(surface.pending_connectors(), vec![7]);
    assert_eq!(surface.add_connector(&probe(7, vec![FULL_HD], &[0b01])), Ok(()));
    assert_eq!(surface.pending_connectors(), vec![7]);
    let mut broken = probe(9, vec![FULL_HD], &[0b01]);
    broken.connector = Err(19);
    assert_eq!(
        surface.add_connector(&broken),
        Err(Error::Access { errmsg: AccessKind::ConnectorInfo, source: 19 })
    );
    assert_eq!(surface.pending_connectors(), vec![7]);
}

#[test]
fn set_connectors_needs_every_connector_fit() {
    let mut surface = running(51, FULL_HD, vec![7]);
    let probes = vec![probe(8, vec![FULL_HD], &[0b01]), probe(9, vec![UHD], &[0b01])];
    assert_eq!(surface.set_connectors(&probes), Ok(()));
    assert_eq!(surface.pending_connectors(), vec![7]);
    let probes = vec![probe(8, vec![FULL_HD], &[0b01]), probe(9, vec![FULL_HD], &[0b01])];
    assert_eq!(surface.set_connectors(&probes), Ok(()));
    assert_eq!(surface.pending_connectors(), vec![8, 9]);
    let mut broken = probe(10, vec![FULL_HD], &[0b01]);
    broken.crtcs = Err(4);
    let probes = vec![probe(8, vec![UHD], &[0b01]), broken];
    assert_eq!(
        surface.set_connectors(&probes),
        Err(Error::Access { errmsg: AccessKind::Resources, source: 4 })
    );
    assert_eq!(surface.pending_connectors(), vec![8, 9]);
    assert_eq!(surface.set_connectors(&vec![]), Ok(()));
    assert_eq!(surface.pending_connectors(), Vec::<u32>::new());
}

#[test]
fn mode_must_suit_every_pending_connector() {
    let mut surface = running(51, FULL_HD, vec![7, 8]);
    let probes = vec![probe(7, vec![FULL_HD, UHD], &[1]), probe(8, vec![FULL_HD], &[1])];
    assert_eq!(surface.use_mode(Some(UHD), &probes), Err(Error::ModeNotSuitable(UHD)));
    assert_eq!(surface.pending_mode(), Some(FULL_HD));
    // A connector that was not probed could not be loaded.
    assert_eq!(
        surface.use_mode(Some(UHD), &vec![probe(7, vec![UHD], &[1])]),
        Err(Error::Access { errmsg: AccessKind::ConnectorInfo, source: NOT_PROBED })
    );
    let mut probes = vec![probe(7, vec![UHD], &[1]), probe(8, vec![UHD], &[1])];
    assert_eq!(surface.use_mode(Some(UHD), &probes), Ok(()));
    assert_eq!(surface.pending_mode(), Some(UHD));
    assert!(surface.commit_pending());
    probes[0].connector = Err(71);
    assert_eq!(
        surface.use_mode(Some(FULL_HD), &probes),
        Err(Error::Access { errmsg: AccessKind::ConnectorInfo, source: 71 })
    );
    assert_eq!(surface.use_mode(None, &vec![]), Ok(()));
    assert_eq!(surface.pending_mode(), None);
}

#[test]
fn without_a_pending_mode_no_connector_joins() {
    let mut surface = running(51, FULL_HD, vec![7]);
    surface.use_mode(None, &vec![]).unwrap();
    assert_eq!(surface.add_connector(&probe(8, vec![FULL_HD], &[1])), Ok(()));
    assert_eq!(surface.set_connectors(&vec![probe(8, vec![FULL_HD], &[1])]), Ok(()));
    assert_eq!(surface.pending_connectors(), vec![7]);
}

#[test]
fn list_helpers_compare_as_sets() {
    assert!(holds(&vec![1, 2, 3], 2));
    assert!(!holds(&vec![1, 2, 3], 4));
    assert!(is_subset(&vec![], &vec![]));
    assert!(is_subset(&vec![3, 1], &vec![1, 2, 3]));
    assert!(!is_subset(&vec![3, 4], &vec![1, 2, 3]));
}

#[test]
fn new_surface_is_committed_with_a_mode_set() {
    let current = State { mode: None, connectors: vec![] };
    let pending = State { mode: Some(FULL_HD), connectors: vec![7, 7] };
    let mut surface = LegacyDrmSurface::new(51, &current, &pending);
    assert_eq!(surface.current_mode(), None);
    assert_eq!(surface.pending_connectors(), vec![7]);
    assert!(surface.commit_pending());
    let plan = surface.commit(1);
    assert_eq!(
        plan.calls,
        vec![ControlCall::ModeSet { framebuffer: 1 }, ControlCall::PageFlip { framebuffer: 1 }]
    );
    assert_eq!(surface.commit_done(1, 2, 0), Ok(()));
    assert!(!surface.commit_pending());
    surface.invalidate();
    assert!(surface.commit_pending());
    assert_eq!(surface.current_connectors(), Vec::<u32>::new());
    assert_eq!(surface.pending_mode(), Some(FULL_HD));
    assert_eq!(unique(&vec![3, 1, 3, 2, 1]), vec![3, 1, 2]);
}

#[test]
fn cursor_image_falls_back_to_the_call_without_hot_spot() {
    let surface = running(51, FULL_HD, vec![7]);
    assert_eq!(surface.set_cursor_position(10, 20), CursorCall::Move { x: 10, y: 20 });
    assert_eq!(
        surface.set_cursor_position(u32::MAX, 0),
        CursorCall::Move { x: i32::MAX, y: 0 }
    );
    assert_eq!(
        surface.set_cursor_representation((3, 4)),
        vec![CursorCall::SetWithHotspot { x: 3, y: 4 }, CursorCall::SetPlain]
    );
    assert_eq!(cursor_moved(None), Ok(()));
    assert_eq!(
        cursor_moved(Some(22)),
        Err(Error::Access { errmsg: AccessKind::MoveCursor, source: 22 })
    );
    assert_eq!(cursor_set(None, None), Ok(()));
    assert_eq!(cursor_set(Some(22), None), Ok(()));
    assert_eq!(cursor_set(None, Some(5)), Ok(()));
    assert_eq!(
        cursor_set(Some(22), Some(5)),
        Err(Error::Access { errmsg: AccessKind::SetCursor, source: 5 })
    );
}
