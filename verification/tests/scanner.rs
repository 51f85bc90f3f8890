use display_backend::connector::{ConnectorInfo, EncoderInfo, Resources, Subpixel};
use display_backend::mode::{select_mode, Mode, MODE_TYPE_PREFERRED};
use display_backend::scanner::{filter_crtcs, pick_crtc, scan_connectors, Binding, DrmScanner};

fn mode(width: u16, height: u16, vrefresh: u32, preferred: bool) -> Mode {
    Mode { width, height, vrefresh, mode_type: if preferred { MODE_TYPE_PREFERRED | 64 } else { 64 } }
}

fn connector(handle: u32, connected: bool, masks: &[u32]) -> ConnectorInfo {
    ConnectorInfo {
        handle,
        interface: 11,
        interface_id: handle,
        connected,
        size: Some((600, 340)),
        subpixel: Subpixel::Unknown,
        modes: vec![mode(1920, 1080, 60, false)],
        encoders: masks
            .iter()
            .enumerate()
            .map(|(i, mask)| EncoderInfo { handle: 100 + i as u32, possible_crtcs: *mask })
            .collect(),
        edid: None,
    }
}

#[test]
fn contention_resolves_in_enumeration_order() {
    // A reaches the first and second CRTC, B only the first.
    let res = Resources {
        crtcs: vec![1, 2],
        connectors: vec![connector(10, true, &[0b11]), connector(20, true, &[0b01])],
    };
    let bound = scan_connectors(&res);
    assert_eq!(bound, vec![Binding { connector: 10, crtc: 1 }]);
}

#[test]
fn later_connector_takes_the_next_free_crtc() {
    let res = Resources {
        crtcs: vec![1, 2],
        connectors: vec![connector(10, true, &[0b11]), connector(20, true, &[0b11])],
    };
    let bound = scan_connectors(&res);
    assert_eq!(
        bound,
        vec![Binding { connector: 10, crtc: 1 }, Binding { connector: 20, crtc: 2 }]
    );
}

#[test]
fn disconnected_connectors_get_no_crtc() {
    let res = Resources {
        crtcs: vec![1, 2],
        connectors: vec![connector(10, false, &[0b11]), connector(20, true, &[0b11])],
    };
    assert_eq!(scan_connectors(&res), vec![Binding { connector: 20, crtc: 1 }]);
}

#[test]
fn connector_without_modes_gets_no_crtc() {
    let mut bare = connector(10, true, &[0b11]);
    bare.modes.clear();
    let res = Resources { crtcs: vec![1, 2], connectors: vec![bare] };
    assert_eq!(scan_connectors(&res), vec![]);
}

#[test]
fn second_encoder_is_tried_when_the_first_has_no_free_crtc() {
    let res = Resources {
        crtcs: vec![1, 2, 3],
        connectors: vec![connector(10, true, &[0b001]), connector(20, true, &[0b001, 0b100])],
    };
    assert_eq!(
        scan_connectors(&res),
        vec![Binding { connector: 10, crtc: 1 }, Binding { connector: 20, crtc: 3 }]
    );
}

#[test]
fn mask_selects_crtcs_by_position() {
    assert_eq!(filter_crtcs(&vec![7, 8, 9], 0b101), vec![7, 9]);
    assert_eq!(filter_crtcs(&vec![7, 8, 9], 0), Vec::<u32>::new());
    assert_eq!(filter_crtcs(&vec![7, 8, 9], 0xffff_fff8), Vec::<u32>::new());
}

#[test]
fn crtcs_beyond_the_mask_are_never_eligible() {
    let crtcs: Vec<u32> = (1..=40).collect();
    let all = filter_crtcs(&crtcs, u32::MAX);
    assert_eq!(all, (1..=32).collect::<Vec<u32>>());
}

#[test]
fn pick_skips_claimed_crtcs() {
    let encoders = vec![EncoderInfo { handle: 1, possible_crtcs: 0b11 }];
    let bound = vec![Binding { connector: 5, crtc: 1 }];
    assert_eq!(pick_crtc(&vec![1, 2], &encoders, &bound), Some(2));
    let full = vec![Binding { connector: 5, crtc: 1 }, Binding { connector: 6, crtc: 2 }];
    assert_eq!(pick_crtc(&vec![1, 2], &encoders, &full), None);
}

#[test]
fn mapping_is_injective() {
    let res = Resources {
        crtcs: vec![1, 2, 3],
        connectors: vec![
            connector(10, true, &[0b111]),
            connector(20, true, &[0b111]),
            connector(30, true, &[0b111]),
            connector(40, true, &[0b111]),
        ],
    };
    let bound = scan_connectors(&res);
    assert_eq!(bound.len(), 3);
    for (i, a) in bound.iter().enumerate() {
        for b in bound.iter().skip(i + 1) {
            assert_ne!(a.crtc, b.crtc);
            assert_ne!(a.connector, b.connector);
        }
    }
}

#[test]
fn rescan_without_change_is_idempotent() {
    let res = Resources {
        crtcs: vec![1, 2],
        connectors: vec![
            connector(10, true, &[0b11]),
            connector(20, true, &[0b01]),
            connector(30, true, &[0b10]),
        ],
    };
    let mut scanner = DrmScanner::new();
    let first = scanner.scan_connectors(&res);
    assert_eq!(first.connected.len(), 2);
    assert!(first.disconnected.is_empty());
    let before = scanner.bound().clone();
    let second = scanner.scan_connectors(&res);
    assert!(second.connected.is_empty());
    assert!(second.disconnected.is_empty());
    assert_eq!(scanner.bound(), &before);
}

#[test]
fn unplugged_connector_frees_its_crtc_and_others_keep_theirs() {
    let mut res = Resources {
        crtcs: vec![1, 2],
        connectors: vec![
            connector(10, true, &[0b11]),
            connector(20, true, &[0b11]),
            connector(30, true, &[0b01]),
        ],
    };
    let mut scanner = DrmScanner::new();
    scanner.scan_connectors(&res);
    assert_eq!(scanner.crtc_for_connector(10), Some(1));
    assert_eq!(scanner.crtc_for_connector(20), Some(2));
    assert_eq!(scanner.crtc_for_connector(30), None);
    res.connectors[0].connected = false;
    let changes = scanner.scan_connectors(&res);
    assert_eq!(changes.disconnected, vec![Binding { connector: 10, crtc: 1 }]);
    assert_eq!(changes.connected, vec![Binding { connector: 30, crtc: 1 }]);
    assert_eq!(scanner.crtc_for_connector(20), Some(2));
}

#[test]
fn preferred_mode_wins_over_first_mode() {
    let modes = vec![mode(1920, 1080, 60, false), mode(3840, 2160, 30, true)];
    let chosen = select_mode(&modes).unwrap();
    assert_eq!((chosen.width, chosen.height, chosen.vrefresh), (3840, 2160, 30));
}

#[test]
fn first_mode_is_taken_when_none_is_preferred() {
    let modes = vec![mode(1920, 1080, 60, false), mode(3840, 2160, 30, false)];
    let chosen = select_mode(&modes).unwrap();
    assert_eq!((chosen.width, chosen.height, chosen.vrefresh), (1920, 1080, 60));
    assert_eq!(select_mode(&vec![]), None);
}

#[test]
fn first_of_several_preferred_modes_is_taken() {
    let modes =
        vec![mode(800, 600, 60, false), mode(1024, 768, 75, true), mode(3840, 2160, 30, true)];
    assert_eq!(select_mode(&modes).unwrap().width, 1024);
}

#[test]
fn output_mode_is_in_millihertz() {
    let shown = mode(1920, 1080, 60, false).to_output_mode();
    assert_eq!((shown.width, shown.height, shown.refresh), (1920, 1080, 60_000));
    let capped = mode(1, 1, u32::MAX, false).to_output_mode();
    assert_eq!(capped.refresh, i32::MAX);
    assert!(mode(1, 1, 1, true).preferred());
    assert!(!mode(1, 1, 1, false).preferred());
    assert_eq!(mode(640, 480, 1, false).size(), (640, 480));
}
