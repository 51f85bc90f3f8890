use display_backend::connector::{connector_name, output_name, ConnectorInfo, EdidInfo, EncoderInfo, Subpixel};
use display_backend::frame::Redraw;
use display_backend::mode::{Mode, OutputMode, MODE_TYPE_PREFERRED};
use display_backend::output::{physical_size, Output, PhysicalProperties, Rectangle, Transform};
use display_backend::surface::{Cause, Frame, OutputSurface, SwapBuffersError, AGE_UNKNOWN};

fn hdmi(handle: u32, interface_id: u32) -> ConnectorInfo {
    ConnectorInfo {
        handle,
        interface: 11,
        interface_id,
        connected: true,
        size: Some((600, 340)),
        subpixel: Subpixel::HorizontalRgb,
        modes: vec![
            Mode { width: 1920, height: 1080, vrefresh: 60, mode_type: 64 },
            Mode { width: 3840, height: 2160, vrefresh: 30, mode_type: 64 | MODE_TYPE_PREFERRED },
        ],
        encoders: vec![EncoderInfo { handle: 1, possible_crtcs: 1 }],
        edid: None,
    }
}

fn surface(buffers: usize) -> OutputSurface {
    OutputSurface::new(42, &hdmi(7, 1), buffers).unwrap()
}

#[test]
fn second_acquire_before_confirmation_returns_no_buffer() {
    let mut s = surface(3);
    let first = s.acquire_buffer().unwrap();
    assert_eq!(first, Frame { buffer: 0, age: AGE_UNKNOWN });
    assert_eq!(s.queue_buffer(), Some(0));
    assert_eq!(s.in_flight_count(), 1);
    assert_eq!(s.acquire_buffer(), Err(SwapBuffersError::AlreadySwapped));
    assert_eq!(s.acquire_buffer(), Err(SwapBuffersError::AlreadySwapped));
    assert!(s.frame_submitted());
    assert_eq!(s.in_flight_count(), 0);
    let next = s.acquire_buffer().unwrap();
    assert_eq!(next, Frame { buffer: 1, age: AGE_UNKNOWN });
}

#[test]
fn buffers_rotate_and_age() {
    let mut s = surface(2);
    assert_eq!(s.acquire_buffer().unwrap().buffer, 0);
    s.queue_buffer();
    s.frame_submitted();
    assert_eq!(s.acquire_buffer().unwrap(), Frame { buffer: 1, age: AGE_UNKNOWN });
    s.queue_buffer();
    s.frame_submitted();
    // Buffer 0 was queued two frames ago.
    assert_eq!(s.acquire_buffer().unwrap(), Frame { buffer: 0, age: 2 });
    s.queue_buffer();
    s.frame_submitted();
    assert_eq!(s.acquire_buffer().unwrap(), Frame { buffer: 1, age: 2 });
}

#[test]
fn acquired_buffer_is_handed_out_again_until_queued() {
    let mut s = surface(3);
    let a = s.acquire_buffer().unwrap();
    let b = s.acquire_buffer().unwrap();
    assert_eq!(a, b);
    assert_eq!(s.in_flight_count(), 0);
}

#[test]
fn queue_without_acquire_queues_nothing() {
    let mut s = surface(3);
    assert_eq!(s.queue_buffer(), None);
    assert_eq!(s.in_flight_count(), 0);
    assert!(!s.frame_submitted());
}

#[test]
fn single_buffer_ring_runs_out_of_slots() {
    let mut s = surface(1);
    assert_eq!(s.acquire_buffer().unwrap().buffer, 0);
    s.queue_buffer();
    s.frame_submitted();
    assert_eq!(
        s.acquire_buffer(),
        Err(SwapBuffersError::TemporaryFailure(Cause::NoFreeSlot))
    );
}

#[test]
fn ring_holds_at_least_one_buffer() {
    assert_eq!(surface(0).buffers(), 1);
    assert_eq!(surface(4).buffers(), 4);
}

#[test]
fn paused_surface_hands_out_nothing() {
    let mut s = surface(3);
    s.pause();
    assert!(!s.is_active());
    assert_eq!(
        s.acquire_buffer(),
        Err(SwapBuffersError::TemporaryFailure(Cause::DeviceInactive))
    );
    s.activate();
    assert!(s.acquire_buffer().is_ok());
}

#[test]
fn reset_makes_every_age_unknown() {
    let mut s = surface(2);
    s.acquire_buffer().unwrap();
    s.queue_buffer();
    s.frame_submitted();
    s.acquire_buffer().unwrap();
    s.queue_buffer();
    s.reset_buffers();
    assert_eq!(s.in_flight_count(), 0);
    assert_eq!(s.acquire_buffer().unwrap(), Frame { buffer: 0, age: AGE_UNKNOWN });
    s.queue_buffer();
    s.frame_submitted();
    assert_eq!(s.acquire_buffer().unwrap(), Frame { buffer: 1, age: AGE_UNKNOWN });
}

#[test]
fn refused_flip_frees_the_buffer() {
    let mut s = surface(2);
    s.acquire_buffer().unwrap();
    assert_eq!(s.queue_buffer(), Some(0));
    s.flip_failed();
    assert_eq!(s.in_flight_count(), 0);
    assert_eq!(s.acquire_buffer().unwrap(), Frame { buffer: 0, age: AGE_UNKNOWN });
}

#[test]
fn new_surface_picks_preferred_mode_and_names_its_output() {
    let s = surface(3);
    assert_eq!(s.crtc(), 42);
    assert_eq!(s.connector(), 7);
    assert_eq!((s.mode().width, s.mode().height, s.mode().vrefresh), (3840, 2160, 30));
    let output = s.output();
    assert_eq!(output.name, "HDMI-A-1");
    assert_eq!(output.physical.size, (600, 340));
    assert_eq!(output.physical.subpixel, Subpixel::HorizontalRgb);
    assert_eq!(output.physical.make, "Unknown");
    assert_eq!(output.physical.model, "Unknown");
    let shown = OutputMode { width: 3840, height: 2160, refresh: 30_000 };
    assert_eq!(output.preferred_mode, Some(shown));
    assert_eq!(output.current_mode, Some(shown));
    assert_eq!(output.transform, Transform::Normal);
    assert_eq!(output.scale, 1);
    assert_eq!(
        output.geometry(),
        Some(Rectangle { x: 0, y: 0, width: 3840, height: 2160 })
    );
}

#[test]
fn new_surface_takes_names_from_the_display() {
    let mut connector = hdmi(7, 2);
    connector.edid =
        Some(EdidInfo { manufacturer: String::from("ACME"), model: String::from("View 27") });
    connector.size = None;
    let s = OutputSurface::new(1, &connector, 2).unwrap();
    assert_eq!(s.output().physical.make, "ACME");
    assert_eq!(s.output().physical.model, "View 27");
    assert_eq!(s.output().physical.size, (0, 0));
    assert_eq!(s.output().name, "HDMI-A-2");
}

#[test]
fn connector_without_modes_gets_no_surface() {
    let mut connector = hdmi(7, 1);
    connector.modes.clear();
    assert!(OutputSurface::new(1, &connector, 2).is_none());
}

#[test]
fn interface_names_come_from_the_table() {
    let mut connector = hdmi(1, 3);
    connector.interface = 14;
    assert_eq!(connector_name(&connector), "eDP-3");
    connector.interface = 10;
    assert_eq!(connector_name(&connector), "DP-3");
    connector.interface = 1;
    assert_eq!(connector_name(&connector), "VGA-3");
    connector.interface = 0;
    assert_eq!(connector_name(&connector), "Unknown-3");
    connector.interface = 9999;
    assert_eq!(connector_name(&connector), "Unknown-3");
}

#[test]
fn output_names_carry_decimal_ids() {
    assert_eq!(output_name("HDMI-A", 0), "HDMI-A-0");
    assert_eq!(output_name("DP", 10), "DP-10");
    assert_eq!(output_name("X", 4294967295), "X-4294967295");
    assert_eq!(output_name("", 907), "-907");
}

#[test]
fn physical_size_is_capped() {
    assert_eq!(physical_size(None), (0, 0));
    assert_eq!(physical_size(Some((520, 290))), (520, 290));
    assert_eq!(physical_size(Some((u32::MAX, 1))), (i32::MAX, 1));
}

#[test]
fn output_state_changes_part_by_part() {
    let physical = PhysicalProperties {
        size: (1, 2),
        subpixel: Subpixel::Unknown,
        make: String::from("m"),
        model: String::from("n"),
    };
    let mut output = Output::new(String::from("out"), physical);
    assert_eq!(output.geometry(), None);
    let mode = OutputMode { width: 800, height: 600, refresh: 60_000 };
    output.set_preferred(mode);
    assert_eq!(output.preferred_mode, Some(mode));
    assert_eq!(output.current_mode, None);
    output.change_current_state(Some(mode), None, None, Some((100, -50)));
    assert_eq!(output.transform, Transform::Normal);
    assert_eq!(output.scale, 1);
    assert_eq!(
        output.geometry(),
        Some(Rectangle { x: 100, y: -50, width: 800, height: 600 })
    );
    output.change_current_state(None, Some(Transform::Flipped180), Some(2), None);
    assert_eq!(output.current_mode, Some(mode));
    assert_eq!(output.transform, Transform::Flipped180);
    assert_eq!(output.scale, 2);
    assert_eq!(output.location, (100, -50));
}

#[test]
fn rectangle_holds_its_inside_only() {
    let r = Rectangle { x: 10, y: 20, width: 5, height: 5 };
    assert!(r.contains(10, 20));
    assert!(r.contains(14, 24));
    assert!(!r.contains(15, 24));
    assert!(!r.contains(14, 25));
    assert!(!r.contains(9, 20));
    let edge = Rectangle { x: i32::MAX - 1, y: 0, width: i32::MAX, height: 1 };
    assert!(edge.contains(i32::MAX, 0));
    assert!(!Rectangle { x: 0, y: 0, width: 0, height: 0 }.contains(0, 0));
}

#[test]
fn unknown_age_redraws_everything() {
    let mut s = surface(3);
    let a = Rectangle { x: 0, y: 0, width: 10, height: 10 };
    let b = Rectangle { x: 5, y: 5, width: 1, height: 1 };
    s.record_damage(vec![a]);
    s.record_damage(vec![b]);
    assert!(matches!(s.redraw(AGE_UNKNOWN), Redraw::Full));
    match s.redraw(1) {
        Redraw::Partial(regions) => assert_eq!(regions, vec![b]),
        Redraw::Full => panic!("age one is covered by the newest entry"),
    }
    match s.redraw(2) {
        Redraw::Partial(regions) => assert_eq!(regions, vec![b, a]),
        Redraw::Full => panic!("age two is covered by two entries"),
    }
    assert!(matches!(s.redraw(3), Redraw::Full));
    s.reset_buffers();
    assert!(matches!(s.redraw(1), Redraw::Full));
}
