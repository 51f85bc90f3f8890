use display_backend::frame::{
    plan_pointer, CursorDraw, CursorImageStatus, DamageTracker, DragIcon, PointerPlan, Redraw,
    DAMAGE_HISTORY,
};
use display_backend::output::Rectangle;

fn rect(n: i32) -> Rectangle {
    Rectangle { x: n, y: n, width: 1, height: 1 }
}

#[test]
fn damage_history_is_bounded() {
    let mut tracker = DamageTracker::new();
    for n in 0..6 {
        tracker.record(vec![rect(n)]);
    }
    assert_eq!(tracker.len(), DAMAGE_HISTORY);
    match tracker.redraw(4) {
        Redraw::Partial(regions) => assert_eq!(regions, vec![rect(5), rect(4), rect(3), rect(2)]),
        Redraw::Full => panic!("four frames are remembered"),
    }
    assert!(matches!(tracker.redraw(5), Redraw::Full));
    tracker.reset();
    assert_eq!(tracker.len(), 0);
    assert!(matches!(tracker.redraw(1), Redraw::Full));
}

#[test]
fn damage_of_one_frame_may_be_empty() {
    let mut tracker = DamageTracker::new();
    tracker.record(vec![]);
    match tracker.redraw(1) {
        Redraw::Partial(regions) => assert!(regions.is_empty()),
        Redraw::Full => panic!("one frame is remembered"),
    }
}

#[test]
fn pointer_is_drawn_relative_to_its_output() {
    let geometry = Rectangle { x: 1920, y: 0, width: 1280, height: 1024 };
    let mut status = CursorImageStatus::Default;
    let plan = plan_pointer((2000, 10), &geometry, None, &mut status, true);
    assert_eq!(
        plan,
        Some(PointerPlan { x: 80, y: 10, drag_icon: None, cursor: CursorDraw::Texture })
    );
    assert_eq!(status, CursorImageStatus::Default);
}

#[test]
fn pointer_outside_the_output_is_not_drawn() {
    let geometry = Rectangle { x: 1920, y: 0, width: 1280, height: 1024 };
    let mut status = CursorImageStatus::Image { surface: 9 };
    assert_eq!(plan_pointer((100, 10), &geometry, None, &mut status, false), None);
    assert_eq!(plan_pointer((3200, 10), &geometry, None, &mut status, false), None);
    assert_eq!(plan_pointer((2000, 1024), &geometry, None, &mut status, false), None);
    // Outside the output a dead cursor surface is not noticed.
    assert_eq!(status, CursorImageStatus::Image { surface: 9 });
}

#[test]
fn dead_cursor_surface_falls_back_to_the_default_pointer() {
    let geometry = Rectangle { x: 0, y: 0, width: 100, height: 100 };
    let mut status = CursorImageStatus::Image { surface: 9 };
    let plan = plan_pointer((5, 6), &geometry, None, &mut status, false).unwrap();
    assert_eq!(plan.cursor, CursorDraw::Texture);
    assert_eq!(status, CursorImageStatus::Default);
}

#[test]
fn live_cursor_surface_is_drawn() {
    let geometry = Rectangle { x: 0, y: 0, width: 100, height: 100 };
    let mut status = CursorImageStatus::Image { surface: 9 };
    let plan = plan_pointer((5, 6), &geometry, None, &mut status, true).unwrap();
    assert_eq!(plan.cursor, CursorDraw::Surface { surface: 9 });
    assert_eq!(status, CursorImageStatus::Image { surface: 9 });
}

#[test]
fn hidden_cursor_draws_the_default_pointer() {
    let geometry = Rectangle { x: 0, y: 0, width: 100, height: 100 };
    let mut status = CursorImageStatus::Hidden;
    let plan = plan_pointer((0, 0), &geometry, None, &mut status, true).unwrap();
    assert_eq!(plan.cursor, CursorDraw::Texture);
    assert_eq!(status, CursorImageStatus::Hidden);
}

#[test]
fn drag_icon_is_drawn_only_while_alive() {
    let geometry = Rectangle { x: -10, y: -10, width: 100, height: 100 };
    let mut status = CursorImageStatus::Default;
    let alive = Some(DragIcon { surface: 3, alive: true });
    let dead = Some(DragIcon { surface: 3, alive: false });
    let plan = plan_pointer((-10, 89), &geometry, alive, &mut status, true).unwrap();
    assert_eq!((plan.x, plan.y, plan.drag_icon), (0, 99, Some(3)));
    let plan = plan_pointer((0, 0), &geometry, dead, &mut status, true).unwrap();
    assert_eq!((plan.x, plan.y, plan.drag_icon), (10, 10, None));
}
