use display_backend::output::Rectangle;
use display_backend::popup::{
    find_root, move_by, DeadResource, DisplayState, PlacedPopup, PopupKind, PopupManager, PopupNode,
    PopupSurface, PopupTree, SurfaceInfo,
};

fn toplevel(surface: u32) -> SurfaceInfo {
    SurfaceInfo {
        surface,
        alive: true,
        popup: false,
        parent: None,
        x: 0,
        y: 0,
        geometry: None,
        bbox: Rectangle { x: 0, y: 0, width: 200, height: 100 },
    }
}

fn popup_info(surface: u32, parent: Option<u32>, x: i32, y: i32) -> SurfaceInfo {
    SurfaceInfo {
        surface,
        alive: true,
        popup: true,
        parent,
        x,
        y,
        geometry: Some(Rectangle { x: 1, y: 2, width: 30, height: 40 }),
        bbox: Rectangle { x: 0, y: 0, width: 32, height: 44 },
    }
}

fn popup(surface: u32) -> PopupKind {
    PopupKind::Xdg(PopupSurface { surface })
}

fn placed(surface: u32, x: i32, y: i32) -> PlacedPopup {
    PlacedPopup { popup: popup(surface), x, y }
}

/// Toplevel 1 with popups 10 and 11 below it, popup 20 below 10, popup 30
/// below 20; toplevel 2 with popup 12; popup 40 without a parent yet.
fn display() -> DisplayState {
    DisplayState {
        surfaces: vec![
            toplevel(1),
            toplevel(2),
            popup_info(10, Some(1), 5, 5),
            popup_info(11, Some(1), -3, 7),
            popup_info(12, Some(2), 100, 100),
            popup_info(20, Some(10), 10, 0),
            popup_info(30, Some(20), 1, 1),
            popup_info(40, None, 9, 9),
        ],
    }
}

fn manager(cx: &DisplayState) -> PopupManager {
    let mut manager = PopupManager::new();
    for surface in [10, 20, 11, 12, 30, 40] {
        manager.track_popup(cx, popup(surface)).unwrap();
    }
    manager
}

#[test]
fn popup_answers_from_what_is_known_of_its_surface() {
    let mut cx = display();
    let p = popup(10);
    assert_eq!(p.surface_id(), 10);
    assert!(p.alive(&cx));
    assert_eq!(p.get_surface(&cx), Some(10));
    assert_eq!(p.parent(&cx), Some(1));
    assert_eq!(p.location(&cx), (5, 5));
    assert_eq!(p.geometry(&cx), Rectangle { x: 1, y: 2, width: 30, height: 40 });
    cx.surfaces[2].alive = false;
    assert!(!p.alive(&cx));
    assert_eq!(p.get_surface(&cx), None);
    assert_eq!(p.parent(&cx), None);
    assert_eq!(p.location(&cx), (0, 0));
    assert_eq!(p.geometry(&cx), Rectangle { x: 0, y: 0, width: 0, height: 0 });
    assert!(!popup(99).alive(&cx));
    assert_eq!(popup(40).geometry(&display()), Rectangle { x: 1, y: 2, width: 30, height: 40 });
    assert_eq!(PopupKind::Xdg(PopupSurface { surface: 1 }).geometry(&cx), Rectangle { x: 0, y: 0, width: 0, height: 0 });
}

#[test]
fn first_entry_of_a_surface_counts() {
    let cx = DisplayState { surfaces: vec![popup_info(10, Some(1), 5, 5), popup_info(10, Some(2), 6, 6)] };
    assert_eq!(cx.info(10).unwrap().parent, Some(1));
    assert_eq!(cx.living(10).unwrap().x, 5);
    assert!(cx.info(11).is_none());
}

#[test]
fn new_popup_structures_are_empty() {
    let node = PopupNode::new(popup(4));
    assert_eq!(node.surface(), popup(4));
    assert!(node.children().is_empty());
    let tree = PopupTree::new(1);
    assert_eq!(tree.root(), 1);
    assert!(!tree.alive());
    let manager = PopupManager::new();
    assert!(manager.unmapped().is_empty());
    assert!(manager.trees().is_empty());
}

#[test]
fn popups_hang_below_their_parents() {
    let cx = display();
    let manager = manager(&cx);
    assert_eq!(manager.unmapped(), &vec![popup(40)]);
    assert_eq!(manager.trees().len(), 2);
    assert_eq!(manager.trees()[0].root(), 1);
    assert_eq!(manager.trees()[1].root(), 2);
    assert!(manager.trees()[0].alive());
    assert_eq!(
        manager.popups_for_surface(&cx, 1),
        Ok(vec![placed(10, 5, 5), placed(20, 15, 5), placed(30, 16, 6), placed(11, -3, 7)])
    );
    assert_eq!(manager.popups_for_surface(&cx, 2), Ok(vec![placed(12, 100, 100)]));
    assert_eq!(manager.popups_for_surface(&cx, 10), Ok(vec![]));
    assert_eq!(manager.popups_for_surface(&cx, 77), Err(DeadResource));
}

#[test]
fn node_insert_reports_whether_it_holds_the_parent() {
    let cx = display();
    let mut node = PopupNode::new(popup(10));
    assert!(!node.insert(&cx, popup(30), 20));
    assert!(node.children().is_empty());
    assert!(node.insert(&cx, popup(20), 10));
    assert!(node.insert(&cx, popup(30), 20));
    assert_eq!(node.children().len(), 1);
    assert_eq!(node.children()[0].surface(), popup(20));
    assert_eq!(node.children()[0].children()[0].surface(), popup(30));
    let mut out = vec![placed(1, 0, 0)];
    node.iter_popups_relative_to(&cx, 100, 200, &mut out);
    assert_eq!(
        out,
        vec![placed(1, 0, 0), placed(10, 105, 205), placed(20, 115, 205), placed(30, 116, 206)]
    );
}

#[test]
fn popup_of_an_unknown_parent_hangs_below_the_toplevel() {
    let cx = display();
    let mut tree = PopupTree::new(1);
    tree.insert(&cx, popup(30), 20);
    assert_eq!(tree.iter_popups(&cx), vec![placed(30, 1, 1)]);
}

#[test]
fn toplevel_is_found_along_the_chain_of_parents() {
    let mut cx = display();
    assert_eq!(find_root(&cx, 30), Some(1));
    assert_eq!(find_root(&cx, 12), Some(2));
    assert_eq!(find_root(&cx, 1), Some(1));
    assert_eq!(find_root(&cx, 40), None);
    assert_eq!(find_root(&cx, 99), None);
    cx.surfaces[0].alive = false;
    assert_eq!(find_root(&cx, 30), None);
    // A chain that runs in a circle has no end.
    let circle = DisplayState { surfaces: vec![popup_info(1, Some(2), 0, 0), popup_info(2, Some(1), 0, 0)] };
    assert_eq!(find_root(&circle, 1), None);
}

#[test]
fn popup_with_a_dead_toplevel_is_not_tracked() {
    let mut cx = display();
    cx.surfaces[0].alive = false;
    let mut manager = PopupManager::new();
    assert_eq!(manager.track_popup(&cx, popup(10)), Err(DeadResource));
    assert!(manager.trees().is_empty());
    assert!(manager.unmapped().is_empty());
    assert_eq!(manager.add_popup(&cx, popup(10), 1), Err(DeadResource));
}

#[test]
fn commit_maps_a_waiting_popup() {
    let mut cx = display();
    let mut manager = manager(&cx);
    manager.track_popup(&cx, popup(41)).unwrap();
    // A commit of a surface that is no popup, or of a popup without parent, maps nothing.
    manager.commit(&cx, 1);
    manager.commit(&cx, 40);
    assert_eq!(manager.unmapped(), &vec![popup(40), popup(41)]);
    cx.surfaces[7].parent = Some(12);
    manager.commit(&cx, 40);
    assert_eq!(manager.unmapped(), &vec![popup(41)]);
    assert_eq!(
        manager.popups_for_surface(&cx, 2),
        Ok(vec![placed(12, 100, 100), placed(40, 109, 109)])
    );
    assert_eq!(manager.find_popup(&cx, 40), Some(popup(40)));
}

#[test]
fn popups_are_found_by_their_surface() {
    let mut cx = display();
    let manager = manager(&cx);
    assert_eq!(manager.find_popup(&cx, 40), Some(popup(40)));
    assert_eq!(manager.find_popup(&cx, 30), Some(popup(30)));
    assert_eq!(manager.find_popup(&cx, 12), Some(popup(12)));
    assert_eq!(manager.find_popup(&cx, 1), None);
    cx.surfaces[6].alive = false;
    assert_eq!(manager.find_popup(&cx, 30), None);
}

#[test]
fn cleanup_drops_dead_popups_with_everything_below() {
    let mut cx = display();
    let mut manager = manager(&cx);
    cx.surfaces[5].alive = false;
    cx.surfaces[4].alive = false;
    cx.surfaces[7].alive = false;
    manager.cleanup(&cx);
    assert!(manager.unmapped().is_empty());
    assert_eq!(manager.trees().len(), 1);
    assert_eq!(
        manager.popups_for_surface(&cx, 1),
        Ok(vec![placed(10, 5, 5), placed(11, -3, 7)])
    );
    assert_eq!(manager.popups_for_surface(&cx, 2), Ok(vec![]));
    // Popup 30 went with its parent although it is alive.
    assert_eq!(manager.find_popup(&cx, 30), None);
    manager.cleanup(&cx);
    assert_eq!(manager.trees().len(), 1);
}

#[test]
fn places_stay_within_the_range_of_coordinates() {
    assert_eq!(move_by(1, 2), 3);
    assert_eq!(move_by(i32::MAX, 1), i32::MAX);
    assert_eq!(move_by(i32::MIN, -1), i32::MIN);
    assert_eq!(move_by(i32::MIN, i32::MAX), -1);
}
