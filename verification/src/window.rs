//! Application windows: a toplevel surface with the box around it, and the
//! box around the window with its popups.

use vstd::prelude::*;
use crate::output::{clamp, clamped, Rectangle};
use crate::popup::{living, DisplayState, PlacedPopup, PopupManager, SurfaceInfo};

verus! {

/// A toplevel surface of the xdg shell.
#[derive(Clone, Copy, Debug, PartialEq, Eq, Structural)]
pub struct ToplevelSurface {
    /// Identifier of the surface.
    pub surface: u32,
}

/// A surface of an X11 client.
#[derive(Clone, Copy, Debug, PartialEq, Eq, Structural)]
pub struct X11Surface {
    /// Identifier of the surface.
    pub surface: u32,
}

/// The kinds of toplevel surfaces.
#[derive(Clone, Copy, Debug, PartialEq, Eq, Structural)]
pub enum Kind {
    /// A toplevel surface of the xdg shell.
    Xdg(ToplevelSurface),
    /// A surface of an X11 client.
    X11(X11Surface),
}

/// One application window.
#[derive(Clone, Copy, Debug, PartialEq, Eq, Structural)]
pub struct Window {
    id: usize,
    toplevel: Kind,
    bbox: Rectangle,
}

/// The regions of one surface that changed, relative to the surface.
#[derive(Debug)]
pub struct SurfaceDamage {
    /// Identifier of the surface.
    pub surface: u32,
    /// The regions that changed.
    pub regions: Vec<Rectangle>,
}

/// The regions of the first entry at or after `from` for the surface; none
/// where there is no entry.
pub open spec fn regions_of(damage: Seq<SurfaceDamage>, surface: u32, from: int) -> Seq<Rectangle>
    decreases damage.len() - from,
{
    if from < 0 || from >= damage.len() {
        Seq::empty()
    } else if damage[from].surface == surface {
        damage[from].regions@
    } else {
        regions_of(damage, surface, from + 1)
    }
}

/// The first `n` regions, each moved by a distance and cut down to what lies
/// within a box; regions that lie outside the box are left out.
pub open spec fn clipped(regions: Seq<Rectangle>, dx: i32, dy: i32, bbox: Rectangle, n: int) -> Seq<
    Rectangle,
>
    decreases n,
{
    if n <= 0 || n > regions.len() {
        Seq::empty()
    } else {
        let before = clipped(regions, dx, dy, bbox, n - 1);
        match regions[n - 1].shifted(dx as int, dy as int).common(bbox) {
            Some(part) => before.push(part),
            None => before,
        }
    }
}

/// The distance of a popup's surface from the window's surface: the corner
/// of the window's geometry plus the popup's place, less the corner of the
/// popup's own geometry.
pub open spec fn popup_offset(corner: (i32, i32), popup: PlacedPopup, info: SurfaceInfo) -> (i32, i32) {
    let own = match info.geometry {
        Some(geometry) => geometry,
        None => nothing(),
    };
    (clamped(corner.0 + popup.x - own.x), clamped(corner.1 + popup.y - own.y))
}

/// The damage of the first `n` popups, popup by popup: the regions of each
/// popup whose surface exists, moved to the popup's place relative to the
/// window and cut down to the box around the popup's surface.
pub open spec fn popups_damage(
    corner: (i32, i32),
    popups: Seq<PlacedPopup>,
    surfaces: Seq<SurfaceInfo>,
    damage: Seq<SurfaceDamage>,
    n: int,
) -> Seq<Rectangle>
    decreases n,
{
    if n <= 0 || n > popups.len() {
        Seq::empty()
    } else {
        let before = popups_damage(corner, popups, surfaces, damage, n - 1);
        match living(surfaces, popups[n - 1].popup.id()) {
            Some(info) => {
                let offset = popup_offset(corner, popups[n - 1], info);
                let regions = regions_of(damage, popups[n - 1].popup.id(), 0);
                before + clipped(
                    regions,
                    offset.0,
                    offset.1,
                    info.bbox.shifted(offset.0 as int, offset.1 as int),
                    regions.len() as int,
                )
            },
            None => before,
        }
    }
}

/// The rectangle without extent in the origin.
pub open spec fn nothing() -> Rectangle {
    Rectangle { x: 0, y: 0, width: 0, height: 0 }
}

/// The box around the window and the first `n` popups: each popup whose
/// surface exists adds the box around its surface, moved to the popup's
/// place relative to the window. That place is the window's geometry plus
/// the popup's place, less the corner of the popup's own geometry.
pub open spec fn box_with(
    bbox: Rectangle,
    corner: (i32, i32),
    popups: Seq<PlacedPopup>,
    surfaces: Seq<SurfaceInfo>,
    n: int,
) -> Rectangle
    decreases n,
{
    if n <= 0 || n > popups.len() {
        bbox
    } else {
        let before = box_with(bbox, corner, popups, surfaces, n - 1);
        match living(surfaces, popups[n - 1].popup.id()) {
            Some(info) => {
                let offset = popup_offset(corner, popups[n - 1], info);
                before.merged(info.bbox.shifted(offset.0 as int, offset.1 as int))
            },
            None => before,
        }
    }
}

/// Finds the regions of a surface that changed.
pub fn find_damage(damage: &Vec<SurfaceDamage>, surface: u32) -> (r: Option<usize>)
    ensures
        match r {
            Some(i) => i < damage@.len() && regions_of(damage@, surface, 0) == damage@[i as int].regions@,
            None => regions_of(damage@, surface, 0) == Seq::<Rectangle>::empty(),
        },
{
    let mut i: usize = 0;
    while i < damage.len()
        invariant
            i <= damage.len(),
            regions_of(damage@, surface, 0) == regions_of(damage@, surface, i as int),
        decreases damage.len() - i,
    {
        if damage[i].surface == surface {
            return Some(i);
        }
        i += 1;
    }
    None
}

/// Moves regions by a distance, cuts them down to what lies within a box,
/// and appends what is left to `out`.
pub fn clip_damage(regions: &Vec<Rectangle>, dx: i32, dy: i32, bbox: &Rectangle, out: &mut Vec<Rectangle>)
    ensures
        final(out)@ == old(out)@ + clipped(regions@, dx, dy, *bbox, regions@.len() as int),
{
    let ghost start = out@;
    let mut i: usize = 0;
    while i < regions.len()
        invariant
            i <= regions.len(),
            out@ == start + clipped(regions@, dx, dy, *bbox, i as int),
        decreases regions.len() - i,
    {
        if let Some(part) = regions[i].shift_by(dx, dy).intersection(bbox) {
            out.push(part);
        }
        i += 1;
    }
}

/// Computes the distance of a popup's surface from the window's surface.
pub fn offset_of(corner: (i32, i32), popup: &PlacedPopup, info: &SurfaceInfo) -> (r: (i32, i32))
    ensures
        r == popup_offset(corner, *popup, *info),
{
    let own = match info.geometry {
        Some(geometry) => geometry,
        None => Rectangle { x: 0, y: 0, width: 0, height: 0 },
    };
    (
        clamp(corner.0 as i64 + popup.x as i64 - own.x as i64),
        clamp(corner.1 as i64 + popup.y as i64 - own.y as i64),
    )
}

impl X11Surface {
    /// Tells whether the surface still exists.
    pub fn alive(&self, cx: &DisplayState) -> (r: bool)
        ensures
            r == (living(cx.surfaces@, self.surface) is Some),
    {
        cx.living(self.surface).is_some()
    }

    /// The surface, while it exists.
    pub fn get_surface(&self, cx: &DisplayState) -> (r: Option<u32>)
        ensures
            r == if living(cx.surfaces@, self.surface) is Some {
                Some(self.surface)
            } else {
                None
            },
    {
        if self.alive(cx) {
            Some(self.surface)
        } else {
            None
        }
    }
}

impl Kind {
    /// Identifier of the toplevel surface.
    pub open spec fn id(self) -> u32 {
        match self {
            Kind::Xdg(toplevel) => toplevel.surface,
            Kind::X11(toplevel) => toplevel.surface,
        }
    }

    /// Identifier of the toplevel surface, whether it exists or not.
    pub fn surface_id(&self) -> (r: u32)
        ensures
            r == self.id(),
    {
        match self {
            Kind::Xdg(toplevel) => toplevel.surface,
            Kind::X11(toplevel) => toplevel.surface,
        }
    }

    /// Tells whether the surface still exists.
    pub fn alive(&self, cx: &DisplayState) -> (r: bool)
        ensures
            r == (living(cx.surfaces@, self.id()) is Some),
    {
        cx.living(self.surface_id()).is_some()
    }

    /// The surface, while it exists.
    pub fn get_surface(&self, cx: &DisplayState) -> (r: Option<u32>)
        ensures
            r == if living(cx.surfaces@, self.id()) is Some {
                Some(self.id())
            } else {
                None
            },
    {
        if self.alive(cx) {
            Some(self.surface_id())
        } else {
            None
        }
    }
}

impl Window {
    /// The identifier that tells windows apart.
    pub closed spec fn ident(self) -> usize {
        self.id
    }

    /// The toplevel surface of the window.
    pub closed spec fn kind(self) -> Kind {
        self.toplevel
    }

    /// The box around the window's surfaces, as of the last refresh.
    pub closed spec fn extent(self) -> Rectangle {
        self.bbox
    }

    /// The window's geometry while its surface exists: the geometry that
    /// the client set, or the box around the window where it set none.
    pub open spec fn geometry_in(self, surfaces: Seq<SurfaceInfo>) -> Option<Rectangle> {
        match living(surfaces, self.kind().id()) {
            Some(info) => match info.geometry {
                Some(geometry) => Some(geometry),
                None => Some(self.extent()),
            },
            None => None,
        }
    }

    /// The box around the window: nothing once its surface is gone.
    pub open spec fn bbox_in(self, surfaces: Seq<SurfaceInfo>) -> Rectangle {
        if living(surfaces, self.kind().id()) is Some {
            self.extent()
        } else {
            nothing()
        }
    }

    /// A window for a toplevel surface, with nothing known of its extent yet.
    pub fn new(id: usize, toplevel: Kind) -> (r: Window)
        ensures
            r.ident() == id,
            r.kind() == toplevel,
            r.extent() == nothing(),
    {
        Window { id, toplevel, bbox: Rectangle { x: 0, y: 0, width: 0, height: 0 } }
    }

    /// The identifier that tells windows apart.
    pub fn id(&self) -> (r: usize)
        ensures
            r == self.ident(),
    {
        self.id
    }

    /// The toplevel surface of the window.
    pub fn toplevel(&self) -> (r: Kind)
        ensures
            r == self.kind(),
    {
        self.toplevel
    }

    /// Tells whether two values are the same window: they are when they
    /// carry the same identifier.
    pub fn same(&self, other: &Window) -> (r: bool)
        ensures
            r == (self.ident() == other.ident()),
    {
        self.id == other.id
    }

    /// The window's geometry: the geometry that the client set, or the box
    /// around the window where it set none. A window whose surface is gone
    /// has no geometry.
    pub fn geometry(&self, cx: &DisplayState) -> (r: Option<Rectangle>)
        ensures
            r == self.geometry_in(cx.surfaces@),
    {
        match cx.living(self.toplevel.surface_id()) {
            Some(info) => match info.geometry {
                Some(geometry) => Some(geometry),
                None => Some(self.bbox),
            },
            None => None,
        }
    }

    /// The box around the window's surfaces: nothing once its surface is gone.
    pub fn bbox(&self, cx: &DisplayState) -> (r: Rectangle)
        ensures
            r == self.bbox_in(cx.surfaces@),
    {
        if self.toplevel.alive(cx) {
            self.bbox
        } else {
            Rectangle { x: 0, y: 0, width: 0, height: 0 }
        }
    }

    /// Brings the box around the window's surfaces up to date. A window
    /// whose surface is gone keeps the box it had.
    pub fn refresh(&mut self, cx: &DisplayState)
        ensures
            final(self).ident() == old(self).ident(),
            final(self).kind() == old(self).kind(),
            final(self).extent() == match living(cx.surfaces@, old(self).kind().id()) {
                Some(info) => info.bbox,
                None => old(self).extent(),
            },
    {
        if let Some(info) = cx.living(self.toplevel.surface_id()) {
            self.bbox = info.bbox;
        }
    }

    /// The box around the window and its popups. Every popup below the
    /// window's surface whose own surface exists adds the box around its
    /// surface, at the popup's place relative to the window. A window whose
    /// surface is gone has no box.
    pub fn bbox_with_popups(&self, cx: &DisplayState, popups: &PopupManager) -> (r: Rectangle)
        ensures
            r == match self.geometry_in(cx.surfaces@) {
                Some(geometry) => box_with(
                    self.extent(),
                    (geometry.x, geometry.y),
                    popups@.popups_below(cx.surfaces@, self.kind().id()),
                    cx.surfaces@,
                    popups@.popups_below(cx.surfaces@, self.kind().id()).len() as int,
                ),
                None => nothing(),
            },
    {
        let geometry = match self.geometry(cx) {
            Some(geometry) => geometry,
            None => {
                return Rectangle { x: 0, y: 0, width: 0, height: 0 };
            },
        };
        let mut bounding_box = self.bbox;
        let placed = match popups.popups_for_surface(cx, self.toplevel.surface_id()) {
            Ok(placed) => placed,
            Err(_) => {
                return bounding_box;
            },
        };
        let mut i: usize = 0;
        while i < placed.len()
            invariant
                i <= placed.len(),
                bounding_box == box_with(
                    self.extent(),
                    (geometry.x, geometry.y),
                    placed@,
                    cx.surfaces@,
                    i as int,
                ),
            decreases placed.len() - i,
        {
            let popup = placed[i];
            if let Some(info) = cx.living(popup.popup.surface_id()) {
                let offset = offset_of((geometry.x, geometry.y), &popup, &info);
                bounding_box = bounding_box.merge(&info.bbox.shift_by(offset.0, offset.1));
            }
            i += 1;
        }
        bounding_box
    }

    /// Collects the damage of the window: the regions of its own surface
    /// that changed, cut down to the box around the window, then those of
    /// each popup below it whose surface exists, moved to the popup's place
    /// relative to the window and cut down to the box around the popup's
    /// surface. A window whose surface is gone has no damage.
    pub fn accumulated_damage(&self, cx: &DisplayState, popups: &PopupManager, damage: &Vec<SurfaceDamage>)
        -> (r: Vec<Rectangle>)
        ensures
            r@ == match self.geometry_in(cx.surfaces@) {
                Some(geometry) => clipped(
                    regions_of(damage@, self.kind().id(), 0),
                    0,
                    0,
                    self.extent(),
                    regions_of(damage@, self.kind().id(), 0).len() as int,
                ) + popups_damage(
                    (geometry.x, geometry.y),
                    popups@.popups_below(cx.surfaces@, self.kind().id()),
                    cx.surfaces@,
                    damage@,
                    popups@.popups_below(cx.surfaces@, self.kind().id()).len() as int,
                ),
                None => Seq::empty(),
            },
    {
        let mut out: Vec<Rectangle> = Vec::new();
        let geometry = match self.geometry(cx) {
            Some(geometry) => geometry,
            None => {
                return out;
            },
        };
        match find_damage(damage, self.toplevel.surface_id()) {
            Some(own) => {
                clip_damage(&damage[own].regions, 0, 0, &self.bbox, &mut out);
            },
            None => {
            },
        }
        let placed = match popups.popups_for_surface(cx, self.toplevel.surface_id()) {
            Ok(placed) => placed,
            Err(_) => {
                return out;
            },
        };
        let ghost own_damage = out@;
        let mut i: usize = 0;
        while i < placed.len()
            invariant
                i <= placed.len(),
                out@ == own_damage + popups_damage(
                    (geometry.x, geometry.y),
                    placed@,
                    cx.surfaces@,
                    damage@,
                    i as int,
                ),
            decreases placed.len() - i,
        {
            let popup = placed[i];
            if let Some(info) = cx.living(popup.popup.surface_id()) {
                let offset = offset_of((geometry.x, geometry.y), &popup, &info);
                let bbox = info.bbox.shift_by(offset.0, offset.1);
                match find_damage(damage, popup.popup.surface_id()) {
                    Some(k) => {
                        clip_damage(&damage[k].regions, offset.0, offset.1, &bbox, &mut out);
                    },
                    None => {
                    },
                }
            }
            i += 1;
        }
        out
    }
}

} // verus!
