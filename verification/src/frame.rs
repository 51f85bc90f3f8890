//! What goes into one frame: how much of the output must be redrawn, and
//! where the pointer is drawn.

use vstd::prelude::*;
use crate::output::Rectangle;

verus! {

/// Number of past frames whose damage is remembered.
pub const DAMAGE_HISTORY: usize = 4;

/// Remembers which regions changed in the last frames, newest first.
#[derive(Debug)]
pub struct DamageTracker {
    history: Vec<Vec<Rectangle>>,
}

/// What a frame has to redraw.
#[derive(Debug)]
pub enum Redraw {
    /// The whole output.
    Full,
    /// Only these regions.
    Partial(Vec<Rectangle>),
}

/// The regions of the first `n` entries of the history, newest entry first.
pub open spec fn joined(history: Seq<Vec<Rectangle>>, n: int) -> Seq<Rectangle>
    decreases n,
{
    if n <= 0 {
        Seq::empty()
    } else {
        joined(history, n - 1) + history[n - 1]@
    }
}

/// The history after the damage of a new frame was recorded: the new entry
/// comes first, and entries beyond `DAMAGE_HISTORY` are forgotten.
pub open spec fn recorded(history: Seq<Vec<Rectangle>>, damage: Vec<Rectangle>) -> Seq<
    Vec<Rectangle>,
> {
    let longer = history.insert(0, damage);
    if longer.len() > DAMAGE_HISTORY {
        longer.take(DAMAGE_HISTORY as int)
    } else {
        longer
    }
}

/// Whether a buffer of this age can be repaired from the history: its age is
/// known and the history reaches back as far.
pub open spec fn repairable(history: Seq<Vec<Rectangle>>, age: u8) -> bool {
    0 < age <= history.len()
}

impl View for DamageTracker {
    type V = Seq<Vec<Rectangle>>;

    closed spec fn view(&self) -> Seq<Vec<Rectangle>> {
        self.history@
    }
}

impl DamageTracker {
    /// A tracker that remembers no frame.
    pub fn new() -> (r: DamageTracker)
        ensures
            r@ == Seq::<Vec<Rectangle>>::empty(),
    {
        DamageTracker { history: Vec::new() }
    }

    /// Number of frames remembered.
    pub fn len(&self) -> (r: usize)
        ensures
            r == self@.len(),
    {
        self.history.len()
    }

    /// Records the regions that the newest frame changed.
    pub fn record(&mut self, damage: Vec<Rectangle>)
        ensures
            final(self)@ == recorded(old(self)@, damage),
    {
        self.history.insert(0, damage);
        if self.history.len() > DAMAGE_HISTORY {
            self.history.truncate(DAMAGE_HISTORY);
        }
    }

    /// Forgets every frame, as when the buffers' content is lost.
    pub fn reset(&mut self)
        ensures
            final(self)@ == Seq::<Vec<Rectangle>>::empty(),
    {
        self.history.clear();
    }

    /// Says what a buffer of the given age has to redraw. A buffer of unknown
    /// age, or one older than the history reaches, is redrawn in full. Any
    /// other buffer redraws the regions that changed in the frames it missed,
    /// newest frame first.
    pub fn redraw(&self, age: u8) -> (r: Redraw)
        ensures
            r is Partial <==> repairable(self@, age),
            r matches Redraw::Partial(regions) ==> regions@ == joined(self@, age as int),
    {
        if age == 0 || age as usize > self.history.len() {
            return Redraw::Full;
        }
        let mut regions: Vec<Rectangle> = Vec::new();
        let mut n: usize = 0;
        while n < age as usize
            invariant
                n <= age as usize <= self.history.len(),
                regions@ == joined(self@, n as int),
            decreases age as usize - n,
        {
            let entry = &self.history[n];
            let ghost before = regions@;
            let mut k: usize = 0;
            while k < entry.len()
                invariant
                    k <= entry.len(),
                    regions@ == before + entry@.take(k as int),
                decreases entry.len() - k,
            {
                regions.push(entry[k]);
                k += 1;
            }
            n += 1;
        }
        Redraw::Partial(regions)
    }
}

/// What the client asked the pointer to look like.
#[derive(Clone, Copy, Debug, PartialEq, Eq, Structural)]
pub enum CursorImageStatus {
    /// The pointer is hidden.
    Hidden,
    /// The compositor's own pointer image.
    Default,
    /// The image of a client's surface.
    Image { surface: u32 },
}

/// What is drawn at the pointer's place.
#[derive(Clone, Copy, Debug, PartialEq, Eq, Structural)]
pub enum CursorDraw {
    /// The image of a client's surface.
    Surface { surface: u32 },
    /// The compositor's own pointer image.
    Texture,
}

/// A drag icon that follows the pointer.
#[derive(Clone, Copy, Debug, PartialEq, Eq, Structural)]
pub struct DragIcon {
    /// The surface that holds the icon.
    pub surface: u32,
    /// Whether the surface still exists.
    pub alive: bool,
}

/// How the pointer is drawn on one output.
#[derive(Clone, Copy, Debug, PartialEq, Eq, Structural)]
pub struct PointerPlan {
    /// The pointer's distance from the output's left edge.
    pub x: i32,
    /// The pointer's distance from the output's top edge.
    pub y: i32,
    /// The drag icon to draw there, if one is alive.
    pub drag_icon: Option<u32>,
    /// The pointer image to draw there.
    pub cursor: CursorDraw,
}

/// The cursor status after a frame on the pointer's output: an image whose
/// surface is gone falls back to the default pointer.
pub open spec fn settled(status: CursorImageStatus, cursor_alive: bool) -> CursorImageStatus {
    if status is Image && !cursor_alive {
        CursorImageStatus::Default
    } else {
        status
    }
}

/// The plan for the pointer on an output: nothing where the pointer is
/// outside the output, else its place relative to the output, the drag icon
/// if it is alive, and the client's image or the default pointer.
pub open spec fn pointer_plan(
    pointer: (i32, i32),
    geometry: Rectangle,
    drag_icon: Option<DragIcon>,
    status: CursorImageStatus,
    cursor_alive: bool,
) -> Option<PointerPlan> {
    if geometry.holds(pointer.0 as int, pointer.1 as int) {
        Some(
            PointerPlan {
                x: (pointer.0 - geometry.x) as i32,
                y: (pointer.1 - geometry.y) as i32,
                drag_icon: match drag_icon {
                    Some(icon) => if icon.alive {
                        Some(icon.surface)
                    } else {
                        None
                    },
                    None => None,
                },
                cursor: match settled(status, cursor_alive) {
                    CursorImageStatus::Image { surface } => CursorDraw::Surface { surface },
                    _ => CursorDraw::Texture,
                },
            },
        )
    } else {
        None
    }
}

/// Plans how the pointer is drawn on an output with the given geometry.
/// Outside the output nothing is drawn and the cursor status stays. Inside,
/// a cursor image whose surface is gone is replaced by the default pointer.
pub fn plan_pointer(
    pointer: (i32, i32),
    geometry: &Rectangle,
    drag_icon: Option<DragIcon>,
    status: &mut CursorImageStatus,
    cursor_alive: bool,
) -> (r: Option<PointerPlan>)
    ensures
        r == pointer_plan(pointer, *geometry, drag_icon, *old(status), cursor_alive),
        *final(status) == if geometry.holds(pointer.0 as int, pointer.1 as int) {
            settled(*old(status), cursor_alive)
        } else {
            *old(status)
        },
{
    if !geometry.contains(pointer.0, pointer.1) {
        return None;
    }
    let x: i64 = pointer.0 as i64 - geometry.x as i64;
    let y: i64 = pointer.1 as i64 - geometry.y as i64;
    let icon = match drag_icon {
        Some(icon) => if icon.alive {
            Some(icon.surface)
        } else {
            None
        },
        None => None,
    };
    let reset = match *status {
        CursorImageStatus::Image { .. } => !cursor_alive,
        _ => false,
    };
    if reset {
        *status = CursorImageStatus::Default;
    }
    let cursor = match *status {
        CursorImageStatus::Image { surface } => CursorDraw::Surface { surface },
        _ => CursorDraw::Texture,
    };
    Some(PointerPlan { x: x as i32, y: y as i32, drag_icon: icon, cursor })
}

} // verus!
