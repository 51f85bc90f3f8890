//! The logical screen that a render surface presents, and the geometry that
//! frames are planned against.

use vstd::prelude::*;
use vstd::string::*;
use crate::connector::Subpixel;
use crate::mode::OutputMode;

verus! {

/// Largest physical extent, in millimetres, that an output can report.
pub const MAX_EXTENT: i32 = 0x7fff_ffff;

/// How an output's content is rotated or mirrored on its way to the screen.
#[derive(Clone, Copy, Debug, PartialEq, Eq, Structural)]
pub enum Transform {
    /// Shown as rendered.
    Normal,
    /// Rotated by 90 degrees.
    Rotated90,
    /// Rotated by 180 degrees.
    Rotated180,
    /// Rotated by 270 degrees.
    Rotated270,
    /// Mirrored.
    Flipped,
    /// Mirrored, then rotated by 90 degrees.
    Flipped90,
    /// Mirrored, then rotated by 180 degrees.
    Flipped180,
    /// Mirrored, then rotated by 270 degrees.
    Flipped270,
}

/// An axis-aligned rectangle in output coordinates.
#[derive(Clone, Copy, Debug, PartialEq, Eq, Structural)]
pub struct Rectangle {
    /// Left edge.
    pub x: i32,
    /// Top edge.
    pub y: i32,
    /// Width; a rectangle without positive width holds no point.
    pub width: i32,
    /// Height; a rectangle without positive height holds no point.
    pub height: i32,
}

/// What is known of the physical display behind an output.
#[derive(Debug)]
pub struct PhysicalProperties {
    /// Width and height in millimetres; zero where unknown.
    pub size: (i32, i32),
    /// Order of the subpixels.
    pub subpixel: Subpixel,
    /// Name of the manufacturer.
    pub make: String,
    /// Name of the model.
    pub model: String,
}

/// A logical screen: its name, what is known of the display, and the state
/// that clients see.
#[derive(Debug)]
pub struct Output {
    /// Name of the output, unique among the outputs of a device.
    pub name: String,
    /// The physical display.
    pub physical: PhysicalProperties,
    /// The mode the display prefers, once known.
    pub preferred_mode: Option<OutputMode>,
    /// The mode the output runs in, once set.
    pub current_mode: Option<OutputMode>,
    /// The transform applied to the content.
    pub transform: Transform,
    /// Integer scale factor.
    pub scale: i32,
    /// Position of the output's top left corner in the global space.
    pub location: (i32, i32),
}

/// The value of an output: its fields, with strings as character sequences.
pub struct OutputView {
    pub name: Seq<char>,
    pub size: (i32, i32),
    pub subpixel: Subpixel,
    pub make: Seq<char>,
    pub model: Seq<char>,
    pub preferred_mode: Option<OutputMode>,
    pub current_mode: Option<OutputMode>,
    pub transform: Transform,
    pub scale: i32,
    pub location: (i32, i32),
}

impl View for Output {
    type V = OutputView;

    open spec fn view(&self) -> OutputView {
        OutputView {
            name: self.name@,
            size: self.physical.size,
            subpixel: self.physical.subpixel,
            make: self.physical.make@,
            model: self.physical.model@,
            preferred_mode: self.preferred_mode,
            current_mode: self.current_mode,
            transform: self.transform,
            scale: self.scale,
            location: self.location,
        }
    }
}

/// A length in millimetres as an output reports it, capped at `MAX_EXTENT`.
pub open spec fn extent_of(millimetres: u32) -> i32 {
    if millimetres > MAX_EXTENT {
        MAX_EXTENT
    } else {
        millimetres as i32
    }
}

/// The physical size an output reports for a connector's size: the size in
/// millimetres, or zero by zero where the connector does not know it.
pub open spec fn physical_size_of(size: Option<(u32, u32)>) -> (i32, i32) {
    match size {
        Some((w, h)) => (extent_of(w), extent_of(h)),
        None => (0, 0),
    }
}

fn extent(millimetres: u32) -> (r: i32)
    ensures
        r == extent_of(millimetres),
{
    if millimetres > MAX_EXTENT as u32 {
        MAX_EXTENT
    } else {
        millimetres as i32
    }
}

/// Converts a connector's size to the physical size an output reports.
pub fn physical_size(size: Option<(u32, u32)>) -> (r: (i32, i32))
    ensures
        r == physical_size_of(size),
{
    match size {
        Some((w, h)) => (extent(w), extent(h)),
        None => (0, 0),
    }
}

/// A coordinate kept within the range of coordinates.
pub open spec fn clamped(value: int) -> i32 {
    if value > i32::MAX {
        i32::MAX
    } else if value < i32::MIN {
        i32::MIN
    } else {
        value as i32
    }
}

/// The smaller of two numbers.
pub open spec fn least(a: int, b: int) -> int {
    if a <= b {
        a
    } else {
        b
    }
}

/// The larger of two numbers.
pub open spec fn most(a: int, b: int) -> int {
    if a >= b {
        a
    } else {
        b
    }
}

/// Keeps a coordinate within the range of coordinates.
pub fn clamp(value: i64) -> (r: i32)
    ensures
        r == clamped(value as int),
{
    if value > i32::MAX as i64 {
        i32::MAX
    } else if value < i32::MIN as i64 {
        i32::MIN
    } else {
        value as i32
    }
}

impl Rectangle {
    /// The rectangle between two corners, with every coordinate and extent
    /// kept within the range of coordinates.
    pub open spec fn between(left: int, top: int, right: int, bottom: int) -> Rectangle {
        Rectangle {
            x: clamped(left),
            y: clamped(top),
            width: clamped(right - left),
            height: clamped(bottom - top),
        }
    }

    /// The smallest rectangle that holds both rectangles.
    pub open spec fn merged(self, other: Rectangle) -> Rectangle {
        Self::between(
            least(self.x as int, other.x as int),
            least(self.y as int, other.y as int),
            most(self.x + self.width, other.x + other.width),
            most(self.y + self.height, other.y + other.height),
        )
    }

    /// Whether the rectangles touch or overlap.
    pub open spec fn meets(self, other: Rectangle) -> bool {
        self.x <= other.x + other.width && other.x <= self.x + self.width && self.y <= other.y
            + other.height && other.y <= self.y + self.height
    }

    /// The part that both rectangles cover, where they touch or overlap.
    pub open spec fn common(self, other: Rectangle) -> Option<Rectangle> {
        if self.meets(other) {
            Some(
                Self::between(
                    most(self.x as int, other.x as int),
                    most(self.y as int, other.y as int),
                    least(self.x + self.width, other.x + other.width),
                    least(self.y + self.height, other.y + other.height),
                ),
            )
        } else {
            None
        }
    }

    /// The rectangle moved by a distance.
    pub open spec fn shifted(self, dx: int, dy: int) -> Rectangle {
        Rectangle { x: clamped(self.x + dx), y: clamped(self.y + dy), ..self }
    }

    /// The smallest rectangle that holds both rectangles.
    pub fn merge(&self, other: &Rectangle) -> (r: Rectangle)
        ensures
            r == self.merged(*other),
    {
        let left = if self.x <= other.x {
            self.x as i64
        } else {
            other.x as i64
        };
        let top = if self.y <= other.y {
            self.y as i64
        } else {
            other.y as i64
        };
        let right_a = self.x as i64 + self.width as i64;
        let right_b = other.x as i64 + other.width as i64;
        let right = if right_a >= right_b {
            right_a
        } else {
            right_b
        };
        let bottom_a = self.y as i64 + self.height as i64;
        let bottom_b = other.y as i64 + other.height as i64;
        let bottom = if bottom_a >= bottom_b {
            bottom_a
        } else {
            bottom_b
        };
        Rectangle { x: clamp(left), y: clamp(top), width: clamp(right - left), height: clamp(bottom - top) }
    }

    /// The part that both rectangles cover; none where they neither touch
    /// nor overlap.
    pub fn intersection(&self, other: &Rectangle) -> (r: Option<Rectangle>)
        ensures
            r == self.common(*other),
    {
        let right_a = self.x as i64 + self.width as i64;
        let right_b = other.x as i64 + other.width as i64;
        let bottom_a = self.y as i64 + self.height as i64;
        let bottom_b = other.y as i64 + other.height as i64;
        let meets = self.x as i64 <= right_b && other.x as i64 <= right_a && self.y as i64 <= bottom_b
            && other.y as i64 <= bottom_a;
        if !meets {
            return None;
        }
        let left = if self.x >= other.x {
            self.x as i64
        } else {
            other.x as i64
        };
        let top = if self.y >= other.y {
            self.y as i64
        } else {
            other.y as i64
        };
        let right = if right_a <= right_b {
            right_a
        } else {
            right_b
        };
        let bottom = if bottom_a <= bottom_b {
            bottom_a
        } else {
            bottom_b
        };
        Some(
            Rectangle {
                x: clamp(left),
                y: clamp(top),
                width: clamp(right - left),
                height: clamp(bottom - top),
            },
        )
    }

    /// The rectangle moved by a distance.
    pub fn shift_by(&self, dx: i32, dy: i32) -> (r: Rectangle)
        ensures
            r == self.shifted(dx as int, dy as int),
    {
        Rectangle {
            x: clamp(self.x as i64 + dx as i64),
            y: clamp(self.y as i64 + dy as i64),
            width: self.width,
            height: self.height,
        }
    }

    /// Whether the point lies inside: at or after the left and top edge,
    /// before the right and bottom edge.
    pub open spec fn holds(self, x: int, y: int) -> bool {
        self.x <= x < self.x + self.width && self.y <= y < self.y + self.height
    }

    /// Tells whether the point lies inside the rectangle.
    pub fn contains(&self, x: i32, y: i32) -> (r: bool)
        ensures
            r == self.holds(x as int, y as int),
    {
        let px = x as i64;
        let py = y as i64;
        let left = self.x as i64;
        let top = self.y as i64;
        left <= px && px < left + self.width as i64 && top <= py && py < top + self.height as i64
    }
}

impl Output {
    /// The value of a new output: named, with its physical properties, no
    /// mode yet, shown as rendered at scale one in the origin.
    pub open spec fn fresh(name: Seq<char>, physical: PhysicalProperties) -> OutputView {
        OutputView {
            name,
            size: physical.size,
            subpixel: physical.subpixel,
            make: physical.make@,
            model: physical.model@,
            preferred_mode: None,
            current_mode: None,
            transform: Transform::Normal,
            scale: 1,
            location: (0, 0),
        }
    }

    /// Describes a new output.
    pub fn new(name: String, physical: PhysicalProperties) -> (r: Output)
        ensures
            r@ == Self::fresh(name@, physical),
    {
        Output {
            name,
            physical,
            preferred_mode: None,
            current_mode: None,
            transform: Transform::Normal,
            scale: 1,
            location: (0, 0),
        }
    }

    /// Records the mode that the display prefers.
    pub fn set_preferred(&mut self, mode: OutputMode)
        ensures
            final(self)@ == (OutputView { preferred_mode: Some(mode), ..old(self)@ }),
    {
        self.preferred_mode = Some(mode);
    }

    /// Changes the state that clients see. Each part that is given replaces
    /// the output's; each part that is absent stays.
    pub fn change_current_state(
        &mut self,
        mode: Option<OutputMode>,
        transform: Option<Transform>,
        scale: Option<i32>,
        location: Option<(i32, i32)>,
    )
        ensures
            final(self)@ == (OutputView {
                current_mode: if mode is Some { mode } else { old(self)@.current_mode },
                transform: if transform is Some { transform->0 } else { old(self)@.transform },
                scale: if scale is Some { scale->0 } else { old(self)@.scale },
                location: if location is Some { location->0 } else { old(self)@.location },
                ..old(self)@
            }),
    {
        if let Some(m) = mode {
            self.current_mode = Some(m);
        }
        if let Some(t) = transform {
            self.transform = t;
        }
        if let Some(s) = scale {
            self.scale = s;
        }
        if let Some(l) = location {
            self.location = l;
        }
    }

    /// The area of the global space that the output shows: its location and
    /// the size of its current mode, or nothing while it has no mode.
    pub open spec fn area(self) -> Option<Rectangle> {
        match self.current_mode {
            Some(mode) => Some(
                Rectangle {
                    x: self.location.0,
                    y: self.location.1,
                    width: mode.width,
                    height: mode.height,
                },
            ),
            None => None,
        }
    }

    /// The area of the global space that the output shows.
    pub fn geometry(&self) -> (r: Option<Rectangle>)
        ensures
            r == self.area(),
    {
        match self.current_mode {
            Some(mode) => Some(
                Rectangle {
                    x: self.location.0,
                    y: self.location.1,
                    width: mode.width,
                    height: mode.height,
                },
            ),
            None => None,
        }
    }
}

} // verus!
