//! Display modes as the hardware reports them and as outputs advertise them.

use vstd::prelude::*;

verus! {

/// Bit of `Mode::mode_type` that marks the mode the display itself prefers.
pub const MODE_TYPE_PREFERRED: u32 = 8;

/// Largest refresh rate, in millihertz, that an output mode can carry.
pub const MAX_REFRESH_MHZ: i32 = 0x7fff_ffff;

/// Resolution and refresh rate of a display mode, as queried from a connector.
#[derive(Clone, Copy, Debug, PartialEq, Eq, Structural)]
pub struct Mode {
    /// Horizontal resolution in pixels.
    pub width: u16,
    /// Vertical resolution in pixels.
    pub height: u16,
    /// Vertical refresh rate in hertz.
    pub vrefresh: u32,
    /// Mode type flags.
    pub mode_type: u32,
}

/// The mode that an output advertises to clients.
#[derive(Clone, Copy, Debug, PartialEq, Eq, Structural)]
pub struct OutputMode {
    /// Width in pixels.
    pub width: i32,
    /// Height in pixels.
    pub height: i32,
    /// Refresh rate in millihertz.
    pub refresh: i32,
}

/// Refresh rate in millihertz of a rate in hertz, capped at `MAX_REFRESH_MHZ`.
pub open spec fn refresh_mhz(vrefresh: u32) -> int {
    if vrefresh * 1000 > MAX_REFRESH_MHZ {
        MAX_REFRESH_MHZ as int
    } else {
        vrefresh * 1000
    }
}

impl Mode {
    /// Whether the preferred bit is set in the mode's type flags.
    pub open spec fn is_preferred(self) -> bool {
        self.mode_type & MODE_TYPE_PREFERRED != 0
    }

    /// The output mode that this hardware mode is advertised as.
    pub open spec fn output_mode(self) -> OutputMode {
        OutputMode {
            width: self.width as i32,
            height: self.height as i32,
            refresh: refresh_mhz(self.vrefresh) as i32,
        }
    }

    /// The resolution of the mode, width first.
    pub fn size(&self) -> (r: (u16, u16))
        ensures
            r == (self.width, self.height),
    {
        (self.width, self.height)
    }

    /// Tells whether the hardware flagged this mode as preferred.
    pub fn preferred(&self) -> (r: bool)
        ensures
            r == self.is_preferred(),
    {
        self.mode_type & MODE_TYPE_PREFERRED != 0
    }

    /// Converts the mode into the one an output advertises: the same
    /// resolution, the refresh rate in millihertz, capped where it would not fit.
    pub fn to_output_mode(&self) -> (r: OutputMode)
        ensures
            r == self.output_mode(),
    {
        let scaled: u64 = self.vrefresh as u64 * 1000;
        let refresh: i32 = if scaled > MAX_REFRESH_MHZ as u64 {
            MAX_REFRESH_MHZ
        } else {
            scaled as i32
        };
        OutputMode { width: self.width as i32, height: self.height as i32, refresh }
    }
}

/// Index of the mode a new output starts in: the first preferred mode of the
/// list, or the first mode when none is preferred.
pub open spec fn preferred_index(modes: Seq<Mode>, from: int) -> Option<int>
    decreases modes.len() - from,
{
    if from < 0 || from >= modes.len() {
        None
    } else if modes[from].is_preferred() {
        Some(from)
    } else {
        preferred_index(modes, from + 1)
    }
}

/// The mode chosen from a connector's mode list.
pub open spec fn chosen_mode(modes: Seq<Mode>) -> Option<Mode> {
    if modes.len() == 0 {
        None
    } else {
        match preferred_index(modes, 0) {
            Some(i) => Some(modes[i]),
            None => Some(modes[0]),
        }
    }
}

/// What `preferred_index` finds: the first index at or after `from` whose mode
/// is preferred, and nothing exactly when no such mode exists.
pub proof fn lemma_preferred_index(modes: Seq<Mode>, from: int)
    requires
        0 <= from,
    ensures
        match preferred_index(modes, from) {
            Some(i) => from <= i < modes.len() && modes[i].is_preferred() && forall|j: int|
                from <= j < i ==> !(#[trigger] modes[j]).is_preferred(),
            None => forall|j: int| from <= j < modes.len() ==> !(#[trigger] modes[j]).is_preferred(),
        },
    decreases modes.len() - from,
{
    if from < modes.len() && !modes[from].is_preferred() {
        lemma_preferred_index(modes, from + 1);
    }
}

/// Chooses the mode for a new output: the first mode that the hardware flags
/// as preferred, else the first mode of the list. An empty list has no mode.
pub fn select_mode(modes: &Vec<Mode>) -> (r: Option<Mode>)
    ensures
        r == chosen_mode(modes@),
        r is Some <==> modes@.len() > 0,
        r matches Some(m) ==> modes@.contains(m),
{
    if modes.len() == 0 {
        return None;
    }
    let mut i: usize = 0;
    while i < modes.len()
        invariant
            i <= modes.len(),
            preferred_index(modes@, 0) == preferred_index(modes@, i as int),
        decreases modes.len() - i,
    {
        if modes[i].preferred() {
            return Some(modes[i]);
        }
        i += 1;
    }
    Some(modes[0])
}

} // verus!
