//! The render surface of one bound CRTC: its output, its ring of buffers and
//! the rule that at most one buffer is in flight.
//!
//! A surface that is ready hands out a buffer to draw into. A drawn buffer is
//! queued for a page flip and is then in flight. Until the hardware confirms
//! the flip, the surface hands out no other buffer. The confirmation puts the
//! flipped buffer on screen and frees the one that was there before.

use vstd::prelude::*;
use vstd::string::*;
use crate::connector::{connector_name, interface_name, output_name_of, ConnectorInfo};
use crate::frame::{joined, recorded, repairable, DamageTracker, Redraw};
use crate::mode::{chosen_mode, select_mode, Mode};
use crate::output::{
    physical_size, physical_size_of, Output, OutputView, PhysicalProperties, Rectangle, Transform,
};

verus! {

/// Age that marks a buffer's content as unknown: it must be redrawn in full.
pub const AGE_UNKNOWN: u8 = 0;

/// Why an attempt to present a frame failed for the moment.
#[derive(Clone, Copy, Debug, PartialEq, Eq, Structural)]
pub enum Cause {
    /// The device is paused with its session.
    DeviceInactive,
    /// The device refused access for want of permission.
    PermissionDenied,
    /// Every buffer of the ring is on screen or being drawn.
    NoFreeSlot,
    /// Any other failure, with the code the system reported.
    Other { code: i32 },
}

/// How an attempt to present a frame can fail.
#[derive(Clone, Copy, Debug, PartialEq, Eq, Structural)]
pub enum SwapBuffersError {
    /// A flip is still pending; nothing was done and nothing is wrong.
    AlreadySwapped,
    /// The attempt failed for now and may succeed later.
    TemporaryFailure(Cause),
    /// The rendering context is lost for good.
    ContextLost(Cause),
}

/// A buffer handed out for drawing.
#[derive(Clone, Copy, Debug, PartialEq, Eq, Structural)]
pub struct Frame {
    /// Index of the buffer in the surface's ring.
    pub buffer: usize,
    /// Number of frames since the buffer was last on its way to the screen;
    /// `AGE_UNKNOWN` where its content cannot be reused.
    pub age: u8,
}

/// The render surface of one CRTC.
#[derive(Debug)]
pub struct OutputSurface {
    crtc: u32,
    connector: u32,
    mode: Mode,
    output: Output,
    ages: Vec<u8>,
    acquired: Option<usize>,
    in_flight: Option<usize>,
    front: Option<usize>,
    active: bool,
    damage: DamageTracker,
}

/// The value of a render surface.
pub struct SurfaceView {
    /// The CRTC the surface is bound to.
    pub crtc: u32,
    /// The connector the CRTC drives.
    pub connector: u32,
    /// The hardware mode of the CRTC.
    pub mode: Mode,
    /// The output the surface presents.
    pub output: OutputView,
    /// Age of each buffer of the ring.
    pub ages: Seq<u8>,
    /// The buffer handed out for drawing, if any.
    pub acquired: Option<usize>,
    /// The buffer whose flip is pending, if any.
    pub in_flight: Option<usize>,
    /// The buffer on screen, if any.
    pub front: Option<usize>,
    /// Whether the device may be touched.
    pub active: bool,
    /// The regions that the last frames changed, newest frame first.
    pub damage: Seq<Vec<Rectangle>>,
}

/// The age of a buffer one frame later: an unknown age stays unknown, a known
/// one grows by one up to the largest age that can be told.
pub open spec fn aged(age: u8) -> u8 {
    if age == AGE_UNKNOWN {
        AGE_UNKNOWN
    } else if age == u8::MAX {
        u8::MAX
    } else {
        (age + 1) as u8
    }
}

/// The ages after `buffer` was queued: the queued buffer is one frame old,
/// every other buffer is one frame older than before.
pub open spec fn ages_after_queue(ages: Seq<u8>, buffer: int) -> Seq<u8> {
    Seq::new(ages.len(), |i: int| if i == buffer { 1u8 } else { aged(ages[i]) })
}

/// The first buffer at or after `from` that is not on screen.
pub open spec fn first_free(len: int, front: Option<usize>, from: int) -> Option<usize>
    decreases len - from,
{
    if from < 0 || from >= len {
        None
    } else if front != Some(from as usize) {
        Some(from as usize)
    } else {
        first_free(len, front, from + 1)
    }
}

impl SurfaceView {
    /// The ring holds a buffer, the indices point into the ring, no buffer
    /// plays two parts, and no buffer is handed out while another is in flight.
    pub open spec fn wf(self) -> bool {
        &&& self.ages.len() > 0
        &&& self.acquired matches Some(i) ==> i < self.ages.len()
        &&& self.in_flight matches Some(i) ==> i < self.ages.len()
        &&& self.front matches Some(i) ==> i < self.ages.len()
        &&& self.acquired is Some ==> self.in_flight is None && self.acquired != self.front
        &&& self.in_flight is Some ==> self.in_flight != self.front
    }

    /// Number of buffers whose flip is pending: zero or one.
    pub open spec fn in_flight_count(self) -> nat {
        if self.in_flight is Some {
            1
        } else {
            0
        }
    }

    /// What `acquire_buffer` returns in this state.
    pub open spec fn acquire_result(self) -> Result<Frame, SwapBuffersError> {
        if !self.active {
            Err(SwapBuffersError::TemporaryFailure(Cause::DeviceInactive))
        } else if self.in_flight is Some {
            Err(SwapBuffersError::AlreadySwapped)
        } else if let Some(buffer) = self.acquired {
            Ok(Frame { buffer, age: self.ages[buffer as int] })
        } else if let Some(buffer) = first_free(self.ages.len() as int, self.front, 0) {
            Ok(Frame { buffer, age: self.ages[buffer as int] })
        } else {
            Err(SwapBuffersError::TemporaryFailure(Cause::NoFreeSlot))
        }
    }

    /// The surface after `acquire_buffer`: the buffer that was returned is the
    /// one handed out, and nothing else changed.
    pub open spec fn after_acquire(self) -> SurfaceView {
        match self.acquire_result() {
            Ok(frame) => SurfaceView { acquired: Some(frame.buffer), ..self },
            Err(_) => self,
        }
    }

    /// The surface after `queue_buffer`: the buffer that was handed out is in
    /// flight and the ages moved on; without such a buffer nothing changed.
    pub open spec fn after_queue(self) -> SurfaceView {
        match self.acquired {
            Some(buffer) => SurfaceView {
                acquired: None,
                in_flight: Some(buffer),
                ages: ages_after_queue(self.ages, buffer as int),
                ..self
            },
            None => self,
        }
    }

    /// The surface after `frame_submitted`: the buffer in flight is on screen
    /// and nothing is in flight; without such a buffer nothing changed.
    pub open spec fn after_submitted(self) -> SurfaceView {
        match self.in_flight {
            Some(buffer) => SurfaceView { in_flight: None, front: Some(buffer), ..self },
            None => self,
        }
    }

    /// The surface after its flip was refused: the buffer that was in flight
    /// is free again and its content counts as unknown.
    pub open spec fn after_flip_failed(self) -> SurfaceView {
        match self.in_flight {
            Some(buffer) => SurfaceView {
                in_flight: None,
                ages: self.ages.update(buffer as int, AGE_UNKNOWN),
                ..self
            },
            None => self,
        }
    }

    /// The surface after `reset_buffers`: no buffer plays a part and every
    /// age is unknown.
    pub open spec fn after_reset(self) -> SurfaceView {
        SurfaceView {
            acquired: None,
            in_flight: None,
            front: None,
            ages: Seq::new(self.ages.len(), |i: int| AGE_UNKNOWN),
            damage: Seq::empty(),
            ..self
        }
    }
}

/// The output that a surface presents for a connector: named after the
/// connector, with the display's size and names, running the chosen mode.
pub open spec fn surface_output(connector: ConnectorInfo, mode: Mode) -> OutputView {
    OutputView {
        name: output_name_of(interface_name(connector.interface), connector.interface_id),
        size: physical_size_of(connector.size),
        subpixel: connector.subpixel,
        make: if connector.edid is Some {
            connector.edid->0.manufacturer@
        } else {
            "Unknown"@
        },
        model: if connector.edid is Some {
            connector.edid->0.model@
        } else {
            "Unknown"@
        },
        preferred_mode: Some(mode.output_mode()),
        current_mode: Some(mode.output_mode()),
        transform: Transform::Normal,
        scale: 1,
        location: (0, 0),
    }
}

/// The number of buffers in a ring that was asked to hold `buffers`: a ring
/// holds at least one.
pub open spec fn ring_size(buffers: usize) -> nat {
    if buffers == 0 {
        1
    } else {
        buffers as nat
    }
}

/// The value of a new surface for a connector with a mode.
pub open spec fn new_surface(crtc: u32, connector: ConnectorInfo, mode: Mode, buffers: usize) -> SurfaceView {
    SurfaceView {
        crtc,
        connector: connector.handle,
        mode,
        output: surface_output(connector, mode),
        ages: Seq::new(ring_size(buffers), |i: int| AGE_UNKNOWN),
        acquired: None,
        in_flight: None,
        front: None,
        active: true,
        damage: Seq::empty(),
    }
}

impl View for OutputSurface {
    type V = SurfaceView;

    closed spec fn view(&self) -> SurfaceView {
        SurfaceView {
            crtc: self.crtc,
            connector: self.connector,
            mode: self.mode,
            output: self.output@,
            ages: self.ages@,
            acquired: self.acquired,
            in_flight: self.in_flight,
            front: self.front,
            active: self.active,
            damage: self.damage@,
        }
    }
}

/// The values of a list of surfaces, in order.
pub open spec fn views(surfaces: Seq<OutputSurface>) -> Seq<SurfaceView> {
    Seq::new(surfaces.len(), |i: int| surfaces[i]@)
}

fn unknown_ages(len: usize) -> (r: Vec<u8>)
    ensures
        r@ == Seq::new(len as nat, |i: int| AGE_UNKNOWN),
{
    let mut ages: Vec<u8> = Vec::new();
    let mut i: usize = 0;
    while i < len
        invariant
            i <= len,
            ages@ == Seq::new(i as nat, |j: int| AGE_UNKNOWN),
        decreases len - i,
    {
        ages.push(AGE_UNKNOWN);
        i += 1;
    }
    ages
}

impl OutputSurface {
    /// Describes the surface that presents a connector on a CRTC, with a ring
    /// of `buffers` buffers, or of one where none is asked for. The mode is the connector's preferred mode, or
    /// its first where none is preferred. The output is named after the
    /// connector's interface and carries the names read from the display, or
    /// `Unknown` where there are none. A connector without modes gets no
    /// surface.
    pub fn new(crtc: u32, connector: &ConnectorInfo, buffers: usize) -> (r: Option<OutputSurface>)
        ensures
            match chosen_mode(connector.modes@) {
                Some(mode) => r is Some && r->0@ == new_surface(crtc, *connector, mode, buffers)
                    && r->0@.wf(),
                None => r is None,
            },
    {
        let mode = match select_mode(&connector.modes) {
            Some(mode) => mode,
            None => {
                return None;
            },
        };
        let name = connector_name(connector);
        let (make, model) = match &connector.edid {
            Some(info) => (info.manufacturer.clone(), info.model.clone()),
            None => (String::from_str("Unknown"), String::from_str("Unknown")),
        };
        let physical = PhysicalProperties {
            size: physical_size(connector.size),
            subpixel: connector.subpixel,
            make,
            model,
        };
        let mut output = Output::new(name, physical);
        let shown = mode.to_output_mode();
        output.set_preferred(shown);
        output.change_current_state(Some(shown), Some(Transform::Normal), Some(1), None);
        Some(
            OutputSurface {
                crtc,
                connector: connector.handle,
                mode,
                output,
                ages: unknown_ages(if buffers == 0 {
                    1
                } else {
                    buffers
                }),
                acquired: None,
                in_flight: None,
                front: None,
                active: true,
                damage: DamageTracker::new(),
            },
        )
    }

    /// The CRTC the surface is bound to.
    pub fn crtc(&self) -> (r: u32)
        ensures
            r == self@.crtc,
    {
        self.crtc
    }

    /// The connector the CRTC drives.
    pub fn connector(&self) -> (r: u32)
        ensures
            r == self@.connector,
    {
        self.connector
    }

    /// The hardware mode of the CRTC.
    pub fn mode(&self) -> (r: Mode)
        ensures
            r == self@.mode,
    {
        self.mode
    }

    /// The output the surface presents.
    pub fn output(&self) -> (r: &Output)
        ensures
            r@ == self@.output,
    {
        &self.output
    }

    /// Takes the surface apart into its output, when the surface is torn down.
    pub fn into_output(self) -> (r: Output)
        ensures
            r@ == self@.output,
    {
        self.output
    }

    /// Number of buffers in the ring.
    pub fn buffers(&self) -> (r: usize)
        ensures
            r == self@.ages.len(),
    {
        self.ages.len()
    }

    /// Number of buffers whose flip is pending: never more than one.
    pub fn in_flight_count(&self) -> (r: usize)
        ensures
            r == self@.in_flight_count(),
            r <= 1,
    {
        if self.in_flight.is_some() {
            1
        } else {
            0
        }
    }

    /// Whether the device may be touched.
    pub fn is_active(&self) -> (r: bool)
        ensures
            r == self@.active,
    {
        self.active
    }

    /// Stops the surface from touching the device; its buffers stay as they are.
    pub fn pause(&mut self)
        ensures
            final(self)@ == (SurfaceView { active: false, ..old(self)@ }),
    {
        self.active = false;
    }

    /// Lets the surface touch the device again; its buffers stay as they are.
    pub fn activate(&mut self)
        ensures
            final(self)@ == (SurfaceView { active: true, ..old(self)@ }),
    {
        self.active = true;
    }

    /// Hands out the buffer to draw the next frame into. While the device is
    /// paused the attempt fails for the moment. While a flip is pending no
    /// buffer is handed out. A buffer that was handed out and not queued is
    /// handed out again. Otherwise the first buffer that is not on screen is
    /// taken, and the attempt fails for the moment if there is none.
    pub fn acquire_buffer(&mut self) -> (r: Result<Frame, SwapBuffersError>)
        requires
            old(self)@.wf(),
        ensures
            r == old(self)@.acquire_result(),
            final(self)@ == old(self)@.after_acquire(),
            final(self)@.wf(),
    {
        if !self.active {
            return Err(SwapBuffersError::TemporaryFailure(Cause::DeviceInactive));
        }
        if self.in_flight.is_some() {
            return Err(SwapBuffersError::AlreadySwapped);
        }
        if let Some(buffer) = self.acquired {
            return Ok(Frame { buffer, age: self.ages[buffer] });
        }
        let ghost before = self@;
        let mut i: usize = 0;
        while i < self.ages.len()
            invariant
                i <= self.ages.len(),
                self@ == before,
                before == old(self)@,
                before.active && before.in_flight is None && before.acquired is None,
                before.wf(),
                first_free(self.ages@.len() as int, self.front, 0) == first_free(
                    self.ages@.len() as int,
                    self.front,
                    i as int,
                ),
            decreases self.ages.len() - i,
        {
            if self.front != Some(i) {
                self.acquired = Some(i);
                return Ok(Frame { buffer: i, age: self.ages[i] });
            }
            i += 1;
        }
        Err(SwapBuffersError::TemporaryFailure(Cause::NoFreeSlot))
    }

    /// Queues the drawn buffer for a page flip and returns it. The buffer is
    /// then in flight, one frame old, and every other buffer one frame older.
    /// Without a buffer handed out nothing is queued.
    pub fn queue_buffer(&mut self) -> (r: Option<usize>)
        requires
            old(self)@.wf(),
        ensures
            r == old(self)@.acquired,
            final(self)@ == old(self)@.after_queue(),
            final(self)@.wf(),
            r is Some ==> final(self)@.in_flight_count() == 1,
    {
        let buffer = match self.acquired {
            Some(buffer) => buffer,
            None => {
                return None;
            },
        };
        let ghost before = self.ages@;
        let ghost start = self@;
        let mut i: usize = 0;
        while i < self.ages.len()
            invariant
                i <= self.ages.len(),
                self.ages@.len() == before.len(),
                self@ == (SurfaceView { ages: self.ages@, ..start }),
                start.wf(),
                start.acquired == Some(buffer),
                start.ages == before,
                forall|j: int| 0 <= j < i ==> self.ages@[j] == ages_after_queue(before, buffer as int)[j],
                forall|j: int| i <= j < before.len() ==> self.ages@[j] == before[j],
            decreases self.ages.len() - i,
        {
            let age = self.ages[i];
            let next: u8 = if i == buffer {
                1
            } else if age == AGE_UNKNOWN {
                AGE_UNKNOWN
            } else if age == u8::MAX {
                u8::MAX
            } else {
                age + 1
            };
            self.ages.set(i, next);
            i += 1;
        }
        assert(self.ages@ =~= ages_after_queue(before, buffer as int));
        self.acquired = None;
        self.in_flight = Some(buffer);
        Some(buffer)
    }

    /// Takes note that the hardware confirmed the pending flip. The buffer in
    /// flight is then on screen, the one that was on screen is free, and
    /// nothing is in flight. Returns whether a flip was pending.
    pub fn frame_submitted(&mut self) -> (r: bool)
        requires
            old(self)@.wf(),
        ensures
            r == (old(self)@.in_flight is Some),
            final(self)@ == old(self)@.after_submitted(),
            final(self)@.wf(),
            final(self)@.in_flight_count() == 0,
    {
        match self.in_flight {
            Some(buffer) => {
                self.front = Some(buffer);
                self.in_flight = None;
                true
            },
            None => false,
        }
    }

    /// Takes note that the hardware refused the flip of the queued buffer.
    /// The buffer is free again, with content that counts as unknown.
    pub fn flip_failed(&mut self)
        requires
            old(self)@.wf(),
        ensures
            final(self)@ == old(self)@.after_flip_failed(),
            final(self)@.wf(),
            final(self)@.in_flight_count() == 0,
    {
        if let Some(buffer) = self.in_flight {
            self.ages.set(buffer, AGE_UNKNOWN);
            self.in_flight = None;
        }
    }

    /// Records the regions that the frame being drawn changes.
    pub fn record_damage(&mut self, damage: Vec<Rectangle>)
        ensures
            final(self)@ == (SurfaceView { damage: recorded(old(self)@.damage, damage), ..old(self)@ }),
    {
        self.damage.record(damage);
    }

    /// Says what a buffer of the given age has to redraw: everything where
    /// the age is unknown or reaches further back than the recorded damage,
    /// else the regions that changed in the frames the buffer missed.
    pub fn redraw(&self, age: u8) -> (r: Redraw)
        ensures
            r is Partial <==> repairable(self@.damage, age),
            r matches Redraw::Partial(regions) ==> regions@ == joined(self@.damage, age as int),
            age == AGE_UNKNOWN ==> r is Full,
    {
        self.damage.redraw(age)
    }

    /// Forgets what the buffers hold, as after a mode change or when the
    /// session comes back: nothing is handed out, in flight or on screen,
    /// every buffer's age is unknown and no damage is remembered.
    pub fn reset_buffers(&mut self)
        requires
            old(self)@.wf(),
        ensures
            final(self)@ == old(self)@.after_reset(),
            final(self)@.wf(),
            final(self)@.in_flight_count() == 0,
    {
        self.ages = unknown_ages(self.ages.len());
        self.acquired = None;
        self.in_flight = None;
        self.front = None;
        self.damage.reset();
    }
}

/// A buffer is handed out only while nothing is in flight: after a buffer
/// was queued, every attempt to acquire another fails until the flip is
/// confirmed.
pub proof fn lemma_no_buffer_while_in_flight(s: SurfaceView)
    requires
        s.wf(),
        s.acquired is Some,
    ensures
        s.after_queue().acquire_result() is Err,
        s.after_queue().after_acquire() == s.after_queue(),
        s.active ==> s.after_queue().acquire_result() == Err::<Frame, SwapBuffersError>(
            SwapBuffersError::AlreadySwapped,
        ),
        s.after_queue().in_flight_count() == 1,
        s.after_queue().after_submitted().in_flight_count() == 0,
{
}

} // verus!
