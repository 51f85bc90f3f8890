//! One GPU device: its surfaces, one per bound CRTC, and what happens to them
//! when connectors change, frames are due, and the session comes and goes.

use vstd::prelude::*;
use crate::connector::{ConnectorInfo, Resources};
use crate::event::Action;
use crate::scanner::{
    connected_in, find_connector, injective, rescan, survivors, usable_position, Binding,
    DrmScanner,
};
use crate::scheduler::{after_failure, without_device, Scheduler, Task, TaskKind};
use crate::surface::{
    new_surface, views, Cause, Frame, OutputSurface, SurfaceView, SwapBuffersError,
};
use crate::mode::chosen_mode;

verus! {

/// What a scan changed on a device.
#[derive(Debug)]
pub struct Changes {
    /// The surfaces that were torn down, oldest first. Their outputs are gone.
    pub removed: Vec<OutputSurface>,
    /// The bindings whose surfaces were created, in the order of the
    /// connectors. Their outputs are new.
    pub added: Vec<Binding>,
}

/// One open GPU device.
#[derive(Debug)]
pub struct Device {
    node: u64,
    render_node: u64,
    accelerated: bool,
    active: bool,
    lost: bool,
    scanner: DrmScanner,
    surfaces: Vec<OutputSurface>,
}

/// The value of a device.
pub struct DeviceView {
    /// Identifier of the device.
    pub node: u64,
    /// Identifier of the render node of the device's GPU.
    pub render_node: u64,
    /// Whether clients hand buffers to this GPU directly.
    pub accelerated: bool,
    /// Whether the device may be touched.
    pub active: bool,
    /// Whether the device lost its rendering context. Such a device is asked
    /// for no frame any more.
    pub lost: bool,
    /// Which connector is bound to which CRTC, oldest binding first.
    pub bindings: Seq<Binding>,
    /// The surface of each binding, in the same order.
    pub surfaces: Seq<SurfaceView>,
}

/// Position of the first surface at or after `from` that is bound to the CRTC.
pub open spec fn surface_position(surfaces: Seq<SurfaceView>, crtc: u32, from: int) -> Option<int>
    decreases surfaces.len() - from,
{
    if from < 0 || from >= surfaces.len() {
        None
    } else if surfaces[from].crtc == crtc {
        Some(from)
    } else {
        surface_position(surfaces, crtc, from + 1)
    }
}

/// The renders scheduled after the first `n` surfaces tried to take a buffer:
/// each failure is handled in turn.
pub open spec fn attempt_tasks(surfaces: Seq<SurfaceView>, node: u64, tasks: Seq<Task>, now: u64, n: int)
    -> Seq<Task>
    decreases n,
{
    if n <= 0 {
        tasks
    } else {
        let before = attempt_tasks(surfaces, node, tasks, now, n - 1);
        match surfaces[n - 1].acquire_result() {
            Ok(_) => before,
            Err(error) => after_failure(before, node, surfaces[n - 1].crtc, error, now),
        }
    }
}

/// The frames to draw after the first `n` surfaces tried to take a buffer:
/// one for each surface that got one, in order.
pub open spec fn attempt_actions(surfaces: Seq<SurfaceView>, node: u64, blank: bool, n: int) -> Seq<
    Action,
>
    decreases n,
{
    if n <= 0 {
        Seq::empty()
    } else {
        let before = attempt_actions(surfaces, node, blank, n - 1);
        match surfaces[n - 1].acquire_result() {
            Ok(frame) => before.push(Action::Draw { node, crtc: surfaces[n - 1].crtc, frame, blank }),
            Err(_) => before,
        }
    }
}

/// The surfaces whose connector is still usable, in their old order.
pub open spec fn staying(surfaces: Seq<SurfaceView>, connectors: Seq<ConnectorInfo>) -> Seq<
    SurfaceView,
> {
    surfaces.filter(|s: SurfaceView| connected_in(connectors, s.connector))
}

/// The surfaces whose connector is gone or no longer usable, in their old order.
pub open spec fn leaving(surfaces: Seq<SurfaceView>, connectors: Seq<ConnectorInfo>) -> Seq<
    SurfaceView,
> {
    surfaces.filter(|s: SurfaceView| !connected_in(connectors, s.connector))
}

/// The bindings that a scan makes, in the order of the connectors.
pub open spec fn added_bindings(bindings: Seq<Binding>, res: Resources) -> Seq<Binding> {
    rescan(bindings, res).skip(survivors(bindings, res.connectors@).len() as int)
}

/// The surface created for a new binding: that of the first usable connector
/// with the binding's handle, paused if its device is.
pub open spec fn created_surface(res: Resources, binding: Binding, buffers: usize, active: bool)
    -> SurfaceView {
    let connector = res.connectors@[usable_position(res.connectors@, binding.connector, 0)->0];
    SurfaceView {
        active,
        ..new_surface(binding.crtc, connector, chosen_mode(connector.modes@)->0, buffers)
    }
}

/// The first, blank frames that are scheduled for new surfaces.
pub open spec fn initial_tasks(node: u64, added: Seq<Binding>, now: u64) -> Seq<Task> {
    Seq::new(
        added.len(),
        |j: int| Task { node, crtc: added[j].crtc, due: now, kind: TaskKind::Initial },
    )
}

impl DeviceView {
    /// The device after a scan: bindings end and are made as the scanner
    /// rules, surfaces whose binding ended are gone, the others stay as they
    /// are, and each new binding has a new surface.
    pub open spec fn rescanned(self, res: Resources, buffers: usize) -> DeviceView {
        let added = added_bindings(self.bindings, res);
        DeviceView {
            bindings: rescan(self.bindings, res),
            surfaces: staying(self.surfaces, res.connectors@) + Seq::new(
                added.len(),
                |j: int| created_surface(res, added[j], buffers, self.active),
            ),
            ..self
        }
    }

    /// Whether a drawn frame of the device may go to the hardware: the
    /// device may be touched and has not lost its context.
    pub open spec fn presents(self) -> bool {
        self.active && !self.lost
    }

    /// The device after a frame of a CRTC was drawn, or failed to be drawn.
    /// A drawn frame is queued for its flip where the device may be touched
    /// and has its context. A lost context is recorded. Nothing else changes
    /// the device.
    pub open spec fn frame_done(self, crtc: u32, outcome: Result<bool, SwapBuffersError>) -> DeviceView {
        match self.position(crtc) {
            Some(k) => match outcome {
                Ok(true) => if self.presents() {
                    DeviceView {
                        surfaces: self.surfaces.update(k, self.surfaces[k].after_queue()),
                        ..self
                    }
                } else {
                    self
                },
                Ok(false) => self,
                Err(error) => if error is ContextLost {
                    DeviceView { lost: true, ..self }
                } else {
                    self
                },
            },
            None => self,
        }
    }

    /// What the caller is asked to do after a frame of a CRTC was drawn: flip
    /// to the buffer, where a buffer was drawn into and the device may be
    /// touched and has its context. Nothing is asked in any other case.
    pub open spec fn frame_actions(self, crtc: u32, outcome: Result<bool, SwapBuffersError>) -> Seq<
        Action,
    > {
        match self.position(crtc) {
            Some(k) => match self.surfaces[k].acquired {
                Some(buffer) => if outcome == Ok::<bool, SwapBuffersError>(true) && self.presents() {
                    seq![Action::PageFlip { node: self.node, crtc, buffer }]
                } else {
                    Seq::empty()
                },
                None => Seq::empty(),
            },
            None => Seq::empty(),
        }
    }

    /// The renders scheduled after a failure of a frame or of a flip of the
    /// device: a lost context takes every render of the device off the
    /// list; a device that lost its context before schedules nothing; any
    /// other failure is handled as the scheduler rules.
    pub open spec fn failure_tasks(self, crtc: u32, error: SwapBuffersError, tasks: Seq<Task>, now: u64)
        -> Seq<Task> {
        if error is ContextLost {
            without_device(tasks, self.node)
        } else if self.lost {
            tasks
        } else {
            after_failure(tasks, self.node, crtc, error, now)
        }
    }

    /// The renders scheduled after a frame of a CRTC was drawn or failed: a
    /// frame that had nothing to draw is due again at once, unless the
    /// device lost its context; a failure is handled as `failure_tasks` says.
    pub open spec fn frame_tasks(
        self,
        crtc: u32,
        outcome: Result<bool, SwapBuffersError>,
        tasks: Seq<Task>,
        now: u64,
    ) -> Seq<Task> {
        match self.position(crtc) {
            Some(_) => match outcome {
                Ok(true) => tasks,
                Ok(false) => if self.lost {
                    tasks
                } else {
                    tasks.push(Task { node: self.node, crtc, due: now, kind: TaskKind::Idle })
                },
                Err(error) => self.failure_tasks(crtc, error, tasks, now),
            },
            None => tasks,
        }
    }

    /// The lost context that ends the device's rendering, where the drawing
    /// of a frame of one of its surfaces reported one.
    pub open spec fn frame_fatal(self, crtc: u32, outcome: Result<bool, SwapBuffersError>) -> Option<
        Cause,
    > {
        match self.position(crtc) {
            Some(_) => match outcome {
                Err(SwapBuffersError::ContextLost(cause)) => Some(cause),
                _ => None,
            },
            None => None,
        }
    }

    /// The device after the flip of a CRTC was refused: the queued buffer is
    /// free again, and a lost context is recorded.
    pub open spec fn flip_refused(self, crtc: u32, error: SwapBuffersError) -> DeviceView {
        match self.position(crtc) {
            Some(k) => DeviceView {
                surfaces: self.surfaces.update(k, self.surfaces[k].after_flip_failed()),
                lost: self.lost || error is ContextLost,
                ..self
            },
            None => self,
        }
    }

    /// The renders scheduled after the flip of a CRTC was refused.
    pub open spec fn flip_tasks(self, crtc: u32, error: SwapBuffersError, tasks: Seq<Task>, now: u64)
        -> Seq<Task> {
        match self.position(crtc) {
            Some(_) => self.failure_tasks(crtc, error, tasks, now),
            None => tasks,
        }
    }

    /// What the caller is asked to do once the hardware accepted the flip of
    /// a CRTC: tell the scene that a frame was consumed, where the surface
    /// of the CRTC has a flip in flight and the device has its context.
    pub open spec fn flip_actions(self, crtc: u32) -> Seq<Action> {
        match self.position(crtc) {
            Some(k) => if self.surfaces[k].in_flight is Some && !self.lost {
                seq![Action::FrameConsumed { node: self.node, crtc }]
            } else {
                Seq::empty()
            },
            None => Seq::empty(),
        }
    }

    /// The first, blank frames scheduled by a scan: one for each new surface,
    /// and none where the device lost its context.
    pub open spec fn scan_tasks(self, res: Resources, now: u64) -> Seq<Task> {
        if self.lost {
            Seq::empty()
        } else {
            initial_tasks(self.node, added_bindings(self.bindings, res), now)
        }
    }

    /// The bindings are injective, every binding has its surface, and every
    /// surface is well formed and paused or active with its device.
    pub open spec fn wf(self) -> bool {
        &&& injective(self.bindings)
        &&& self.bindings.len() == self.surfaces.len()
        &&& forall|i: int|
            0 <= i < self.surfaces.len() ==> {
                &&& (#[trigger] self.surfaces[i]).wf()
                &&& self.surfaces[i].crtc == self.bindings[i].crtc
                &&& self.surfaces[i].connector == self.bindings[i].connector
                &&& self.surfaces[i].active == self.active
            }
    }

    /// Position of the surface bound to a CRTC.
    pub open spec fn position(self, crtc: u32) -> Option<int> {
        surface_position(self.surfaces, crtc, 0)
    }

    /// The device while its session is paused: nothing is lost, nothing may
    /// touch the hardware.
    pub open spec fn paused(self) -> DeviceView {
        DeviceView {
            active: false,
            surfaces: Seq::new(
                self.surfaces.len(),
                |i: int| SurfaceView { active: false, ..self.surfaces[i] },
            ),
            ..self
        }
    }

    /// The device when its session came back: every surface may touch the
    /// hardware again and has forgotten what its buffers hold.
    pub open spec fn activated(self) -> DeviceView {
        DeviceView {
            active: true,
            surfaces: Seq::new(
                self.surfaces.len(),
                |i: int| SurfaceView { active: true, ..self.surfaces[i].after_reset() },
            ),
            ..self
        }
    }

    /// The resets that the caller is asked for when the session came back.
    pub open spec fn reset_actions(self) -> Seq<Action> {
        Seq::new(
            self.surfaces.len(),
            |i: int| Action::ResetSurface { node: self.node, crtc: self.surfaces[i].crtc },
        )
    }

    /// The device after the flip of a CRTC was confirmed.
    pub open spec fn submitted(self, crtc: u32) -> DeviceView {
        match self.position(crtc) {
            Some(k) => DeviceView {
                surfaces: self.surfaces.update(k, self.surfaces[k].after_submitted()),
                ..self
            },
            None => self,
        }
    }

    /// The device after frames were asked for: of the surface of the given
    /// CRTC, or of every surface where none is given. Each surface asked
    /// tried to take a buffer; no other surface changed. A device that lost
    /// its context is asked for nothing and does not change.
    pub open spec fn rendered(self, crtc: Option<u32>) -> DeviceView {
        if self.lost {
            self
        } else {
            self.asked(crtc)
        }
    }

    /// The device after the surfaces asked tried to take a buffer.
    pub open spec fn asked(self, crtc: Option<u32>) -> DeviceView {
        match crtc {
            Some(crtc) => match self.position(crtc) {
                Some(k) => DeviceView {
                    surfaces: self.surfaces.update(k, self.surfaces[k].after_acquire()),
                    ..self
                },
                None => self,
            },
            None => DeviceView {
                surfaces: Seq::new(self.surfaces.len(), |i: int| self.surfaces[i].after_acquire()),
                ..self
            },
        }
    }

    /// The renders scheduled after frames were asked for: none more where
    /// the device lost its context.
    pub open spec fn render_tasks(self, crtc: Option<u32>, tasks: Seq<Task>, now: u64) -> Seq<Task> {
        if self.lost {
            tasks
        } else {
            match crtc {
                Some(crtc) => match self.position(crtc) {
                    Some(k) => match self.surfaces[k].acquire_result() {
                        Ok(_) => tasks,
                        Err(error) => after_failure(tasks, self.node, crtc, error, now),
                    },
                    None => tasks,
                },
                None => attempt_tasks(self.surfaces, self.node, tasks, now, self.surfaces.len() as int),
            }
        }
    }

    /// The frames to draw after frames were asked for: none where the
    /// device lost its context.
    pub open spec fn render_actions(self, crtc: Option<u32>, blank: bool) -> Seq<Action> {
        if self.lost {
            Seq::empty()
        } else {
            match crtc {
                Some(crtc) => match self.position(crtc) {
                    Some(k) => match self.surfaces[k].acquire_result() {
                        Ok(frame) => seq![Action::Draw { node: self.node, crtc, frame, blank }],
                        Err(_) => Seq::empty(),
                    },
                    None => Seq::empty(),
                },
                None => attempt_actions(self.surfaces, self.node, blank, self.surfaces.len() as int),
            }
        }
    }
}

impl View for Device {
    type V = DeviceView;

    closed spec fn view(&self) -> DeviceView {
        DeviceView {
            node: self.node,
            render_node: self.render_node,
            accelerated: self.accelerated,
            active: self.active,
            lost: self.lost,
            bindings: self.scanner.bindings(),
            surfaces: views(self.surfaces@),
        }
    }
}

impl Device {
    /// A device that was just opened: active, with no surface yet.
    pub fn new(node: u64, render_node: u64, accelerated: bool) -> (r: Device)
        ensures
            r@ == (DeviceView {
                node,
                render_node,
                accelerated,
                active: true,
                lost: false,
                bindings: Seq::empty(),
                surfaces: Seq::empty(),
            }),
            r@.wf(),
    {
        let r = Device {
            node,
            render_node,
            accelerated,
            active: true,
            lost: false,
            scanner: DrmScanner::new(),
            surfaces: Vec::new(),
        };
        assert(views(r.surfaces@) =~= Seq::empty());
        r
    }

    /// Identifier of the device.
    pub fn node(&self) -> (r: u64)
        ensures
            r == self@.node,
    {
        self.node
    }

    /// Identifier of the render node of the device's GPU.
    pub fn render_node(&self) -> (r: u64)
        ensures
            r == self@.render_node,
    {
        self.render_node
    }

    /// Whether clients hand buffers to this GPU directly.
    pub fn is_accelerated(&self) -> (r: bool)
        ensures
            r == self@.accelerated,
    {
        self.accelerated
    }

    /// Whether the device lost its rendering context.
    pub fn is_lost(&self) -> (r: bool)
        ensures
            r == self@.lost,
    {
        self.lost
    }

    /// Whether the device may be touched.
    pub fn is_active(&self) -> (r: bool)
        ensures
            r == self@.active,
    {
        self.active
    }

    /// The surfaces of the device, oldest binding first.
    pub fn surfaces(&self) -> (r: &Vec<OutputSurface>)
        ensures
            views(r@) == self@.surfaces,
    {
        &self.surfaces
    }

    /// Position of the surface bound to a CRTC.
    pub fn find_surface(&self, crtc: u32) -> (r: Option<usize>)
        ensures
            match r {
                Some(k) => self@.position(crtc) == Some(k as int),
                None => self@.position(crtc) is None,
            },
            r matches Some(k) ==> k < self@.surfaces.len() && self@.surfaces[k as int].crtc == crtc,
    {
        let mut i: usize = 0;
        while i < self.surfaces.len()
            invariant
                i <= self.surfaces.len(),
                self@.surfaces == views(self.surfaces@),
                surface_position(self@.surfaces, crtc, 0) == surface_position(
                    self@.surfaces,
                    crtc,
                    i as int,
                ),
            decreases self.surfaces.len() - i,
        {
            if self.surfaces[i].crtc() == crtc {
                return Some(i);
            }
            i += 1;
        }
        None
    }

    /// The surface bound to a CRTC, if there is one.
    pub fn surface(&self, crtc: u32) -> (r: Option<&OutputSurface>)
        ensures
            match self@.position(crtc) {
                Some(k) => r is Some && r->0@ == self@.surfaces[k],
                None => r is None,
            },
    {
        match self.find_surface(crtc) {
            Some(k) => Some(&self.surfaces[k]),
            None => None,
        }
    }

    /// Stops the device and its surfaces from touching the hardware. No
    /// surface is lost and no buffer changes its part.
    pub fn pause(&mut self)
        requires
            old(self)@.wf(),
        ensures
            final(self)@ == old(self)@.paused(),
            final(self)@.wf(),
    {
        self.active = false;
        let mut i: usize = 0;
        while i < self.surfaces.len()
            invariant
                i <= self.surfaces.len(),
                self.surfaces@.len() == old(self).surfaces@.len(),
                self.node == old(self).node,
                self.render_node == old(self).render_node,
                self.accelerated == old(self).accelerated,
                self.lost == old(self).lost,
                self.scanner == old(self).scanner,
                !self.active,
                forall|j: int|
                    0 <= j < i ==> (#[trigger] self.surfaces@[j])@ == (SurfaceView {
                        active: false,
                        ..old(self).surfaces@[j]@
                    }),
                forall|j: int|
                    i <= j < self.surfaces@.len() ==> (#[trigger] self.surfaces@[j]) == old(
                        self,
                    ).surfaces@[j],
            decreases self.surfaces.len() - i,
        {
            self.surfaces[i].pause();
            i += 1;
        }
        assert(self@.surfaces =~= old(self)@.paused().surfaces);
    }

    /// Takes the device into use again. Every surface may touch the hardware
    /// again and forgets what its buffers hold. Returns the resets that the
    /// caller is asked for, one for each surface in order.
    pub fn activate(&mut self) -> (r: Vec<Action>)
        requires
            old(self)@.wf(),
        ensures
            final(self)@ == old(self)@.activated(),
            final(self)@.wf(),
            r@ == old(self)@.reset_actions(),
    {
        self.active = true;
        let mut actions: Vec<Action> = Vec::new();
        let mut i: usize = 0;
        while i < self.surfaces.len()
            invariant
                i <= self.surfaces.len(),
                self.surfaces@.len() == old(self).surfaces@.len(),
                self.node == old(self).node,
                self.render_node == old(self).render_node,
                self.accelerated == old(self).accelerated,
                self.lost == old(self).lost,
                self.scanner == old(self).scanner,
                self.active,
                old(self)@.wf(),
                actions@.len() == i,
                forall|j: int|
                    0 <= j < i ==> (#[trigger] self.surfaces@[j])@ == (SurfaceView {
                        active: true,
                        ..old(self).surfaces@[j]@.after_reset()
                    }),
                forall|j: int|
                    0 <= j < i ==> (#[trigger] actions@[j]) == (Action::ResetSurface {
                        node: self.node,
                        crtc: old(self).surfaces@[j]@.crtc,
                    }),
                forall|j: int|
                    i <= j < self.surfaces@.len() ==> (#[trigger] self.surfaces@[j]) == old(
                        self,
                    ).surfaces@[j],
            decreases self.surfaces.len() - i,
        {
            assert(old(self)@.surfaces[i as int].wf());
            self.surfaces[i].reset_buffers();
            self.surfaces[i].activate();
            actions.push(Action::ResetSurface { node: self.node, crtc: self.surfaces[i].crtc() });
            i += 1;
        }
        assert(self@.surfaces =~= old(self)@.activated().surfaces);
        actions
    }

    /// Takes note that the hardware confirmed the flip of a CRTC. Returns
    /// whether that CRTC has a surface with a flip pending.
    pub fn frame_submitted(&mut self, crtc: u32) -> (r: bool)
        requires
            old(self)@.wf(),
        ensures
            final(self)@ == old(self)@.submitted(crtc),
            final(self)@.wf(),
            r == (old(self)@.position(crtc) matches Some(k) && old(self)@.surfaces[k].in_flight
                is Some),
    {
        match self.find_surface(crtc) {
            Some(k) => {
                let confirmed = self.surfaces[k].frame_submitted();
                assert(self@.surfaces =~= old(self)@.submitted(crtc).surfaces);
                confirmed
            },
            None => false,
        }
    }

    /// Asks for a frame of the surface of the given CRTC, or of every surface
    /// where none is given. Each surface asked tries to take a buffer. Where
    /// it gets one, the caller is asked to draw into it. Where it fails, the
    /// failure is handled as the scheduler rules. A CRTC without a surface
    /// asks for nothing, and so does a device that lost its context.
    pub fn render(&mut self, crtc: Option<u32>, blank: bool, scheduler: &mut Scheduler, now: u64) -> (r:
        Vec<Action>)
        requires
            old(self)@.wf(),
        ensures
            final(self)@ == old(self)@.rendered(crtc),
            final(self)@.wf(),
            final(scheduler)@ == old(self)@.render_tasks(crtc, old(scheduler)@, now),
            r@ == old(self)@.render_actions(crtc, blank),
    {
        let mut actions: Vec<Action> = Vec::new();
        if self.lost {
            return actions;
        }
        match crtc {
            Some(crtc) => {
                if let Some(k) = self.find_surface(crtc) {
                    match self.surfaces[k].acquire_buffer() {
                        Ok(frame) => {
                            actions.push(Action::Draw { node: self.node, crtc, frame, blank });
                        },
                        Err(error) => {
                            let _ = scheduler.on_failure(self.node, crtc, error, now);
                        },
                    }
                    assert(self@.surfaces =~= old(self)@.rendered(Some(crtc)).surfaces);
                }
            },
            None => {
                let ghost before = old(self)@.surfaces;
                let ghost tasks = old(scheduler)@;
                let mut i: usize = 0;
                while i < self.surfaces.len()
                    invariant
                        i <= self.surfaces.len(),
                        self.surfaces@.len() == old(self).surfaces@.len(),
                        before == views(old(self).surfaces@),
                        old(self)@.wf(),
                        self.node == old(self).node,
                        self.render_node == old(self).render_node,
                        self.accelerated == old(self).accelerated,
                        self.lost == old(self).lost,
                self.lost == old(self).lost,
                        self.active == old(self).active,
                        self.scanner == old(self).scanner,
                        scheduler@ == attempt_tasks(before, self.node, tasks, now, i as int),
                        actions@ == attempt_actions(before, self.node, blank, i as int),
                        forall|j: int|
                            0 <= j < i ==> (#[trigger] self.surfaces@[j])@ == before[j].after_acquire()
                                && self.surfaces@[j]@.wf(),
                        forall|j: int|
                            i <= j < self.surfaces@.len() ==> (#[trigger] self.surfaces@[j]) == old(
                                self,
                            ).surfaces@[j],
                    decreases self.surfaces.len() - i,
                {
                    let target = self.surfaces[i].crtc();
                    match self.surfaces[i].acquire_buffer() {
                        Ok(frame) => {
                            actions.push(Action::Draw { node: self.node, crtc: target, frame, blank });
                        },
                        Err(error) => {
                            let _ = scheduler.on_failure(self.node, target, error, now);
                        },
                    }
                    i += 1;
                }
                assert(self@.surfaces =~= old(self)@.rendered(None).surfaces);
            },
        }
        actions
    }

    /// Takes note of how the drawing of a frame went. A drawn frame is queued
    /// and the caller is asked to flip to its buffer, but only where the
    /// device may be touched and has its context. A frame that had nothing
    /// to draw is due again as soon as the loop is idle. A failure is
    /// handled as the scheduler rules. A lost context is recorded, takes
    /// every render of the device off the list, and is handed back as the
    /// error. A CRTC without a surface changes nothing.
    pub fn frame_rendered(
        &mut self,
        crtc: u32,
        outcome: Result<bool, SwapBuffersError>,
        scheduler: &mut Scheduler,
        now: u64,
    ) -> (r: Result<Vec<Action>, Cause>)
        requires
            old(self)@.wf(),
        ensures
            final(self)@.wf(),
            final(scheduler)@ == old(self)@.frame_tasks(crtc, outcome, old(scheduler)@, now),
            final(self)@ == old(self)@.frame_done(crtc, outcome),
            match old(self)@.frame_fatal(crtc, outcome) {
                Some(cause) => r == Err::<Vec<Action>, Cause>(cause),
                None => r is Ok && r->Ok_0@ == old(self)@.frame_actions(crtc, outcome),
            },
    {
        let k = match self.find_surface(crtc) {
            Some(k) => k,
            None => {
                return Ok(Vec::new());
            },
        };
        let mut actions: Vec<Action> = Vec::new();
        match outcome {
            Ok(true) => {
                if self.active && !self.lost {
                    if let Some(buffer) = self.surfaces[k].queue_buffer() {
                        actions.push(Action::PageFlip { node: self.node, crtc, buffer });
                    }
                    assert(self@.surfaces =~= old(self)@.frame_done(crtc, outcome).surfaces);
                }
                Ok(actions)
            },
            Ok(false) => {
                if !self.lost {
                    scheduler.schedule_idle(self.node, crtc, now);
                }
                Ok(actions)
            },
            Err(error) => match self.fail(crtc, error, scheduler, now) {
                Some(cause) => Err(cause),
                None => Ok(actions),
            },
        }
    }

    /// Handles a failure of a frame or of a flip of the device. A lost
    /// context is recorded and takes every render of the device off the
    /// list. A device that lost its context before schedules nothing. Any
    /// other failure is handled as the scheduler rules.
    fn fail(&mut self, crtc: u32, error: SwapBuffersError, scheduler: &mut Scheduler, now: u64) -> (r:
        Option<Cause>)
        ensures
            final(self)@ == (DeviceView { lost: old(self)@.lost || error is ContextLost, ..old(self)@ }),
            final(scheduler)@ == old(self)@.failure_tasks(crtc, error, old(scheduler)@, now),
            r == match error {
                SwapBuffersError::ContextLost(cause) => Some(cause),
                _ => None,
            },
    {
        match error {
            SwapBuffersError::ContextLost(cause) => {
                self.lost = true;
                let _ = scheduler.cancel_device(self.node);
                Some(cause)
            },
            _ => {
                if !self.lost {
                    let _ = scheduler.on_failure(self.node, crtc, error, now);
                }
                None
            },
        }
    }

    /// Takes note that the hardware accepted the flip of a CRTC. Where the
    /// surface of the CRTC has a flip in flight and the device has its
    /// context, the caller is asked to tell the scene that a frame was
    /// consumed. Nothing changes.
    pub fn flip_queued(&self, crtc: u32) -> (r: Vec<Action>)
        ensures
            r@ == self@.flip_actions(crtc),
    {
        let mut actions: Vec<Action> = Vec::new();
        if let Some(k) = self.find_surface(crtc) {
            if self.surfaces[k].in_flight_count() > 0 && !self.lost {
                actions.push(Action::FrameConsumed { node: self.node, crtc });
            }
        }
        actions
    }

    /// Takes note that the hardware refused the flip of a CRTC. The queued
    /// buffer is free again. The failure is handled as the scheduler rules.
    /// A lost context is recorded, takes every render of the device off the
    /// list, and is handed back as the error.
    pub fn flip_failed(&mut self, crtc: u32, error: SwapBuffersError, scheduler: &mut Scheduler, now: u64)
        -> (r: Result<(), Cause>)
        requires
            old(self)@.wf(),
        ensures
            final(self)@ == old(self)@.flip_refused(crtc, error),
            final(self)@.wf(),
            final(scheduler)@ == old(self)@.flip_tasks(crtc, error, old(scheduler)@, now),
            r is Err <==> old(self)@.position(crtc) is Some && error is ContextLost,
            r matches Err(cause) ==> error == SwapBuffersError::ContextLost(cause),
    {
        let k = match self.find_surface(crtc) {
            Some(k) => k,
            None => {
                return Ok(());
            },
        };
        self.surfaces[k].flip_failed();
        assert(self@.surfaces =~= old(self)@.flip_refused(crtc, error).surfaces);
        match self.fail(crtc, error, scheduler, now) {
            Some(cause) => Err(cause),
            None => Ok(()),
        }
    }

    /// Scans the device's connectors. Surfaces whose connector is no longer
    /// usable are torn down and handed back. Every usable connector without a
    /// surface takes its turn for a CRTC as the scanner rules, and each one
    /// that gets a CRTC gets a surface, with its first, blank frame scheduled
    /// as soon as the loop is idle, unless the device lost its context.
    /// Surfaces whose connector stays usable are not touched.
    pub fn rescan(&mut self, res: &Resources, buffers: usize, scheduler: &mut Scheduler, now: u64) -> (r:
        Changes)
        requires
            old(self)@.wf(),
        ensures
            final(self)@ == old(self)@.rescanned(*res, buffers),
            final(self)@.wf(),
            views(r.removed@) == leaving(old(self)@.surfaces, res.connectors@),
            r.added@ == added_bindings(old(self)@.bindings, *res),
            final(scheduler)@ == old(scheduler)@ + old(self)@.scan_tasks(*res, now),
    {
        let ghost start = old(self)@;
        let ghost connectors = res.connectors@;
        let ghost tasks = old(scheduler)@;
        let result = self.scanner.scan_connectors(res);
        let mut rest: Vec<OutputSurface> = Vec::new();
        std::mem::swap(&mut self.surfaces, &mut rest);
        let mut removed: Vec<OutputSurface> = Vec::new();
        let ghost mut moved: int = 0;
        proof {
            reveal(Seq::filter);
        }
        while rest.len() > 0
            invariant
                0 <= moved <= start.surfaces.len(),
                rest@.len() == start.surfaces.len() - moved,
                views(rest@) == start.surfaces.skip(moved),
                views(self.surfaces@) == staying(start.surfaces.take(moved), connectors),
                views(removed@) == leaving(start.surfaces.take(moved), connectors),
                connectors == res.connectors@,
                self.node == old(self).node,
                self.render_node == old(self).render_node,
                self.accelerated == old(self).accelerated,
                self.lost == old(self).lost,
                self.active == old(self).active,
                self.scanner.bindings() == rescan(start.bindings, *res),
            decreases rest.len(),
        {
            let surface = rest.remove(0);
            proof {
                reveal(Seq::filter);
                assert(start.surfaces.skip(moved)[0] == start.surfaces[moved]);
                assert forall|i: int| 0 <= i < rest@.len() implies views(rest@)[i] == start.surfaces.skip(
                    moved + 1,
                )[i] by {
                    assert(start.surfaces.skip(moved)[i + 1] == start.surfaces[moved + i + 1]);
                }
                assert(start.surfaces.take(moved + 1).drop_last() =~= start.surfaces.take(moved));
            }
            if find_connector(&res.connectors, surface.connector()).is_some() {
                self.surfaces.push(surface);
            } else {
                removed.push(surface);
            }
            proof {
                moved = moved + 1;
            }
        }
        proof {
            assert(start.surfaces.take(start.surfaces.len() as int) =~= start.surfaces);
            lemma_staying_parallel(start.bindings, start.surfaces, connectors);
            crate::scanner::lemma_survivors(start.bindings, connectors);
            crate::scanner::lemma_bind_upto(
                res.crtcs@,
                connectors,
                survivors(start.bindings, connectors),
                connectors.len() as int,
            );
        }
        let ghost kept = staying(start.surfaces, connectors);
        let ghost all = rescan(start.bindings, *res);
        let ghost added = added_bindings(start.bindings, *res);
        let mut j: usize = 0;
        while j < result.connected.len()
            invariant
                j <= result.connected.len(),
                result.connected@ == added,
                added == all.skip(kept.len() as int),
                kept.len() <= all.len(),
                kept.len() == survivors(start.bindings, connectors).len(),
                all == rescan(start.bindings, *res),
                connectors == res.connectors@,
                forall|k: int|
                    kept.len() <= k < all.len() ==> connected_in(connectors, (#[trigger] all[k]).connector),
                views(self.surfaces@) == kept + Seq::new(
                    j as nat,
                    |i: int| created_surface(*res, added[i], buffers, start.active),
                ),
                scheduler@ == tasks + if start.lost {
                    Seq::empty()
                } else {
                    initial_tasks(start.node, added.take(j as int), now)
                },
                self.node == start.node,
                self.render_node == start.render_node,
                self.accelerated == start.accelerated,
                self.lost == start.lost,
                self.active == start.active,
                self.scanner.bindings() == all,
            decreases result.connected.len() - j,
        {
            let binding = result.connected[j];
            let ghost surfaces_before = views(self.surfaces@);
            if let Some(index) = find_connector(&res.connectors, binding.connector) {
                if let Some(mut surface) = OutputSurface::new(
                    binding.crtc,
                    &res.connectors[index],
                    buffers,
                ) {
                    if !self.active {
                        surface.pause();
                    }
                    self.surfaces.push(surface);
                    if !self.lost {
                        scheduler.schedule_initial(self.node, binding.crtc, now);
                    }
                }
            }
            proof {
                assert(views(self.surfaces@) =~= surfaces_before.push(
                    created_surface(*res, binding, buffers, start.active),
                ));
            }
            j += 1;
        }
        proof {
            lemma_rescanned_wf(start, *res, buffers);
        }
        Changes { removed, added: result.connected }
    }

    /// Takes the device apart when it is removed: every surface is torn down
    /// and handed back, oldest first.
    pub fn teardown(self) -> (r: Vec<OutputSurface>)
        ensures
            views(r@) == self@.surfaces,
    {
        let Device { surfaces, .. } = self;
        surfaces
    }
}

/// Where bindings and surfaces go together one for one, so do the bindings
/// that survive a scan and the surfaces that stay, and every surface that
/// stays is one of the old surfaces.
pub proof fn lemma_staying_parallel(
    bindings: Seq<Binding>,
    surfaces: Seq<SurfaceView>,
    connectors: Seq<ConnectorInfo>,
)
    requires
        bindings.len() == surfaces.len(),
        forall|i: int|
            0 <= i < surfaces.len() ==> (#[trigger] surfaces[i]).crtc == bindings[i].crtc
                && surfaces[i].connector == bindings[i].connector,
    ensures
        staying(surfaces, connectors).len() == survivors(bindings, connectors).len(),
        forall|j: int|
            0 <= j < staying(surfaces, connectors).len() ==> {
                &&& (#[trigger] staying(surfaces, connectors)[j]).crtc == survivors(
                    bindings,
                    connectors,
                )[j].crtc
                &&& staying(surfaces, connectors)[j].connector == survivors(
                    bindings,
                    connectors,
                )[j].connector
                &&& surfaces.contains(staying(surfaces, connectors)[j])
            },
    decreases bindings.len(),
{
    reveal(Seq::filter);
    if bindings.len() > 0 {
        let fewer_bindings = bindings.drop_last();
        let fewer_surfaces = surfaces.drop_last();
        lemma_staying_parallel(fewer_bindings, fewer_surfaces, connectors);
        let sub = staying(fewer_surfaces, connectors);
        let all = staying(surfaces, connectors);
        assert forall|j: int| 0 <= j < all.len() implies surfaces.contains(#[trigger] all[j]) by {
            if j < sub.len() {
                let i = choose|i: int| 0 <= i < fewer_surfaces.len() && fewer_surfaces[i] == sub[j];
                assert(surfaces[i] == all[j]);
            }
        }
    }
}

/// A usable connector with the handle has a first position.
pub proof fn lemma_usable_position(connectors: Seq<ConnectorInfo>, handle: u32, from: int)
    requires
        0 <= from,
    ensures
        match usable_position(connectors, handle, from) {
            Some(i) => from <= i < connectors.len() && connectors[i].handle == handle
                && connectors[i].usable(),
            None => forall|j: int|
                from <= j < connectors.len() ==> !((#[trigger] connectors[j]).handle == handle
                    && connectors[j].usable()),
        },
    decreases connectors.len() - from,
{
    if from < connectors.len() {
        lemma_usable_position(connectors, handle, from + 1);
    }
}

/// A scan keeps a device well formed, and every surface of the scanned
/// device presents a connector that is usable.
pub proof fn lemma_rescanned_wf(device: DeviceView, res: Resources, buffers: usize)
    requires
        device.wf(),
    ensures
        device.rescanned(res, buffers).wf(),
        forall|i: int|
            0 <= i < device.rescanned(res, buffers).surfaces.len() ==> connected_in(
                res.connectors@,
                (#[trigger] device.rescanned(res, buffers).surfaces[i]).connector,
            ),
{
    let connectors = res.connectors@;
    let kept = staying(device.surfaces, connectors);
    let added = added_bindings(device.bindings, res);
    let done = device.rescanned(res, buffers);
    lemma_staying_parallel(device.bindings, device.surfaces, connectors);
    crate::scanner::lemma_survivors(device.bindings, connectors);
    crate::scanner::lemma_bind_upto(
        res.crtcs@,
        connectors,
        survivors(device.bindings, connectors),
        connectors.len() as int,
    );
    assert forall|i: int| 0 <= i < done.surfaces.len() implies {
        &&& (#[trigger] done.surfaces[i]).wf()
        &&& done.surfaces[i].crtc == done.bindings[i].crtc
        &&& done.surfaces[i].connector == done.bindings[i].connector
        &&& done.surfaces[i].active == done.active
        &&& connected_in(connectors, done.surfaces[i].connector)
    } by {
        if i < kept.len() {
            assert(device.surfaces.contains(kept[i]));
        } else {
            let b = added[i - kept.len()];
            lemma_usable_position(connectors, b.connector, 0);
            let connector = connectors[usable_position(connectors, b.connector, 0)->0];
            crate::mode::lemma_preferred_index(connector.modes@, 0);
        }
    }
}

/// Where every surface presents a usable connector, every surface stays and
/// none leaves.
pub proof fn lemma_all_stay(surfaces: Seq<SurfaceView>, connectors: Seq<ConnectorInfo>)
    requires
        forall|k: int|
            0 <= k < surfaces.len() ==> connected_in(connectors, (#[trigger] surfaces[k]).connector),
    ensures
        staying(surfaces, connectors) == surfaces,
        leaving(surfaces, connectors) == Seq::<SurfaceView>::empty(),
    decreases surfaces.len(),
{
    reveal(Seq::filter);
    if surfaces.len() > 0 {
        lemma_all_stay(surfaces.drop_last(), connectors);
    }
}

/// Scanning a device again while nothing changed changes nothing: no surface
/// is torn down, none is created, and every surface stays as it is.
pub proof fn lemma_rescan_settles(device: DeviceView, res: Resources, buffers: usize)
    requires
        device.wf(),
    ensures
        device.rescanned(res, buffers).rescanned(res, buffers) == device.rescanned(res, buffers),
        leaving(device.rescanned(res, buffers).surfaces, res.connectors@) == Seq::<
            SurfaceView,
        >::empty(),
        added_bindings(device.rescanned(res, buffers).bindings, res) == Seq::<Binding>::empty(),
{
    let once = device.rescanned(res, buffers);
    lemma_rescanned_wf(device, res, buffers);
    crate::scanner::lemma_rescan_idempotent(device.bindings, res);
    lemma_all_stay(once.surfaces, res.connectors@);
}

/// Asking for a frame of one CRTC touches exactly the surface of that CRTC;
/// asking for frames of the device touches every surface. A surface that is
/// touched tried to take a buffer; at most one frame is drawn for it. A
/// device that lost its context is not touched and draws no frame.
pub proof fn lemma_render_touches(device: DeviceView, crtc: Option<u32>, blank: bool)
    ensures
        device.rendered(crtc).surfaces.len() == device.surfaces.len(),
        device.rendered(crtc).bindings == device.bindings,
        device.lost ==> device.rendered(crtc) == device && device.render_actions(crtc, blank).len() == 0,
        !device.lost && crtc is Some ==> forall|k: int|
            0 <= k < device.surfaces.len() ==> (#[trigger] device.rendered(crtc).surfaces[k]) == if Some(
                k,
            ) == device.position(crtc->0) {
                device.surfaces[k].after_acquire()
            } else {
                device.surfaces[k]
            },
        crtc is Some ==> device.render_actions(crtc, blank).len() <= 1,
        !device.lost && crtc is None ==> forall|k: int|
            0 <= k < device.surfaces.len() ==> (#[trigger] device.rendered(crtc).surfaces[k])
                == device.surfaces[k].after_acquire(),
        crtc is None ==> device.render_actions(crtc, blank).len() <= device.surfaces.len(),
{
    if let Some(c) = crtc {
        lemma_surface_position(device.surfaces, c, 0);
    } else {
        lemma_attempt_actions_len(device.surfaces, device.node, blank, device.surfaces.len() as int);
    }
}

/// What `surface_position` finds: the first surface at or after `from` that
/// is bound to the CRTC, and nothing exactly when there is none.
pub proof fn lemma_surface_position(surfaces: Seq<SurfaceView>, crtc: u32, from: int)
    requires
        0 <= from,
    ensures
        match surface_position(surfaces, crtc, from) {
            Some(k) => from <= k < surfaces.len() && surfaces[k].crtc == crtc,
            None => forall|j: int| from <= j < surfaces.len() ==> (#[trigger] surfaces[j]).crtc != crtc,
        },
    decreases surfaces.len() - from,
{
    if from < surfaces.len() {
        lemma_surface_position(surfaces, crtc, from + 1);
    }
}

/// At most one frame is drawn for each surface that was asked.
pub proof fn lemma_attempt_actions_len(surfaces: Seq<SurfaceView>, node: u64, blank: bool, n: int)
    ensures
        attempt_actions(surfaces, node, blank, n).len() <= if n <= 0 {
            0
        } else {
            n
        },
    decreases n,
{
    if n > 0 {
        lemma_attempt_actions_len(surfaces, node, blank, n - 1);
    }
}

/// A surface that was reset and may touch the hardware gets the first buffer
/// of its ring, with unknown age, and schedules nothing.
pub proof fn lemma_first_frames(
    surfaces: Seq<SurfaceView>,
    node: u64,
    blank: bool,
    tasks: Seq<Task>,
    now: u64,
    n: int,
)
    requires
        0 <= n <= surfaces.len(),
        forall|k: int|
            0 <= k < surfaces.len() ==> {
                &&& (#[trigger] surfaces[k]).active
                &&& surfaces[k].ages.len() > 0
                &&& surfaces[k].ages[0] == crate::surface::AGE_UNKNOWN
                &&& surfaces[k].acquired is None
                &&& surfaces[k].in_flight is None
                &&& surfaces[k].front is None
            },
    ensures
        attempt_tasks(surfaces, node, tasks, now, n) == tasks,
        attempt_actions(surfaces, node, blank, n) == Seq::new(
            n as nat,
            |k: int|
                Action::Draw {
                    node,
                    crtc: surfaces[k].crtc,
                    frame: Frame { buffer: 0, age: crate::surface::AGE_UNKNOWN },
                    blank,
                },
        ),
    decreases n,
{
    if n > 0 {
        lemma_first_frames(surfaces, node, blank, tasks, now, n - 1);
    }
}

/// A failed frame tells the scene nothing and asks for no flip, whatever the
/// failure. Only an accepted flip of a frame in flight lets the scene know
/// that a frame was consumed.
pub proof fn lemma_failure_asks_nothing(device: DeviceView, crtc: u32, error: SwapBuffersError)
    ensures
        device.frame_actions(crtc, Err(error)) == Seq::<Action>::empty(),
        forall|outcome: Result<bool, SwapBuffersError>, i: int|
            0 <= i < device.frame_actions(crtc, outcome).len() ==> !(#[trigger] device.frame_actions(
                crtc,
                outcome,
            )[i] is FrameConsumed),
{
}

/// A drawn frame of a paused device is not queued and asks for no flip.
pub proof fn lemma_paused_device_flips_nothing(device: DeviceView, crtc: u32)
    requires
        !device.active,
    ensures
        device.frame_done(crtc, Ok(true)) == device,
        device.frame_actions(crtc, Ok(true)) == Seq::<Action>::empty(),
{
}

/// A lost context ends the rendering of the device: the loss is recorded,
/// no render of the device stays on the list, and whatever frame is asked
/// of the device afterwards, nothing is drawn, nothing is scheduled and
/// nothing changes. This holds where the drawing lost the context and where
/// the flip did.
pub proof fn lemma_lost_context_ends_rendering(
    device: DeviceView,
    crtc: u32,
    cause: Cause,
    tasks: Seq<Task>,
    now: u64,
    next: Option<u32>,
    blank: bool,
)
    requires
        device.position(crtc) is Some,
    ensures
        device.frame_done(crtc, Err(SwapBuffersError::ContextLost(cause))).lost,
        device.flip_refused(crtc, SwapBuffersError::ContextLost(cause)).lost,
        device.frame_tasks(crtc, Err(SwapBuffersError::ContextLost(cause)), tasks, now)
            == without_device(tasks, device.node),
        device.flip_tasks(crtc, SwapBuffersError::ContextLost(cause), tasks, now) == without_device(
            tasks,
            device.node,
        ),
        forall|i: int|
            0 <= i < without_device(tasks, device.node).len() ==> (#[trigger] without_device(
                tasks,
                device.node,
            )[i]).node != device.node,
        ({
            let lost = device.frame_done(crtc, Err(SwapBuffersError::ContextLost(cause)));
            &&& lost.rendered(next) == lost
            &&& lost.render_actions(next, blank) == Seq::<Action>::empty()
            &&& lost.render_tasks(next, tasks, now) == tasks
            &&& lost.flip_actions(crtc) == Seq::<Action>::empty()
        }),
{
    tasks.filter_lemma(|t: Task| t.node != device.node);
}

} // verus!
