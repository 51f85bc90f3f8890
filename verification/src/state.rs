//! The device registry: every open GPU device, the router of render nodes
//! and the list of renders that are due.
//!
//! The registry is one owned value. Every event of the outside world is
//! handed to it as a call, and every call answers with what the caller is
//! asked to do. The registry itself never touches a device.

use vstd::prelude::*;
use vstd::string::*;
use crate::connector::Resources;
use crate::device::{
    added_bindings, initial_tasks, leaving, Changes, Device, DeviceView,
};
use crate::event::{Action, DrmEvent, OpenError, OpenedDevice, SessionEvent, UdevEvent};
use crate::router::{path_of, GpuManager, RenderPath};
use crate::scanner::{assignment, Binding};
use crate::scheduler::{due_at, later_than, without_device, Scheduler, Task, TaskKind};
use crate::surface::{views, Cause, Frame, OutputSurface, SwapBuffersError, AGE_UNKNOWN};

verus! {

/// Why a scan of a device failed.
#[derive(Clone, Copy, Debug, PartialEq, Eq, Structural)]
pub enum ScanError {
    /// The device's connectors and CRTCs could not be listed.
    Enumeration,
}

/// What a hot-plug event changed.
#[derive(Debug)]
pub struct DeviceChanges {
    /// What the caller is asked to do, in order.
    pub actions: Vec<Action>,
    /// The surfaces that were torn down, oldest first. Their outputs are gone.
    pub removed: Vec<OutputSurface>,
    /// The bindings whose surfaces were created, in the order of the
    /// connectors. Their outputs are new.
    pub added: Vec<Binding>,
}

/// The registry of devices.
#[derive(Debug)]
pub struct DrmState {
    devices: Vec<Device>,
    primary_gpu: u64,
    primary_path: Option<String>,
    gpu_manager: GpuManager,
    scheduler: Scheduler,
    input_suspended: bool,
    buffers: usize,
}

/// The value of the registry.
pub struct StateView {
    /// The devices, in the order they were added.
    pub devices: Seq<DeviceView>,
    /// The render node of the primary GPU.
    pub primary_gpu: u64,
    /// The canonical path of the primary GPU's device file, where it is known.
    pub primary_path: Option<Seq<char>>,
    /// The render nodes known to the router.
    pub nodes: Set<u64>,
    /// The renders that are due later, in the order they were scheduled.
    pub tasks: Seq<Task>,
    /// Whether input is suspended with the session.
    pub input_suspended: bool,
    /// Number of buffers that a new surface's ring is asked to hold.
    pub buffers: usize,
}

/// The values of a list of devices, in order.
pub open spec fn device_views(devices: Seq<Device>) -> Seq<DeviceView> {
    Seq::new(devices.len(), |i: int| devices[i]@)
}

/// Position of the first device at or after `from` with the identifier.
pub open spec fn device_position(devices: Seq<DeviceView>, node: u64, from: int) -> Option<int>
    decreases devices.len() - from,
{
    if from < 0 || from >= devices.len() {
        None
    } else if devices[from].node == node {
        Some(from)
    } else {
        device_position(devices, node, from + 1)
    }
}

/// The render node that a device is registered with: that of its GPU, or the
/// device itself where the GPU has none.
pub open spec fn render_node_of(node: u64, opened: OpenedDevice) -> u64 {
    match opened.render_node {
        Some(render_node) => render_node,
        None => node,
    }
}

/// Whether a device that was opened is the primary GPU: its canonical path
/// is the primary GPU's. Where neither path is known, the device counts as
/// the primary GPU too.
pub open spec fn is_primary(primary_path: Option<Seq<char>>, opened: OpenedDevice) -> bool {
    match (primary_path, opened.canonical_path) {
        (Some(primary), Some(path)) => primary == path@,
        (None, None) => true,
        _ => false,
    }
}

/// The wake-up calls for the first `n` devices when the session came back:
/// for each device in order, the device is taken into use again and each of
/// its surfaces is reset.
pub open spec fn activation_actions(devices: Seq<DeviceView>, n: int) -> Seq<Action>
    decreases n,
{
    if n <= 0 {
        Seq::empty()
    } else {
        activation_actions(devices, n - 1) + seq![Action::ActivateDevice { node: devices[n - 1].node }]
            + devices[n - 1].reset_actions()
    }
}

/// The renders scheduled after every surface of the first `n` devices was
/// asked for a frame.
pub open spec fn rerender_tasks(devices: Seq<DeviceView>, tasks: Seq<Task>, now: u64, n: int) -> Seq<
    Task,
>
    decreases n,
{
    if n <= 0 {
        tasks
    } else {
        devices[n - 1].render_tasks(None, rerender_tasks(devices, tasks, now, n - 1), now)
    }
}

/// The frames to draw after every surface of the first `n` devices was asked
/// for a frame.
pub open spec fn rerender_actions(devices: Seq<DeviceView>, n: int) -> Seq<Action>
    decreases n,
{
    if n <= 0 {
        Seq::empty()
    } else {
        rerender_actions(devices, n - 1) + devices[n - 1].render_actions(None, false)
    }
}

/// Number of surfaces of the first `n` devices.
pub open spec fn surface_count(devices: Seq<DeviceView>, n: int) -> nat
    decreases n,
{
    if n <= 0 {
        0
    } else {
        surface_count(devices, n - 1) + devices[n - 1].surfaces.len()
    }
}

/// Number of surfaces of those of the first `n` devices that have their
/// rendering context.
pub open spec fn live_surface_count(devices: Seq<DeviceView>, n: int) -> nat
    decreases n,
{
    if n <= 0 {
        0
    } else if devices[n - 1].lost {
        live_surface_count(devices, n - 1)
    } else {
        live_surface_count(devices, n - 1) + devices[n - 1].surfaces.len()
    }
}

/// One frame for every surface of those of the first `n` devices that have
/// their rendering context, device by device and surface by surface: the
/// first buffer of the ring, with unknown age.
pub open spec fn first_frames(devices: Seq<DeviceView>, n: int) -> Seq<Action>
    decreases n,
{
    if n <= 0 {
        Seq::empty()
    } else if devices[n - 1].lost {
        first_frames(devices, n - 1)
    } else {
        first_frames(devices, n - 1) + Seq::new(
            devices[n - 1].surfaces.len(),
            |k: int|
                Action::Draw {
                    node: devices[n - 1].node,
                    crtc: devices[n - 1].surfaces[k].crtc,
                    frame: Frame { buffer: 0, age: AGE_UNKNOWN },
                    blank: false,
                },
        )
    }
}

impl StateView {
    /// Every device is well formed and no identifier occurs twice.
    pub open spec fn wf(self) -> bool {
        &&& forall|i: int| 0 <= i < self.devices.len() ==> (#[trigger] self.devices[i]).wf()
        &&& forall|i: int, j: int|
            0 <= i < j < self.devices.len() ==> (#[trigger] self.devices[i]).node != (
            #[trigger] self.devices[j]).node
    }

    /// The registry while the session is paused: input is suspended and no
    /// device may be touched; every device and surface is kept.
    pub open spec fn paused(self) -> StateView {
        StateView {
            input_suspended: true,
            devices: Seq::new(self.devices.len(), |i: int| self.devices[i].paused()),
            ..self
        }
    }

    /// What the caller is asked to do when the session is paused.
    pub open spec fn pause_actions(self) -> Seq<Action> {
        seq![Action::SuspendInput] + Seq::new(
            self.devices.len(),
            |i: int| Action::PauseDevice { node: self.devices[i].node },
        )
    }

    /// The devices when the session came back, before frames are asked for.
    pub open spec fn woken(self) -> Seq<DeviceView> {
        Seq::new(self.devices.len(), |i: int| self.devices[i].activated())
    }

    /// The registry after the session came back: input is read again, every
    /// surface was reset and then asked for a frame.
    pub open spec fn activated(self, now: u64) -> StateView {
        let woken = self.woken();
        StateView {
            input_suspended: false,
            devices: Seq::new(self.devices.len(), |i: int| woken[i].rendered(None)),
            tasks: rerender_tasks(woken, self.tasks, now, self.devices.len() as int),
            ..self
        }
    }

    /// What the caller is asked to do when the session came back: read input
    /// again, wake every device and reset its surfaces, then draw the frames.
    pub open spec fn activate_actions(self) -> Seq<Action> {
        seq![Action::ResumeInput] + activation_actions(self.devices, self.devices.len() as int)
            + rerender_actions(self.woken(), self.devices.len() as int)
    }

    /// The registry after the first `n` of the due renders were asked for.
    pub open spec fn dispatched(self, due: Seq<Task>, now: u64, n: int) -> StateView
        decreases n,
    {
        if n <= 0 {
            self
        } else {
            self.dispatched(due, now, n - 1).rendered(due[n - 1].node, Some(due[n - 1].crtc), now)
        }
    }

    /// The frames to draw after the first `n` of the due renders were asked
    /// for. The first frame of a new surface is a blank one.
    pub open spec fn dispatch_actions(self, due: Seq<Task>, now: u64, n: int) -> Seq<Action>
        decreases n,
    {
        if n <= 0 {
            Seq::empty()
        } else {
            self.dispatch_actions(due, now, n - 1) + self.dispatched(due, now, n - 1).render_actions(
                due[n - 1].node,
                Some(due[n - 1].crtc),
                due[n - 1].kind == TaskKind::Initial,
            )
        }
    }

    /// The registry with the renders that are due at `now` taken off the list.
    pub open spec fn without_due(self, now: u64) -> StateView {
        StateView { tasks: later_than(self.tasks, now), ..self }
    }

    /// Position of the device with the identifier.
    pub open spec fn position(self, node: u64) -> Option<int> {
        device_position(self.devices, node, 0)
    }

    /// Whether an added device is taken in: it was opened and is not known yet.
    pub open spec fn admits(self, node: u64, opened: Result<OpenedDevice, OpenError>) -> bool {
        opened is Ok && self.position(node) is None
    }

    /// The device that is registered for an added device, before and after
    /// its first scan.
    pub open spec fn admitted(self, node: u64, opened: OpenedDevice, res: Option<Resources>)
        -> DeviceView {
        let render_node = render_node_of(node, opened);
        let fresh = DeviceView {
            node,
            render_node,
            accelerated: is_primary(self.primary_path, opened),
            active: true,
            lost: false,
            bindings: Seq::empty(),
            surfaces: Seq::empty(),
        };
        match res {
            Some(res) => fresh.rescanned(res, self.buffers),
            None => fresh,
        }
    }

    /// The registry after a device appeared. A device that could not be
    /// opened, or that is known already, changes nothing.
    pub open spec fn device_added(
        self,
        node: u64,
        opened: Result<OpenedDevice, OpenError>,
        res: Option<Resources>,
        now: u64,
    ) -> StateView {
        if self.admits(node, opened) {
            let device = self.admitted(node, opened->Ok_0, res);
            StateView {
                devices: self.devices.push(device),
                nodes: self.nodes.insert(device.render_node),
                tasks: self.tasks + initial_tasks(node, device.bindings, now),
                ..self
            }
        } else {
            self
        }
    }

    /// What the caller is asked to do after a device appeared.
    pub open spec fn added_actions(self, node: u64, opened: Result<OpenedDevice, OpenError>) -> Seq<
        Action,
    > {
        if self.admits(node, opened) {
            let render_node = render_node_of(node, opened->Ok_0);
            if is_primary(self.primary_path, opened->Ok_0) {
                seq![Action::AddRenderNode { node: render_node }, Action::EnableAcceleration { node }]
            } else {
                seq![Action::AddRenderNode { node: render_node }]
            }
        } else {
            Seq::empty()
        }
    }

    /// The registry after the connectors of a device changed: the device is
    /// scanned, and the first frames of its new surfaces are scheduled unless
    /// it lost its context. An unknown device, or connectors that could not
    /// be read, change nothing.
    pub open spec fn device_changed(self, node: u64, res: Option<Resources>, now: u64) -> StateView {
        match (self.position(node), res) {
            (Some(d), Some(res)) => StateView {
                devices: self.devices.update(d, self.devices[d].rescanned(res, self.buffers)),
                tasks: self.tasks + self.devices[d].scan_tasks(res, now),
                ..self
            },
            _ => self,
        }
    }

    /// The registry after a device is gone: the device is forgotten, its
    /// render node is unknown to the router, and none of its renders is due.
    pub open spec fn device_removed(self, node: u64) -> StateView {
        match self.position(node) {
            Some(d) => StateView {
                devices: self.devices.remove(d),
                nodes: self.nodes.remove(self.devices[d].render_node),
                tasks: without_device(self.tasks, node),
                ..self
            },
            None => self,
        }
    }

    /// What the caller is asked to do after a device is gone.
    pub open spec fn removed_actions(self, node: u64) -> Seq<Action> {
        match self.position(node) {
            Some(d) => if self.devices[d].accelerated {
                seq![
                    Action::RemoveRenderNode { node: self.devices[d].render_node },
                    Action::DisableAcceleration { node },
                    Action::CloseDevice { node },
                ]
            } else {
                seq![
                    Action::RemoveRenderNode { node: self.devices[d].render_node },
                    Action::CloseDevice { node },
                ]
            },
            None => Seq::empty(),
        }
    }

    /// The registry after frames of a device were asked for: of one CRTC, or
    /// of every surface of the device where none is given. No other device
    /// changes.
    pub open spec fn rendered(self, node: u64, crtc: Option<u32>, now: u64) -> StateView {
        match self.position(node) {
            Some(d) => StateView {
                devices: self.devices.update(d, self.devices[d].rendered(crtc)),
                tasks: self.devices[d].render_tasks(crtc, self.tasks, now),
                ..self
            },
            None => self,
        }
    }

    /// The frames to draw after frames of a device were asked for.
    pub open spec fn render_actions(self, node: u64, crtc: Option<u32>, blank: bool) -> Seq<Action> {
        match self.position(node) {
            Some(d) => self.devices[d].render_actions(crtc, blank),
            None => Seq::empty(),
        }
    }

    /// The registry after the flip of a CRTC was confirmed, before the next
    /// frame is asked for.
    pub open spec fn confirmed(self, node: u64, crtc: u32) -> StateView {
        match self.position(node) {
            Some(d) => StateView {
                devices: self.devices.update(d, self.devices[d].submitted(crtc)),
                ..self
            },
            None => self,
        }
    }

    /// The registry after the drawing of a frame was reported.
    pub open spec fn frame_done(
        self,
        node: u64,
        crtc: u32,
        outcome: Result<bool, SwapBuffersError>,
        now: u64,
    ) -> StateView {
        match self.position(node) {
            Some(d) => StateView {
                devices: self.devices.update(d, self.devices[d].frame_done(crtc, outcome)),
                tasks: self.devices[d].frame_tasks(crtc, outcome, self.tasks, now),
                ..self
            },
            None => self,
        }
    }

    /// The registry after the flip of a CRTC was refused: the queued buffer
    /// is free again, a lost context is recorded in the device and takes the
    /// device's renders off the list, and any other failure is handled as
    /// the scheduler rules.
    pub open spec fn flip_refused(self, node: u64, crtc: u32, error: SwapBuffersError, now: u64)
        -> StateView {
        match self.position(node) {
            Some(d) => StateView {
                devices: self.devices.update(d, self.devices[d].flip_refused(crtc, error)),
                tasks: self.devices[d].flip_tasks(crtc, error, self.tasks, now),
                ..self
            },
            None => self,
        }
    }

    /// What the caller is asked to do once the hardware accepted the flip of
    /// a CRTC of a device: tell the scene that a frame was consumed, where
    /// the surface of the CRTC has a flip in flight and the device has its
    /// context.
    pub open spec fn flip_actions(self, node: u64, crtc: u32) -> Seq<Action> {
        match self.position(node) {
            Some(d) => self.devices[d].flip_actions(crtc),
            None => Seq::empty(),
        }
    }
}

impl View for DrmState {
    type V = StateView;

    closed spec fn view(&self) -> StateView {
        StateView {
            devices: device_views(self.devices@),
            primary_gpu: self.primary_gpu,
            primary_path: match self.primary_path {
                Some(path) => Some(path@),
                None => None,
            },
            nodes: self.gpu_manager@,
            tasks: self.scheduler@,
            input_suspended: self.input_suspended,
            buffers: self.buffers,
        }
    }
}

impl DrmState {
    /// A registry without devices, for the primary GPU with the given render
    /// node and canonical path. New surfaces get rings of `buffers` buffers.
    pub fn new(primary_gpu: u64, primary_path: Option<String>, buffers: usize) -> (r: DrmState)
        ensures
            r@ == (StateView {
                devices: Seq::empty(),
                primary_gpu,
                primary_path: match primary_path {
                    Some(path) => Some(path@),
                    None => None,
                },
                nodes: Set::empty(),
                tasks: Seq::empty(),
                input_suspended: false,
                buffers,
            }),
            r@.wf(),
    {
        let r = DrmState {
            devices: Vec::new(),
            primary_gpu,
            primary_path,
            gpu_manager: GpuManager::new(),
            scheduler: Scheduler::new(),
            input_suspended: false,
            buffers,
        };
        assert(device_views(r.devices@) =~= Seq::empty());
        r
    }

    /// The render node of the primary GPU.
    pub fn primary_gpu(&self) -> (r: u64)
        ensures
            r == self@.primary_gpu,
    {
        self.primary_gpu
    }

    /// Whether input is suspended with the session.
    pub fn is_input_suspended(&self) -> (r: bool)
        ensures
            r == self@.input_suspended,
    {
        self.input_suspended
    }

    /// The devices, in the order they were added.
    pub fn devices(&self) -> (r: &Vec<Device>)
        ensures
            device_views(r@) == self@.devices,
    {
        &self.devices
    }

    /// The renders that are due later.
    pub fn scheduler(&self) -> (r: &Scheduler)
        ensures
            r@ == self@.tasks,
    {
        &self.scheduler
    }

    /// Position of the device with the identifier.
    pub fn find_device(&self, node: u64) -> (r: Option<usize>)
        ensures
            match r {
                Some(d) => self@.position(node) == Some(d as int),
                None => self@.position(node) is None,
            },
            r matches Some(d) ==> d < self@.devices.len() && self@.devices[d as int].node == node,
    {
        let mut i: usize = 0;
        while i < self.devices.len()
            invariant
                i <= self.devices.len(),
                self@.devices == device_views(self.devices@),
                device_position(self@.devices, node, 0) == device_position(
                    self@.devices,
                    node,
                    i as int,
                ),
            decreases self.devices.len() - i,
        {
            if self.devices[i].node() == node {
                return Some(i);
            }
            i += 1;
        }
        None
    }

    /// The device with the identifier, if it is known.
    pub fn device(&self, node: u64) -> (r: Option<&Device>)
        ensures
            match self@.position(node) {
                Some(d) => r is Some && r->0@ == self@.devices[d],
                None => r is None,
            },
    {
        match self.find_device(node) {
            Some(d) => Some(&self.devices[d]),
            None => None,
        }
    }

    /// Chooses the path on which frames of a device's surfaces are rendered,
    /// for surfaces with the given buffer format: the device's own GPU where
    /// it is the primary one, else the primary GPU across to the device's.
    /// There is no path for an unknown device, nor while a GPU that the path
    /// needs is unknown to the router.
    pub fn render_path(&self, node: u64, format: u32) -> (r: Option<RenderPath>)
        ensures
            r == match self@.position(node) {
                Some(d) => path_of(
                    self@.nodes,
                    self@.primary_gpu,
                    self@.devices[d].render_node,
                    format,
                ),
                None => None,
            },
    {
        match self.find_device(node) {
            Some(d) => self.gpu_manager.route(self.primary_gpu, self.devices[d].render_node(), format),
            None => None,
        }
    }

    /// Takes in a device that appeared. A device that could not be opened is
    /// skipped, and so is one that is known already. Any other device is
    /// registered, its render node is made known to the router, and buffer
    /// import is switched on for it where its canonical path is that of the
    /// primary GPU. Where its connectors could be read it is scanned at once,
    /// and the first frame of each of its surfaces is scheduled.
    pub fn on_device_added(
        &mut self,
        node: u64,
        opened: Result<OpenedDevice, OpenError>,
        res: Option<&Resources>,
        now: u64,
    ) -> (r: DeviceChanges)
        requires
            old(self)@.wf(),
        ensures
            final(self)@ == old(self)@.device_added(
                node,
                opened,
                match res {
                    Some(res) => Some(*res),
                    None => None,
                },
                now,
            ),
            final(self)@.wf(),
            r.actions@ == old(self)@.added_actions(node, opened),
            r.removed@.len() == 0,
            r.added@ == if old(self)@.admits(node, opened) && res is Some {
                assignment(*res->0)
            } else {
                Seq::empty()
            },
    {
        let mut actions: Vec<Action> = Vec::new();
        let opened = match opened {
            Ok(opened) => opened,
            Err(_) => {
                return DeviceChanges { actions, removed: Vec::new(), added: Vec::new() };
            },
        };
        if self.find_device(node).is_some() {
            return DeviceChanges { actions, removed: Vec::new(), added: Vec::new() };
        }
        let render_node = match opened.render_node {
            Some(render_node) => render_node,
            None => node,
        };
        let accelerated = match (&self.primary_path, &opened.canonical_path) {
            (Some(primary), Some(path)) => *primary == *path,
            (None, None) => true,
            _ => false,
        };
        let _ = self.gpu_manager.add_node(render_node);
        actions.push(Action::AddRenderNode { node: render_node });
        if accelerated {
            actions.push(Action::EnableAcceleration { node });
        }
        let mut device = Device::new(node, render_node, accelerated);
        let ghost fresh = device@;
        let changes = match res {
            Some(res) => {
                let changes = device.rescan(res, self.buffers, &mut self.scheduler, now);
                proof {
                    reveal(Seq::filter);
                    assert(added_bindings(fresh.bindings, *res) =~= assignment(*res));
                }
                changes
            },
            None => {
                Changes { removed: Vec::new(), added: Vec::new() }
            },
        };
        let ghost before = device_views(self.devices@);
        let ghost added = device@;
        self.devices.push(device);
        proof {
            assert(device_views(self.devices@) =~= before.push(added));
            lemma_position(before, node, 0);
        }
        DeviceChanges { actions, removed: changes.removed, added: changes.added }
    }

    /// Scans a device whose connectors changed. Surfaces of connectors that
    /// are gone are torn down and handed back; surfaces are created for new
    /// connectors that get a CRTC, and their first frames are scheduled. An
    /// unknown device changes nothing. Where the connectors could not be
    /// read, the scan fails and nothing changes.
    pub fn on_device_changed(&mut self, node: u64, res: Option<&Resources>, now: u64) -> (r: Result<
        DeviceChanges,
        ScanError,
    >)
        requires
            old(self)@.wf(),
        ensures
            final(self)@ == old(self)@.device_changed(
                node,
                match res {
                    Some(res) => Some(*res),
                    None => None,
                },
                now,
            ),
            final(self)@.wf(),
            r is Err <==> old(self)@.position(node) is Some && res is None,
            r matches Ok(changes) ==> changes.actions@.len() == 0 && match (
                old(self)@.position(node),
                res,
            ) {
                (Some(d), Some(res)) => views(changes.removed@) == leaving(
                    old(self)@.devices[d].surfaces,
                    res.connectors@,
                ) && changes.added@ == added_bindings(old(self)@.devices[d].bindings, *res),
                _ => changes.removed@.len() == 0 && changes.added@.len() == 0,
            },
    {
        let d = match self.find_device(node) {
            Some(d) => d,
            None => {
                return Ok(
                    DeviceChanges { actions: Vec::new(), removed: Vec::new(), added: Vec::new() },
                );
            },
        };
        let res = match res {
            Some(res) => res,
            None => {
                return Err(ScanError::Enumeration);
            },
        };
        let changes = self.devices[d].rescan(res, self.buffers, &mut self.scheduler, now);
        proof {
            assert(device_views(self.devices@) =~= old(self)@.devices.update(
                d as int,
                old(self)@.devices[d as int].rescanned(*res, self.buffers),
            ));
        }
        Ok(DeviceChanges { actions: Vec::new(), removed: changes.removed, added: changes.added })
    }

    /// Forgets a device that is gone. Its surfaces are torn down and handed
    /// back, its render node is taken from the router, buffer import is
    /// switched off where it was on for this device, its scheduled renders
    /// are cancelled, and the caller is asked to close it. An unknown device
    /// changes nothing.
    pub fn on_device_removed(&mut self, node: u64) -> (r: DeviceChanges)
        requires
            old(self)@.wf(),
        ensures
            final(self)@ == old(self)@.device_removed(node),
            final(self)@.wf(),
            r.actions@ == old(self)@.removed_actions(node),
            r.added@.len() == 0,
            views(r.removed@) == match old(self)@.position(node) {
                Some(d) => old(self)@.devices[d].surfaces,
                None => Seq::empty(),
            },
    {
        let mut actions: Vec<Action> = Vec::new();
        let d = match self.find_device(node) {
            Some(d) => d,
            None => {
                let removed: Vec<OutputSurface> = Vec::new();
                return DeviceChanges { actions, removed, added: Vec::new() };
            },
        };
        let ghost before = device_views(self.devices@);
        let device = self.devices.remove(d);
        assert(device_views(self.devices@) =~= before.remove(d as int));
        let _ = self.gpu_manager.remove_node(device.render_node());
        let _ = self.scheduler.cancel_device(node);
        actions.push(Action::RemoveRenderNode { node: device.render_node() });
        if device.is_accelerated() {
            actions.push(Action::DisableAcceleration { node });
        }
        actions.push(Action::CloseDevice { node });
        let removed = device.teardown();
        DeviceChanges { actions, removed, added: Vec::new() }
    }

    /// Asks for a frame of the surface of the given CRTC of a device, or of
    /// every surface of the device where no CRTC is given. Each surface asked
    /// tries to take a buffer: where it gets one the caller is asked to draw
    /// into it, where it fails the failure is handled as the scheduler rules.
    /// No other surface and no other device is touched. An unknown device or
    /// CRTC asks for nothing, and so does a device that lost its context.
    pub fn render(&mut self, node: u64, crtc: Option<u32>, now: u64) -> (r: Vec<Action>)
        requires
            old(self)@.wf(),
        ensures
            final(self)@ == old(self)@.rendered(node, crtc, now),
            final(self)@.wf(),
            r@ == old(self)@.render_actions(node, crtc, false),
    {
        self.render_frame(node, crtc, false, now)
    }

    /// Asks for frames as `render` does; the frames are blank ones where
    /// `blank` is set.
    pub fn render_frame(&mut self, node: u64, crtc: Option<u32>, blank: bool, now: u64) -> (r: Vec<
        Action,
    >)
        requires
            old(self)@.wf(),
        ensures
            final(self)@ == old(self)@.rendered(node, crtc, now),
            final(self)@.wf(),
            r@ == old(self)@.render_actions(node, crtc, blank),
    {
        match self.find_device(node) {
            Some(d) => {
                let actions = self.devices[d].render(crtc, blank, &mut self.scheduler, now);
                assert(device_views(self.devices@) =~= old(self)@.devices.update(
                    d as int,
                    old(self)@.devices[d as int].rendered(crtc),
                ));
                actions
            },
            None => Vec::new(),
        }
    }

    /// Handles an event of a device. A confirmed flip frees the surface of
    /// its CRTC for the next frame, which is asked for at once. An error of
    /// the device changes nothing.
    pub fn on_drm_event(&mut self, node: u64, event: DrmEvent, now: u64) -> (r: Vec<Action>)
        requires
            old(self)@.wf(),
        ensures
            final(self)@ == match event {
                DrmEvent::VBlank { crtc } => old(self)@.confirmed(node, crtc).rendered(
                    node,
                    Some(crtc),
                    now,
                ),
                DrmEvent::Error => old(self)@,
            },
            final(self)@.wf(),
            r@ == match event {
                DrmEvent::VBlank { crtc } => old(self)@.confirmed(node, crtc).render_actions(
                    node,
                    Some(crtc),
                    false,
                ),
                DrmEvent::Error => Seq::empty(),
            },
    {
        match event {
            DrmEvent::VBlank { crtc } => {
                if let Some(d) = self.find_device(node) {
                    let _ = self.devices[d].frame_submitted(crtc);
                    assert(device_views(self.devices@) =~= old(self)@.confirmed(node, crtc).devices);
                }
                self.render(node, Some(crtc), now)
            },
            DrmEvent::Error => Vec::new(),
        }
    }

    /// Takes note of how the drawing of a frame went. A drawn frame is queued
    /// and the caller is asked to flip to its buffer, but only where the
    /// device may be touched and has its context; on a paused device nothing
    /// is queued and nothing is asked. A frame that had nothing to draw is
    /// due again as soon as the loop is idle. A failure is handled as the
    /// scheduler rules. A lost context is recorded in the device, takes the
    /// device's renders off the list, and is handed back as the error: the
    /// device is asked for no frame any more.
    pub fn frame_rendered(&mut self, node: u64, crtc: u32, outcome: Result<bool, SwapBuffersError>, now: u64)
        -> (r: Result<Vec<Action>, Cause>)
        requires
            old(self)@.wf(),
        ensures
            final(self)@ == old(self)@.frame_done(node, crtc, outcome, now),
            final(self)@.wf(),
            match old(self)@.position(node) {
                Some(d) => match old(self)@.devices[d].frame_fatal(crtc, outcome) {
                    Some(cause) => r == Err::<Vec<Action>, Cause>(cause),
                    None => r is Ok && r->Ok_0@ == old(self)@.devices[d].frame_actions(crtc, outcome),
                },
                None => r is Ok && r->Ok_0@.len() == 0,
            },
    {
        match self.find_device(node) {
            Some(d) => {
                let r = self.devices[d].frame_rendered(crtc, outcome, &mut self.scheduler, now);
                assert(device_views(self.devices@) =~= old(self)@.frame_done(
                    node,
                    crtc,
                    outcome,
                    now,
                ).devices);
                r
            },
            None => Ok(Vec::new()),
        }
    }

    /// Takes note that the hardware accepted the flip of a CRTC of a device.
    /// Only now is the frame on its way to the screen: where the surface of
    /// the CRTC has a flip in flight and the device has its context, the
    /// caller is asked to tell the scene that a frame was consumed. Nothing
    /// changes in the registry.
    pub fn flip_queued(&self, node: u64, crtc: u32) -> (r: Vec<Action>)
        ensures
            r@ == self@.flip_actions(node, crtc),
    {
        match self.find_device(node) {
            Some(d) => self.devices[d].flip_queued(crtc),
            None => Vec::new(),
        }
    }

    /// Takes note that the hardware refused the flip of a CRTC. The queued
    /// buffer is free again and the failure is handled as the scheduler
    /// rules. A lost context is recorded in the device, takes the device's
    /// renders off the list, and is handed back as the error: the device is
    /// asked for no frame any more.
    pub fn flip_failed(&mut self, node: u64, crtc: u32, error: SwapBuffersError, now: u64) -> (r: Result<
        (),
        Cause,
    >)
        requires
            old(self)@.wf(),
        ensures
            final(self)@ == old(self)@.flip_refused(node, crtc, error, now),
            final(self)@.wf(),
            r is Err <==> (old(self)@.position(node) matches Some(d) && old(self)@.devices[d].position(
                crtc,
            ) is Some) && error is ContextLost,
            r matches Err(cause) ==> error == SwapBuffersError::ContextLost(cause),
    {
        match self.find_device(node) {
            Some(d) => {
                let r = self.devices[d].flip_failed(crtc, error, &mut self.scheduler, now);
                assert(device_views(self.devices@) =~= old(self)@.flip_refused(
                    node,
                    crtc,
                    error,
                    now,
                ).devices);
                r
            },
            None => Ok(()),
        }
    }

    /// Handles a change of the session. A pause suspends input and stops
    /// every device from touching the hardware; no device and no surface is
    /// lost. When the session comes back, input is read again, every device
    /// is taken into use, every surface forgets what its buffers hold, and
    /// then every surface of every device is asked for a frame.
    pub fn on_session_event(&mut self, event: SessionEvent, now: u64) -> (r: Vec<Action>)
        requires
            old(self)@.wf(),
        ensures
            final(self)@ == match event {
                SessionEvent::PauseSession => old(self)@.paused(),
                SessionEvent::ActivateSession => old(self)@.activated(now),
            },
            final(self)@.wf(),
            r@ == match event {
                SessionEvent::PauseSession => old(self)@.pause_actions(),
                SessionEvent::ActivateSession => old(self)@.activate_actions(),
            },
    {
        let ghost start = self@;
        let mut actions: Vec<Action> = Vec::new();
        match event {
            SessionEvent::PauseSession => {
                self.input_suspended = true;
                actions.push(Action::SuspendInput);
                let mut i: usize = 0;
                while i < self.devices.len()
                    invariant
                        i <= self.devices.len(),
                        start.wf(),
                        self.devices@.len() == start.devices.len(),
                        self@ == (StateView {
                            input_suspended: true,
                            devices: device_views(self.devices@),
                            ..start
                        }),
                        forall|j: int| 0 <= j < i ==> (#[trigger] self.devices@[j])@ == start.devices[j].paused(),
                        forall|j: int|
                            i <= j < self.devices@.len() ==> (#[trigger] self.devices@[j])@
                                == start.devices[j],
                        actions@.len() == i + 1,
                        actions@[0] == Action::SuspendInput,
                        forall|j: int|
                            1 <= j <= i ==> (#[trigger] actions@[j]) == (Action::PauseDevice {
                                node: start.devices[j - 1].node,
                            }),
                    decreases self.devices.len() - i,
                {
                    let node = self.devices[i].node();
                    self.devices[i].pause();
                    actions.push(Action::PauseDevice { node });
                    i += 1;
                }
                assert(self@.devices =~= start.paused().devices);
            },
            SessionEvent::ActivateSession => {
                self.input_suspended = false;
                actions.push(Action::ResumeInput);
                let ghost woken = start.woken();
                let mut i: usize = 0;
                while i < self.devices.len()
                    invariant
                        i <= self.devices.len(),
                        start.wf(),
                        woken == start.woken(),
                        self.devices@.len() == start.devices.len(),
                        self@ == (StateView {
                            input_suspended: false,
                            devices: device_views(self.devices@),
                            ..start
                        }),
                        forall|j: int|
                            0 <= j < i ==> (#[trigger] self.devices@[j])@ == woken[j]
                                && self.devices@[j]@.wf(),
                        forall|j: int|
                            i <= j < self.devices@.len() ==> (#[trigger] self.devices@[j])@
                                == start.devices[j],
                        actions@ == seq![Action::ResumeInput] + activation_actions(
                            start.devices,
                            i as int,
                        ),
                    decreases self.devices.len() - i,
                {
                    let node = self.devices[i].node();
                    let mut resets = self.devices[i].activate();
                    actions.push(Action::ActivateDevice { node });
                    actions.append(&mut resets);
                    i += 1;
                }
                let ghost prefix = actions@;
                let ghost tasks = start.tasks;
                let mut k: usize = 0;
                while k < self.devices.len()
                    invariant
                        k <= self.devices.len(),
                        start.wf(),
                        woken == start.woken(),
                        tasks == start.tasks,
                        self.devices@.len() == start.devices.len(),
                        self@ == (StateView {
                            input_suspended: false,
                            devices: device_views(self.devices@),
                            tasks: self.scheduler@,
                            ..start
                        }),
                        forall|j: int|
                            0 <= j < k ==> (#[trigger] self.devices@[j])@ == woken[j].rendered(None)
                                && self.devices@[j]@.wf(),
                        forall|j: int|
                            k <= j < self.devices@.len() ==> (#[trigger] self.devices@[j])@ == woken[j]
                                && self.devices@[j]@.wf(),
                        self.scheduler@ == rerender_tasks(woken, tasks, now, k as int),
                        actions@ == prefix + rerender_actions(woken, k as int),
                    decreases self.devices.len() - k,
                {
                    let mut draws = self.devices[k].render(None, false, &mut self.scheduler, now);
                    actions.append(&mut draws);
                    k += 1;
                }
                assert(self@.devices =~= start.activated(now).devices);
                assert forall|a: int, b: int| 0 <= a < b < self@.devices.len() implies (
                #[trigger] self@.devices[a]).node != (#[trigger] self@.devices[b]).node by {
                    assert(self@.devices[a].node == start.devices[a].node);
                    assert(self@.devices[b].node == start.devices[b].node);
                }
            },
        }
        actions
    }

    /// Asks for every render that is due at `now`, in the order they were
    /// scheduled, and takes them off the list. The first frame of a new
    /// surface is a blank one. A render of a device or CRTC that is gone
    /// asks for nothing.
    pub fn dispatch(&mut self, now: u64) -> (r: Vec<Action>)
        requires
            old(self)@.wf(),
        ensures
            final(self)@ == old(self)@.without_due(now).dispatched(
                due_at(old(self)@.tasks, now),
                now,
                due_at(old(self)@.tasks, now).len() as int,
            ),
            final(self)@.wf(),
            r@ == old(self)@.without_due(now).dispatch_actions(
                due_at(old(self)@.tasks, now),
                now,
                due_at(old(self)@.tasks, now).len() as int,
            ),
    {
        let due = self.scheduler.take_due(now);
        let ghost start = self@;
        let mut actions: Vec<Action> = Vec::new();
        let mut i: usize = 0;
        while i < due.len()
            invariant
                i <= due.len(),
                self@ == start.dispatched(due@, now, i as int),
                self@.wf(),
                actions@ == start.dispatch_actions(due@, now, i as int),
            decreases due.len() - i,
        {
            let task = due[i];
            let blank = match task.kind {
                TaskKind::Initial => true,
                _ => false,
            };
            let mut draws = self.render_frame(task.node, Some(task.crtc), blank, now);
            actions.append(&mut draws);
            i += 1;
        }
        actions
    }

    /// Handles a hot-plug event: a device that appeared is taken in, a device
    /// whose connectors changed is scanned, a device that is gone is
    /// forgotten. Only a scan whose connectors could not be read fails.
    pub fn on_udev_event(&mut self, event: UdevEvent, now: u64) -> (r: Result<DeviceChanges, ScanError>)
        requires
            old(self)@.wf(),
        ensures
            final(self)@.wf(),
            event matches UdevEvent::Added { device_id, opened, resources } ==> {
                &&& final(self)@ == old(self)@.device_added(device_id, opened, resources, now)
                &&& r is Ok
                &&& r->Ok_0.actions@ == old(self)@.added_actions(device_id, opened)
                &&& r->Ok_0.removed@.len() == 0
                &&& r->Ok_0.added@ == if old(self)@.admits(device_id, opened) && resources is Some {
                    assignment(resources->0)
                } else {
                    Seq::empty()
                }
            },
            event matches UdevEvent::Changed { device_id, resources } ==> {
                &&& final(self)@ == old(self)@.device_changed(device_id, resources, now)
                &&& r is Err <==> old(self)@.position(device_id) is Some && resources is None
                &&& r is Ok ==> r->Ok_0.actions@.len() == 0 && match (
                    old(self)@.position(device_id),
                    resources,
                ) {
                    (Some(d), Some(res)) => views(r->Ok_0.removed@) == leaving(
                        old(self)@.devices[d].surfaces,
                        res.connectors@,
                    ) && r->Ok_0.added@ == added_bindings(old(self)@.devices[d].bindings, res),
                    _ => r->Ok_0.removed@.len() == 0 && r->Ok_0.added@.len() == 0,
                }
            },
            event matches UdevEvent::Removed { device_id } ==> {
                &&& final(self)@ == old(self)@.device_removed(device_id)
                &&& r is Ok
                &&& r->Ok_0.actions@ == old(self)@.removed_actions(device_id)
                &&& r->Ok_0.added@.len() == 0
                &&& views(r->Ok_0.removed@) == match old(self)@.position(device_id) {
                    Some(d) => old(self)@.devices[d].surfaces,
                    None => Seq::empty(),
                }
            },
    {
        match event {
            UdevEvent::Added { device_id, opened, resources } => Ok(
                self.on_device_added(device_id, opened, resources.as_ref(), now),
            ),
            UdevEvent::Changed { device_id, resources } => self.on_device_changed(
                device_id,
                resources.as_ref(),
                now,
            ),
            UdevEvent::Removed { device_id } => Ok(self.on_device_removed(device_id)),
        }
    }
}

/// What `device_position` finds: the first device at or after `from` with
/// the identifier, and nothing exactly when there is none.
pub proof fn lemma_position(devices: Seq<DeviceView>, node: u64, from: int)
    requires
        0 <= from,
    ensures
        match device_position(devices, node, from) {
            Some(d) => from <= d < devices.len() && devices[d].node == node,
            None => forall|j: int| from <= j < devices.len() ==> (#[trigger] devices[j]).node != node,
        },
    decreases devices.len() - from,
{
    if from < devices.len() {
        lemma_position(devices, node, from + 1);
    }
}

/// Scanning a device again while nothing changed changes nothing: every
/// surface stays as it is, none is torn down or created, and no frame is
/// scheduled.
pub proof fn lemma_rescan_changes_nothing(state: StateView, node: u64, res: Resources, now: u64, later: u64)
    requires
        state.wf(),
    ensures
        state.device_changed(node, Some(res), now).device_changed(node, Some(res), later)
            == state.device_changed(node, Some(res), now),
{
    let once = state.device_changed(node, Some(res), now);
    lemma_position(state.devices, node, 0);
    if let Some(d) = state.position(node) {
        crate::device::lemma_rescan_settles(state.devices[d], res, state.buffers);
        lemma_position_same_nodes(state.devices, once.devices, node, 0);
        let twice = once.device_changed(node, Some(res), later);
        assert(twice.devices =~= once.devices);
    }
}

/// Two lists of devices with the same identifiers at the same places find
/// an identifier at the same place.
pub proof fn lemma_position_same_nodes(a: Seq<DeviceView>, b: Seq<DeviceView>, node: u64, from: int)
    requires
        0 <= from,
        a.len() == b.len(),
        forall|i: int| 0 <= i < a.len() ==> (#[trigger] a[i]).node == b[i].node,
    ensures
        device_position(a, node, from) == device_position(b, node, from),
    decreases a.len() - from,
{
    if from < a.len() {
        lemma_position_same_nodes(a, b, node, from + 1);
    }
}

/// Asking for a frame of one CRTC of a device touches exactly the surface of
/// that CRTC; asking for frames of a device touches every surface that the
/// device owns. No other device is touched. A device that lost its context
/// is not touched at all.
pub proof fn lemma_render_touches(state: StateView, node: u64, crtc: Option<u32>, now: u64)
    ensures
        state.rendered(node, crtc, now).devices.len() == state.devices.len(),
        forall|i: int|
            0 <= i < state.devices.len() && Some(i) != state.position(node) ==> (
            #[trigger] state.rendered(node, crtc, now).devices[i]) == state.devices[i],
        state.position(node) matches Some(d) ==> {
            &&& state.rendered(node, crtc, now).devices[d].surfaces.len()
                == state.devices[d].surfaces.len()
            &&& !state.devices[d].lost ==> forall|k: int|
                0 <= k < state.devices[d].surfaces.len() ==> (#[trigger] state.rendered(
                    node,
                    crtc,
                    now,
                ).devices[d].surfaces[k]) == if crtc is None || (crtc matches Some(c) && Some(k)
                    == state.devices[d].position(c)) {
                    state.devices[d].surfaces[k].after_acquire()
                } else {
                    state.devices[d].surfaces[k]
                }
            &&& state.devices[d].lost ==> state.rendered(node, crtc, now) == state
                && state.render_actions(node, crtc, false).len() == 0
            &&& crtc is Some ==> state.render_actions(node, crtc, false).len() <= 1
            &&& crtc is None ==> state.render_actions(node, crtc, false).len()
                <= state.devices[d].surfaces.len()
        },
        state.position(node) is None ==> state.render_actions(node, crtc, false).len() == 0,
{
    lemma_position(state.devices, node, 0);
    if let Some(d) = state.position(node) {
        crate::device::lemma_render_touches(state.devices[d], crtc, false);
        if state.devices[d].lost {
            assert(state.rendered(node, crtc, now).devices =~= state.devices);
        }
    }
}

/// A pause of the session loses nothing: the registry holds the same devices
/// with the same surfaces bound to the same CRTCs, and no render is taken
/// off the list.
pub proof fn lemma_pause_keeps_everything(state: StateView)
    ensures
        state.paused().devices.len() == state.devices.len(),
        state.paused().tasks == state.tasks,
        forall|i: int|
            0 <= i < state.devices.len() ==> {
                &&& (#[trigger] state.paused().devices[i]).node == state.devices[i].node
                &&& state.paused().devices[i].bindings == state.devices[i].bindings
                &&& state.paused().devices[i].surfaces.len() == state.devices[i].surfaces.len()
            },
        surface_count(state.paused().devices, state.devices.len() as int) == surface_count(
            state.devices,
            state.devices.len() as int,
        ),
{
    lemma_surface_count_same(state.devices, state.paused().devices, state.devices.len() as int);
}

/// Lists of devices with as many surfaces each hold as many surfaces.
pub proof fn lemma_surface_count_same(a: Seq<DeviceView>, b: Seq<DeviceView>, n: int)
    requires
        n <= a.len() == b.len(),
        forall|i: int| 0 <= i < a.len() ==> (#[trigger] a[i]).surfaces.len() == b[i].surfaces.len(),
    ensures
        surface_count(a, n) == surface_count(b, n),
    decreases n,
{
    if n > 0 {
        lemma_surface_count_same(a, b, n - 1);
    }
}

/// When the session comes back, no device and no surface is lost, every
/// surface's buffers have unknown age, and exactly one frame is asked for
/// each surface of each device that has its rendering context: as many
/// frames as those devices have surfaces.
pub proof fn lemma_activate_renders_each(state: StateView, now: u64)
    requires
        state.wf(),
    ensures
        state.activated(now).devices.len() == state.devices.len(),
        state.activated(now).tasks == state.tasks,
        forall|i: int|
            0 <= i < state.devices.len() ==> {
                &&& (#[trigger] state.activated(now).devices[i]).node == state.devices[i].node
                &&& state.activated(now).devices[i].bindings == state.devices[i].bindings
                &&& state.activated(now).devices[i].surfaces.len() == state.devices[i].surfaces.len()
                &&& forall|k: int, b: int|
                    0 <= k < state.devices[i].surfaces.len() && 0 <= b < state.devices[i].surfaces[k].ages.len()
                        ==> (#[trigger] state.activated(now).devices[i].surfaces[k].ages[b])
                        == AGE_UNKNOWN
            },
        rerender_actions(state.woken(), state.devices.len() as int) == first_frames(
            state.devices,
            state.devices.len() as int,
        ),
        first_frames(state.devices, state.devices.len() as int).len() == live_surface_count(
            state.devices,
            state.devices.len() as int,
        ),
{
    lemma_rerender(state, now, state.devices.len() as int);
}

/// The frames asked of the first `n` devices when the session came back.
proof fn lemma_rerender(state: StateView, now: u64, n: int)
    requires
        state.wf(),
        0 <= n <= state.devices.len(),
    ensures
        rerender_tasks(state.woken(), state.tasks, now, n) == state.tasks,
        rerender_actions(state.woken(), n) == first_frames(state.devices, n),
        first_frames(state.devices, n).len() == live_surface_count(state.devices, n),
    decreases n,
{
    if n > 0 {
        lemma_rerender(state, now, n - 1);
        let device = state.devices[n - 1];
        let woken = state.woken()[n - 1];
        assert forall|k: int| 0 <= k < woken.surfaces.len() implies {
            &&& (#[trigger] woken.surfaces[k]).active
            &&& woken.surfaces[k].ages.len() > 0
            &&& woken.surfaces[k].ages[0] == AGE_UNKNOWN
            &&& woken.surfaces[k].acquired is None
            &&& woken.surfaces[k].in_flight is None
            &&& woken.surfaces[k].front is None
        } by {
            assert(device.surfaces[k].wf());
        }
        if !device.lost {
            crate::device::lemma_first_frames(
                woken.surfaces,
            woken.node,
            false,
            state.tasks,
            now,
                woken.surfaces.len() as int,
            );
        }
    }
}

} // verus!
