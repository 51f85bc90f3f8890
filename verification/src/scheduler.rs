//! The frame scheduler: what a failed frame leads to, and the list of
//! renders that are due later.
//!
//! A frame that finds a flip still pending is no failure. A frame that fails
//! for the moment is tried again one frame interval later, unless the device
//! is paused or access was denied: then the device cannot be used right now,
//! and the frame is rendered anew when the session comes back. A lost context
//! ends the rendering of the device.

use vstd::prelude::*;
use crate::surface::{Cause, SwapBuffersError};

verus! {

/// Delay before a failed frame is tried again: one frame at 60 Hz, in
/// milliseconds.
pub const FRAME_INTERVAL_MS: u64 = 16;

/// What a failed attempt to present a frame leads to.
#[derive(Clone, Copy, Debug, PartialEq, Eq, Structural)]
pub enum Verdict {
    /// A flip was pending: nothing to do.
    Ignore,
    /// The device cannot be used right now: no retry is scheduled.
    Wait,
    /// The frame is tried again after `FRAME_INTERVAL_MS`.
    Retry,
    /// The context is lost: the device's rendering must end.
    Fatal,
}

/// Why a render is on the list.
#[derive(Clone, Copy, Debug, PartialEq, Eq, Structural)]
pub enum TaskKind {
    /// A frame failed and is tried again.
    Retry,
    /// A frame is due as soon as the loop is idle.
    Idle,
    /// The first, blank frame of a new surface is due.
    Initial,
}

/// A render that is due later, for one CRTC of one device.
#[derive(Clone, Copy, Debug, PartialEq, Eq, Structural)]
pub struct Task {
    /// The device.
    pub node: u64,
    /// The CRTC.
    pub crtc: u32,
    /// The time in milliseconds from which the render is due.
    pub due: u64,
    /// Why the render is on the list.
    pub kind: TaskKind,
}

/// The renders that are due later, in the order they were scheduled.
#[derive(Debug)]
pub struct Scheduler {
    tasks: Vec<Task>,
}

/// The verdict on a failure.
pub open spec fn verdict_of(error: SwapBuffersError) -> Verdict {
    match error {
        SwapBuffersError::AlreadySwapped => Verdict::Ignore,
        SwapBuffersError::TemporaryFailure(Cause::DeviceInactive) => Verdict::Wait,
        SwapBuffersError::TemporaryFailure(Cause::PermissionDenied) => Verdict::Wait,
        SwapBuffersError::TemporaryFailure(_) => Verdict::Retry,
        SwapBuffersError::ContextLost(_) => Verdict::Fatal,
    }
}

/// The time at which a retry scheduled at `now` is due.
pub open spec fn retry_due(now: u64) -> u64 {
    if now + FRAME_INTERVAL_MS > u64::MAX {
        u64::MAX
    } else {
        (now + FRAME_INTERVAL_MS) as u64
    }
}

/// The retry that a failure at `now` schedules.
pub open spec fn retry_task(node: u64, crtc: u32, now: u64) -> Task {
    Task { node, crtc, due: retry_due(now), kind: TaskKind::Retry }
}

/// The list after a failure was handled: one retry more where the verdict
/// is to retry, else the list as it was.
pub open spec fn after_failure(tasks: Seq<Task>, node: u64, crtc: u32, error: SwapBuffersError, now: u64)
    -> Seq<Task> {
    if verdict_of(error) == Verdict::Retry {
        tasks.push(retry_task(node, crtc, now))
    } else {
        tasks
    }
}

/// The tasks of the list that are due at `now`, in order.
pub open spec fn due_at(tasks: Seq<Task>, now: u64) -> Seq<Task> {
    tasks.filter(|t: Task| t.due <= now)
}

/// The tasks of the list that are not yet due at `now`, in order.
pub open spec fn later_than(tasks: Seq<Task>, now: u64) -> Seq<Task> {
    tasks.filter(|t: Task| t.due > now)
}

/// The tasks of the list that belong to other devices, in order.
pub open spec fn without_device(tasks: Seq<Task>, node: u64) -> Seq<Task> {
    tasks.filter(|t: Task| t.node != node)
}

/// Classifies a failure.
pub fn classify(error: SwapBuffersError) -> (r: Verdict)
    ensures
        r == verdict_of(error),
{
    match error {
        SwapBuffersError::AlreadySwapped => Verdict::Ignore,
        SwapBuffersError::TemporaryFailure(cause) => match cause {
            Cause::DeviceInactive => Verdict::Wait,
            Cause::PermissionDenied => Verdict::Wait,
            _ => Verdict::Retry,
        },
        SwapBuffersError::ContextLost(_) => Verdict::Fatal,
    }
}

impl View for Scheduler {
    type V = Seq<Task>;

    closed spec fn view(&self) -> Seq<Task> {
        self.tasks@
    }
}

impl Scheduler {
    /// A scheduler with nothing due.
    pub fn new() -> (r: Scheduler)
        ensures
            r@ == Seq::<Task>::empty(),
    {
        Scheduler { tasks: Vec::new() }
    }

    /// Number of renders on the list.
    pub fn len(&self) -> (r: usize)
        ensures
            r == self@.len(),
    {
        self.tasks.len()
    }

    /// The renders on the list, in the order they were scheduled.
    pub fn tasks(&self) -> (r: &Vec<Task>)
        ensures
            r@ == self@,
    {
        &self.tasks
    }

    /// Puts a render on the list that is due as soon as the loop is idle.
    pub fn schedule_idle(&mut self, node: u64, crtc: u32, now: u64)
        ensures
            final(self)@ == old(self)@.push(Task { node, crtc, due: now, kind: TaskKind::Idle }),
    {
        self.tasks.push(Task { node, crtc, due: now, kind: TaskKind::Idle });
    }

    /// Puts the first, blank frame of a new surface on the list, due as soon
    /// as the loop is idle.
    pub fn schedule_initial(&mut self, node: u64, crtc: u32, now: u64)
        ensures
            final(self)@ == old(self)@.push(Task { node, crtc, due: now, kind: TaskKind::Initial }),
    {
        self.tasks.push(Task { node, crtc, due: now, kind: TaskKind::Initial });
    }

    /// Handles a failed frame of a CRTC. A failure that asks for a retry puts
    /// exactly one render on the list, due one frame interval after `now`.
    /// Any other failure leaves the list as it is. Returns the verdict.
    pub fn on_failure(&mut self, node: u64, crtc: u32, error: SwapBuffersError, now: u64) -> (r:
        Verdict)
        ensures
            r == verdict_of(error),
            final(self)@ == after_failure(old(self)@, node, crtc, error, now),
    {
        let verdict = classify(error);
        if verdict == Verdict::Retry {
            let due = if now > u64::MAX - FRAME_INTERVAL_MS {
                u64::MAX
            } else {
                now + FRAME_INTERVAL_MS
            };
            self.tasks.push(Task { node, crtc, due, kind: TaskKind::Retry });
        }
        verdict
    }

    /// Takes the renders that are due at `now` off the list and returns them
    /// in the order they were scheduled. The others stay, in order.
    pub fn take_due(&mut self, now: u64) -> (r: Vec<Task>)
        ensures
            r@ == due_at(old(self)@, now),
            final(self)@ == later_than(old(self)@, now),
    {
        let ghost before = self.tasks@;
        let mut due: Vec<Task> = Vec::new();
        let mut later: Vec<Task> = Vec::new();
        let mut i: usize = 0;
        proof {
            reveal(Seq::filter);
        }
        while i < self.tasks.len()
            invariant
                i <= self.tasks.len(),
                self.tasks@ == before,
                due@ == due_at(before.take(i as int), now),
                later@ == later_than(before.take(i as int), now),
            decreases self.tasks.len() - i,
        {
            proof {
                reveal(Seq::filter);
                assert(before.take(i as int + 1).drop_last() =~= before.take(i as int));
            }
            let task = self.tasks[i];
            if task.due <= now {
                due.push(task);
            } else {
                later.push(task);
            }
            i += 1;
        }
        assert(before.take(before.len() as int) =~= before);
        self.tasks = later;
        due
    }

    /// Takes every render of a device off the list, as when the device is
    /// removed. Returns how many were taken off.
    pub fn cancel_device(&mut self, node: u64) -> (r: usize)
        ensures
            final(self)@ == without_device(old(self)@, node),
            r == old(self)@.len() - final(self)@.len(),
    {
        let ghost before = self.tasks@;
        let mut kept: Vec<Task> = Vec::new();
        let mut i: usize = 0;
        proof {
            reveal(Seq::filter);
        }
        while i < self.tasks.len()
            invariant
                i <= self.tasks.len(),
                self.tasks@ == before,
                kept@ == without_device(before.take(i as int), node),
                kept@.len() <= i,
            decreases self.tasks.len() - i,
        {
            proof {
                reveal(Seq::filter);
                assert(before.take(i as int + 1).drop_last() =~= before.take(i as int));
            }
            let task = self.tasks[i];
            if task.node != node {
                kept.push(task);
            }
            i += 1;
        }
        assert(before.take(before.len() as int) =~= before);
        let cancelled = self.tasks.len() - kept.len();
        self.tasks = kept;
        cancelled
    }
}

/// A failure for the moment never schedules a retry while the device is
/// paused, and schedules exactly one retry, one frame interval later, where
/// the cause is neither a paused device nor denied permission.
pub proof fn lemma_retry_policy(tasks: Seq<Task>, node: u64, crtc: u32, cause: Cause, now: u64)
    ensures
        cause == Cause::DeviceInactive ==> after_failure(
            tasks,
            node,
            crtc,
            SwapBuffersError::TemporaryFailure(cause),
            now,
        ) == tasks,
        cause != Cause::DeviceInactive && cause != Cause::PermissionDenied ==> after_failure(
            tasks,
            node,
            crtc,
            SwapBuffersError::TemporaryFailure(cause),
            now,
        ) == tasks.push(Task { node, crtc, due: retry_due(now), kind: TaskKind::Retry }),
        now <= u64::MAX - FRAME_INTERVAL_MS ==> retry_due(now) == now + 16,
{
}

} // verus!
