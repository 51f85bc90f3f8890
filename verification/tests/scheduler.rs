use display_backend::router::{GpuManager, RenderPath};
use display_backend::scheduler::{classify, Scheduler, Task, TaskKind, Verdict, FRAME_INTERVAL_MS};
use display_backend::surface::{Cause, SwapBuffersError};

#[test]
fn failures_are_classified() {
    assert_eq!(classify(SwapBuffersError::AlreadySwapped), Verdict::Ignore);
    assert_eq!(
        classify(SwapBuffersError::TemporaryFailure(Cause::DeviceInactive)),
        Verdict::Wait
    );
    assert_eq!(
        classify(SwapBuffersError::TemporaryFailure(Cause::PermissionDenied)),
        Verdict::Wait
    );
    assert_eq!(classify(SwapBuffersError::TemporaryFailure(Cause::NoFreeSlot)), Verdict::Retry);
    assert_eq!(
        classify(SwapBuffersError::TemporaryFailure(Cause::Other { code: 16 })),
        Verdict::Retry
    );
    assert_eq!(classify(SwapBuffersError::ContextLost(Cause::Other { code: 5 })), Verdict::Fatal);
    assert_eq!(classify(SwapBuffersError::ContextLost(Cause::DeviceInactive)), Verdict::Fatal);
}

#[test]
fn inactive_device_schedules_no_retry() {
    let mut scheduler = Scheduler::new();
    let verdict = scheduler.on_failure(
        1,
        2,
        SwapBuffersError::TemporaryFailure(Cause::DeviceInactive),
        1000,
    );
    assert_eq!(verdict, Verdict::Wait);
    assert_eq!(scheduler.len(), 0);
}

#[test]
fn permission_denied_schedules_no_retry() {
    let mut scheduler = Scheduler::new();
    scheduler.on_failure(1, 2, SwapBuffersError::TemporaryFailure(Cause::PermissionDenied), 1000);
    assert_eq!(scheduler.len(), 0);
}

#[test]
fn other_temporary_failure_schedules_one_retry_a_frame_later() {
    let mut scheduler = Scheduler::new();
    let verdict = scheduler.on_failure(
        7,
        3,
        SwapBuffersError::TemporaryFailure(Cause::Other { code: 11 }),
        1000,
    );
    assert_eq!(verdict, Verdict::Retry);
    assert_eq!(FRAME_INTERVAL_MS, 16);
    assert_eq!(
        scheduler.tasks(),
        &vec![Task { node: 7, crtc: 3, due: 1016, kind: TaskKind::Retry }]
    );
}

#[test]
fn pending_flip_and_lost_context_schedule_nothing() {
    let mut scheduler = Scheduler::new();
    scheduler.on_failure(1, 2, SwapBuffersError::AlreadySwapped, 0);
    scheduler.on_failure(1, 2, SwapBuffersError::ContextLost(Cause::Other { code: 1 }), 0);
    assert_eq!(scheduler.len(), 0);
}

#[test]
fn retry_time_saturates() {
    let mut scheduler = Scheduler::new();
    scheduler.on_failure(1, 2, SwapBuffersError::TemporaryFailure(Cause::NoFreeSlot), u64::MAX - 3);
    assert_eq!(scheduler.tasks()[0].due, u64::MAX);
}

#[test]
fn due_tasks_are_taken_in_order() {
    let mut scheduler = Scheduler::new();
    scheduler.on_failure(1, 1, SwapBuffersError::TemporaryFailure(Cause::NoFreeSlot), 100);
    scheduler.schedule_idle(1, 2, 105);
    scheduler.on_failure(2, 1, SwapBuffersError::TemporaryFailure(Cause::NoFreeSlot), 90);
    scheduler.schedule_initial(3, 9, 200);
    let due = scheduler.take_due(110);
    assert_eq!(
        due,
        vec![
            Task { node: 1, crtc: 2, due: 105, kind: TaskKind::Idle },
            Task { node: 2, crtc: 1, due: 106, kind: TaskKind::Retry },
        ]
    );
    assert_eq!(
        scheduler.tasks(),
        &vec![
            Task { node: 1, crtc: 1, due: 116, kind: TaskKind::Retry },
            Task { node: 3, crtc: 9, due: 200, kind: TaskKind::Initial },
        ]
    );
    assert!(scheduler.take_due(0).is_empty());
}

#[test]
fn removed_device_loses_its_tasks() {
    let mut scheduler = Scheduler::new();
    scheduler.schedule_idle(1, 1, 0);
    scheduler.schedule_idle(2, 1, 0);
    scheduler.schedule_idle(1, 2, 0);
    assert_eq!(scheduler.cancel_device(1), 2);
    assert_eq!(scheduler.tasks(), &vec![Task { node: 2, crtc: 1, due: 0, kind: TaskKind::Idle }]);
    assert_eq!(scheduler.cancel_device(1), 0);
}

#[test]
fn primary_gpu_renders_directly() {
    let mut gpus = GpuManager::new();
    assert!(gpus.add_node(128));
    assert!(!gpus.add_node(128));
    assert_eq!(gpus.route(128, 128, 875713112), Some(RenderPath::Direct { node: 128 }));
    assert_eq!(gpus.single_renderer(128), Some(RenderPath::Direct { node: 128 }));
    assert_eq!(gpus.single_renderer(129), None);
}

#[test]
fn secondary_gpu_renders_across() {
    let mut gpus = GpuManager::new();
    gpus.add_node(128);
    gpus.add_node(129);
    assert_eq!(
        gpus.route(128, 129, 875713112),
        Some(RenderPath::CrossGpu { render: 128, target: 129, format: 875713112 })
    );
    assert!(gpus.remove_node(128));
    assert!(!gpus.remove_node(128));
    assert!(!gpus.contains(128));
    assert!(gpus.contains(129));
    assert_eq!(gpus.route(128, 129, 875713112), None);
    assert_eq!(gpus.renderer(129, 129, 1), Some(RenderPath::CrossGpu { render: 129, target: 129, format: 1 }));
}
