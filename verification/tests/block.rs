use k3_drivers::block::{
    execute_sync, BlkError, ControllerEvent, ControllerUpdate, Execution, RequestOp,
    SyncBlockController, SyncHardwareQueue,
};

#[test]
fn queue_is_handed_over_on_the_first_start_only() {
    let mut controller = SyncBlockController::new(1000, 512);
    assert_eq!(controller.device_info().num_blocks, 1000);
    assert_eq!(controller.max_io_queues(), 1);
    assert_eq!(controller.advance(ControllerEvent::Other), ControllerUpdate::Ready);
    assert_eq!(controller.advance(ControllerEvent::Start), ControllerUpdate::ReadyWithQueue);
    assert_eq!(controller.advance(ControllerEvent::Start), ControllerUpdate::Ready);
    assert_eq!(controller.advance(ControllerEvent::Watchdog), ControllerUpdate::Shutdown);
    assert_eq!(controller.advance(ControllerEvent::Shutdown), ControllerUpdate::Shutdown);
}

#[test]
fn transfers_need_a_buffer() {
    assert_eq!(execute_sync(RequestOp::Read, true), Execution::ReadBlocks);
    assert_eq!(execute_sync(RequestOp::Write, true), Execution::WriteBlocks);
    let refused = Execution::Finished { result: Err(BlkError::InvalidRequest) };
    assert_eq!(execute_sync(RequestOp::Read, false), refused);
    assert_eq!(execute_sync(RequestOp::Write, false), refused);
    assert_eq!(execute_sync(RequestOp::Flush, false), Execution::Finished { result: Ok(()) });
}

#[test]
fn results_are_collected_in_order() {
    let mut queue: SyncHardwareQueue<&'static str> = SyncHardwareQueue::new();
    assert_eq!(queue.submit(Ok(()), Some("a")), 0);
    assert_eq!(queue.submit(Err(BlkError::InvalidRequest), None), 1);
    let collected = queue.drain_completions();
    assert_eq!(collected.len(), 2);
    assert_eq!((collected[0].id, collected[0].result, collected[0].data), (0, Ok(()), Some("a")));
    assert_eq!(collected[1].result, Err(BlkError::InvalidRequest));
    assert!(queue.drain_completions().is_empty());
    assert_eq!(queue.submit(Ok(()), None), 2);
}

#[test]
fn shutdown_fails_what_was_not_collected() {
    let mut queue: SyncHardwareQueue<u8> = SyncHardwareQueue::new();
    queue.submit(Ok(()), Some(1));
    queue.submit(Ok(()), Some(2));
    let collected = queue.shutdown();
    assert_eq!(collected.len(), 2);
    for (i, completion) in collected.iter().enumerate() {
        assert_eq!(completion.id, i);
        assert_eq!(completion.result, Err(BlkError::Io));
        assert_eq!(completion.data, Some(i as u8 + 1));
    }
    assert!(queue.shutdown().is_empty());
}
