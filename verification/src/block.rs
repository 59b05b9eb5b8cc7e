//! Block controllers that finish each request before they accept the next.
//!
//! The controller offers one queue. A request is carried out when it is
//! submitted, and its result waits in the queue until it is collected.

use std::collections::VecDeque;
use vstd::prelude::*;

verus! {

/// Why a request is refused or fails.
#[derive(Clone, Copy, Debug, PartialEq, Eq, Structural)]
pub enum BlkError {
    InvalidRequest,
    Io,
}

/// What a controller is asked.
#[derive(Clone, Copy, Debug, PartialEq, Eq, Structural)]
pub enum ControllerEvent {
    Start,
    Watchdog,
    Shutdown,
    /// Anything that needs hardware queues or interrupts.
    Other,
}

/// What a controller answers.
#[derive(Clone, Copy, Debug, PartialEq, Eq, Structural)]
pub enum ControllerUpdate {
    /// It works, and hands its queue over.
    ReadyWithQueue,
    /// It works.
    Ready,
    /// It has stopped.
    Shutdown,
}

/// What the controller tells of its device.
#[derive(Clone, Copy, Debug, PartialEq, Eq, Structural)]
pub struct DeviceInfo {
    pub num_blocks: u64,
    pub block_size: usize,
}

/// A controller with one queue.
#[derive(Clone, Copy, Debug, PartialEq, Eq, Structural)]
pub struct SyncBlockController {
    pub device_info: DeviceInfo,
    /// The queue has been handed over.
    pub queue_taken: bool,
}

impl SyncBlockController {
    /// A controller whose queue is still to be handed over.
    pub fn new(num_blocks: u64, block_size: usize) -> (controller: SyncBlockController)
        ensures
            controller == (SyncBlockController {
                device_info: DeviceInfo { num_blocks, block_size },
                queue_taken: false,
            }),
    {
        SyncBlockController {
            device_info: DeviceInfo { num_blocks, block_size },
            queue_taken: false,
        }
    }

    /// The device.
    pub fn device_info(&self) -> (info: DeviceInfo)
        ensures
            info == self.device_info,
    {
        self.device_info
    }

    /// How many queues there are.
    pub fn max_io_queues(&self) -> (count: usize)
        ensures
            count == 1,
    {
        1
    }

    /// The answer to an event.
    pub open spec fn answer(self, event: ControllerEvent) -> ControllerUpdate {
        match event {
            ControllerEvent::Start => if self.queue_taken {
                ControllerUpdate::Ready
            } else {
                ControllerUpdate::ReadyWithQueue
            },
            ControllerEvent::Shutdown | ControllerEvent::Watchdog => ControllerUpdate::Shutdown,
            ControllerEvent::Other => ControllerUpdate::Ready,
        }
    }

    /// Answers an event. The first start hands the queue over.
    pub fn advance(&mut self, event: ControllerEvent) -> (update: ControllerUpdate)
        ensures
            update == old(self).answer(event),
            *final(self) == (SyncBlockController {
                queue_taken: old(self).queue_taken || event is Start,
                ..*old(self)
            }),
    {
        match event {
            ControllerEvent::Start => {
                if self.queue_taken {
                    ControllerUpdate::Ready
                } else {
                    self.queue_taken = true;
                    ControllerUpdate::ReadyWithQueue
                }
            },
            ControllerEvent::Shutdown | ControllerEvent::Watchdog => ControllerUpdate::Shutdown,
            ControllerEvent::Other => ControllerUpdate::Ready,
        }
    }
}

/// What a request asks for.
#[derive(Clone, Copy, Debug, PartialEq, Eq, Structural)]
pub enum RequestOp {
    Read,
    Write,
    Flush,
}

/// How a request is carried out.
#[derive(Clone, Copy, Debug, PartialEq, Eq)]
pub enum Execution {
    /// Blocks are read into the buffer.
    ReadBlocks,
    /// Blocks are written from the buffer.
    WriteBlocks,
    /// The device is not asked.
    Finished { result: Result<(), BlkError> },
}

/// How a request is carried out: a transfer needs a buffer, and a flush has
/// nothing to do.
pub open spec fn execution_of(op: RequestOp, with_data: bool) -> Execution {
    match op {
        RequestOp::Flush => Execution::Finished { result: Ok(()) },
        _ => if !with_data {
            Execution::Finished { result: Err(BlkError::InvalidRequest) }
        } else if op is Read {
            Execution::ReadBlocks
        } else {
            Execution::WriteBlocks
        },
    }
}

/// Decides how a request is carried out.
pub fn execute_sync(op: RequestOp, with_data: bool) -> (execution: Execution)
    ensures
        execution == execution_of(op, with_data),
{
    match op {
        RequestOp::Read => if with_data {
            Execution::ReadBlocks
        } else {
            Execution::Finished { result: Err(BlkError::InvalidRequest) }
        },
        RequestOp::Write => if with_data {
            Execution::WriteBlocks
        } else {
            Execution::Finished { result: Err(BlkError::InvalidRequest) }
        },
        RequestOp::Flush => Execution::Finished { result: Ok(()) },
    }
}

/// What became of a request, with its buffer.
pub struct Completion<T> {
    pub id: usize,
    pub result: Result<(), BlkError>,
    pub data: Option<T>,
}

/// A queue of results that wait to be collected.
pub struct SyncHardwareQueue<T> {
    next_id: usize,
    completed: VecDeque<Completion<T>>,
}

impl<T> SyncHardwareQueue<T> {
    /// The number of the next request.
    pub closed spec fn next_id(self) -> usize {
        self.next_id
    }

    /// The results that wait, the oldest first.
    pub closed spec fn waiting(self) -> Seq<Completion<T>> {
        self.completed@
    }

    /// Requests wait in the order of their numbers, and the numbers to come are
    /// larger.
    pub open spec fn ordered(self) -> bool {
        &&& forall|i: int, j: int|
            0 <= i < j < self.waiting().len() ==> (#[trigger] self.waiting()[i]).id < (
            #[trigger] self.waiting()[j]).id
        &&& forall|i: int|
            0 <= i < self.waiting().len() ==> (#[trigger] self.waiting()[i]).id < self.next_id()
    }

    /// An empty queue.
    pub fn new() -> (queue: SyncHardwareQueue<T>)
        ensures
            queue.ordered(),
            queue.next_id() == 0,
            queue.waiting() == Seq::<Completion<T>>::empty(),
    {
        SyncHardwareQueue { next_id: 0, completed: VecDeque::new() }
    }

    /// Takes in a request that was carried out, and numbers it.
    pub fn submit(&mut self, result: Result<(), BlkError>, data: Option<T>) -> (id: usize)
        requires
            old(self).next_id() < usize::MAX,
        ensures
            id == old(self).next_id(),
            final(self).next_id() == id + 1,
            final(self).waiting() == old(self).waiting().push((Completion { id, result, data })),
            old(self).ordered() ==> final(self).ordered(),
    {
        let id: usize = self.next_id;
        self.next_id = id + 1;
        self.completed.push_back(Completion { id, result, data });
        id
    }

    /// Collects every result, the oldest first.
    pub fn drain_completions(&mut self) -> (collected: Vec<Completion<T>>)
        ensures
            collected@ == old(self).waiting(),
            final(self).waiting() == Seq::<Completion<T>>::empty(),
            final(self).next_id() == old(self).next_id(),
    {
        let mut collected: Vec<Completion<T>> = Vec::new();
        let ghost all = self.completed@;
        while self.completed.len() > 0
            invariant
                collected@ + self.completed@ == all,
                self.next_id == old(self).next_id,
            decreases self.completed@.len(),
        {
            if let Some(completion) = self.completed.pop_front() {
                collected.push(completion);
            }
            assert(collected@ + self.completed@ =~= all);
        }
        assert(collected@ =~= all);
        collected
    }

    /// Collects every result as failed, the oldest first; the buffers come back
    /// with them.
    pub fn shutdown(&mut self) -> (collected: Vec<Completion<T>>)
        ensures
            collected@ == old(self).waiting().map_values(
                |c: Completion<T>|
                    Completion { id: c.id, result: Err::<(), BlkError>(BlkError::Io), data: c.data },
            ),
            final(self).waiting() == Seq::<Completion<T>>::empty(),
            final(self).next_id() == old(self).next_id(),
    {
        let mut collected: Vec<Completion<T>> = Vec::new();
        let ghost all = self.completed@;
        let ghost failed = |c: Completion<T>|
            Completion { id: c.id, result: Err::<(), BlkError>(BlkError::Io), data: c.data };
        while self.completed.len() > 0
            invariant
                failed == (|c: Completion<T>|
                    Completion { id: c.id, result: Err::<(), BlkError>(BlkError::Io), data: c.data }),
                collected@.len() + self.completed@.len() == all.len(),
                self.completed@ == all.skip(collected@.len() as int),
                collected@ == all.take(collected@.len() as int).map_values(failed),
                self.next_id == old(self).next_id,
            decreases self.completed@.len(),
        {
            let ghost count = collected@.len() as int;
            if let Some(completion) = self.completed.pop_front() {
                assert(completion == all[count]);
                collected.push(
                    Completion {
                        id: completion.id,
                        result: Err(BlkError::Io),
                        data: completion.data,
                    },
                );
            }
            assert(self.completed@ =~= all.skip(count + 1));
            assert(collected@ =~= all.take(count + 1).map_values(failed));
        }
        assert(all.take(all.len() as int) =~= all);
        collected
    }
}

/// No two requests that wait have the same number.
pub proof fn law_waiting_requests_are_distinct<T>(queue: SyncHardwareQueue<T>, i: int, j: int)
    requires
        queue.ordered(),
        0 <= i < queue.waiting().len(),
        0 <= j < queue.waiting().len(),
        i != j,
    ensures
        queue.waiting()[i].id != queue.waiting()[j].id,
{
    if i < j {
        assert(queue.waiting()[i].id < queue.waiting()[j].id);
    } else {
        assert(queue.waiting()[j].id < queue.waiting()[i].id);
    }
}

/// A controller hands its queue over once: whatever happens after the first
/// start, no event is answered with the queue again.
pub proof fn law_queue_is_handed_over_once(
    controller: SyncBlockController,
    event: ControllerEvent,
)
    requires
        controller.queue_taken,
    ensures
        controller.answer(event) != ControllerUpdate::ReadyWithQueue,
{
}

/// Only a read and a write with data move blocks, each in its own direction; a
/// flush is done at once, and a read or write without data is refused.
pub proof fn law_executions(op: RequestOp, with_data: bool, execution: Execution)
    requires
        call_ensures(execute_sync, (op, with_data), execution),
    ensures
        execution is ReadBlocks <==> op is Read && with_data,
        execution is WriteBlocks <==> op is Write && with_data,
        execution == (Execution::Finished { result: Ok(()) }) <==> op is Flush,
        execution == (Execution::Finished { result: Err(BlkError::InvalidRequest) }) <==> !(op
            is Flush) && !with_data,
{
}

/// Only a first start hands the queue out; a shutdown and a watchdog shut the
/// controller down, and nothing else does.
pub proof fn law_controller_answers(controller: SyncBlockController, event: ControllerEvent)
    ensures
        controller.answer(event) is ReadyWithQueue <==> event is Start && !controller.queue_taken,
        controller.answer(event) is Shutdown <==> event is Shutdown || event is Watchdog,
{
}

} // verus!
