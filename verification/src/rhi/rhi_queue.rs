//! What a queue has been given to run, and how far it has come.
//!
//! A queue takes command lists in the order in which they are submitted
//! and starts them in that order. A submission starts only when every
//! semaphore that it waits for is signaled. When it is done, the
//! semaphores that it signals are signaled, then its fence. Two queues are
//! ordered against each other by semaphores and by nothing else.

use crate::rhi::rhi_commands::{CommandListState, CommandRecorder};
use crate::rhi::rhi_enums::QueueType;
use crate::rhi::rhi_structs::{FenceHandle, SemaphoreHandle};
use crate::rhi::rhi_sync::{all_up, raised, semaphore_ids, SyncPool};
use vstd::prelude::*;

verus! {

/// One command list on a queue, with the fence and semaphores it was submitted with.
pub struct Submission {
    pub commands: CommandRecorder,
    pub fence_to_signal: FenceHandle,
    pub wait_semaphores: Vec<SemaphoreHandle>,
    pub signal_semaphores: Vec<SemaphoreHandle>,
}

/// The submissions of a queue, oldest first, and how many of them have started and finished.
struct Timeline {
    submissions: Vec<Submission>,
    started: usize,
    finished: usize,
}

impl Timeline {
    fn empty() -> (timeline: Timeline)
        ensures
            timeline.submissions@ == Seq::<Submission>::empty(),
            timeline.started == 0,
            timeline.finished == 0,
    {
        Timeline { submissions: Vec::new(), started: 0, finished: 0 }
    }
}

/// The mathematical content of a queue.
pub struct QueueState {
    /// The type of work that the queue takes
    pub queue_type: QueueType,
    /// Everything that was ever submitted, oldest first
    pub submissions: Seq<Submission>,
    /// How many submissions have started; they are the oldest ones
    pub started: nat,
    /// How many submissions have finished; they are the oldest ones
    pub finished: nat,
}

impl QueueState {
    /// The state of the command list of submission number `index`.
    pub open spec fn state_of(self, index: int) -> CommandListState {
        if index < self.finished {
            CommandListState::Completed
        } else if index < self.started {
            CommandListState::Pending
        } else {
            CommandListState::Submitted
        }
    }

    /// Whether every submission has started: a new one has none to queue behind.
    pub open spec fn is_free(self) -> bool {
        self.started == self.submissions.len()
    }

    /// Whether the oldest submission that has not started can start: there is one, and every
    /// semaphore that it waits for is signaled in `semaphores`.
    pub open spec fn next_can_start(self, semaphores: Seq<bool>) -> bool {
        &&& self.started < self.submissions.len()
        &&& all_up(
            semaphores,
            semaphore_ids(self.submissions[self.started as int].wait_semaphores@),
        )
    }

    /// Whether there is a submission that has started and not finished.
    pub open spec fn next_can_finish(self) -> bool {
        self.finished < self.started
    }

    /// The queue after the oldest submission that can start has started.
    pub open spec fn after_start(self, semaphores: Seq<bool>) -> QueueState {
        if self.next_can_start(semaphores) {
            QueueState { started: self.started + 1, ..self }
        } else {
            self
        }
    }

    /// The queue after the oldest submission that can finish has finished.
    pub open spec fn after_finish(self) -> QueueState {
        if self.next_can_finish() {
            QueueState { finished: self.finished + 1, ..self }
        } else {
            self
        }
    }

    /// The semaphores after the oldest submission that can finish has finished: the ones
    /// that it signals are signaled.
    pub open spec fn semaphores_after_finish(self, semaphores: Seq<bool>) -> Seq<bool> {
        if self.next_can_finish() {
            raised(
                semaphores,
                semaphore_ids(self.submissions[self.finished as int].signal_semaphores@),
            )
        } else {
            semaphores
        }
    }

    /// The fences after the oldest submission that can finish has finished: its fence is
    /// signaled.
    pub open spec fn fences_after_finish(self, fences: Seq<bool>) -> Seq<bool> {
        if self.next_can_finish() {
            raised(fences, seq![self.submissions[self.finished as int].fence_to_signal.id])
        } else {
            fences
        }
    }
}

/// A submission that waits for no semaphore can start as soon as every submission before it
/// has started, whatever the semaphores are.
pub proof fn lemma_unwaiting_submission_starts(
    queue: QueueState,
    submission: Submission,
    semaphores: Seq<bool>,
)
    requires
        queue.is_free(),
        submission.wait_semaphores@.len() == 0,
    ensures
        (QueueState { submissions: queue.submissions.push(submission), ..queue }).next_can_start(
            semaphores,
        ),
{
}

/// The work of one queue.
pub struct SubmissionQueue {
    queue_type: QueueType,
    timeline: Timeline,
}

impl View for SubmissionQueue {
    type V = QueueState;

    closed spec fn view(&self) -> QueueState {
        QueueState {
            queue_type: self.queue_type,
            submissions: self.timeline.submissions@,
            started: self.timeline.started as nat,
            finished: self.timeline.finished as nat,
        }
    }
}

impl SubmissionQueue {
    #[verifier::type_invariant]
    spec fn in_order(self) -> bool {
        self.timeline.finished <= self.timeline.started <= self.timeline.submissions@.len()
    }

    /// A queue for work of type `queue_type`, with nothing submitted.
    pub fn new(queue_type: QueueType) -> (queue: SubmissionQueue)
        ensures
            queue@ == (QueueState {
                queue_type,
                submissions: Seq::empty(),
                started: 0,
                finished: 0,
            }),
    {
        SubmissionQueue { queue_type, timeline: Timeline::empty() }
    }

    /// The type of work that the queue takes.
    pub fn get_queue_type(&self) -> (queue_type: QueueType)
        ensures
            queue_type == self@.queue_type,
    {
        self.queue_type
    }

    /// How many submissions there are.
    pub fn len(&self) -> (len: usize)
        ensures
            len == self@.submissions.len(),
    {
        self.timeline.submissions.len()
    }

    /// How many submissions have started and how many have finished. No more have finished
    /// than started, and no more started than were submitted.
    pub fn progress(&self) -> (progress: (usize, usize))
        ensures
            progress.0 == self@.started,
            progress.1 == self@.finished,
            progress.1 <= progress.0 <= self@.submissions.len(),
    {
        proof {
            use_type_invariant(self);
        }
        (self.timeline.started, self.timeline.finished)
    }

    /// The state of the command list of submission number `index`, if there is such a
    /// submission.
    pub fn submission_state(&self, index: usize) -> (state: Option<CommandListState>)
        ensures
            index < self@.submissions.len() ==> state == Some(self@.state_of(index as int)),
            index >= self@.submissions.len() ==> state is None,
    {
        if index >= self.timeline.submissions.len() {
            None
        } else if index < self.timeline.finished {
            Some(CommandListState::Completed)
        } else if index < self.timeline.started {
            Some(CommandListState::Pending)
        } else {
            Some(CommandListState::Submitted)
        }
    }

    /// Whether the queue takes `commands`: whether the list has no renderpass open and is of
    /// the queue's type.
    pub fn accepts(&self, commands: &CommandRecorder) -> (accepted: bool)
        ensures
            accepted == (!commands@.in_renderpass() && commands@.list_type == self@.queue_type),
    {
        !commands.is_in_renderpass() && commands.queue_type() == self.queue_type
    }

    /// Submits a command list to this queue, behind everything submitted before.
    ///
    /// The list must have no renderpass open and must be of the queue's type.
    pub fn submit_commands(
        &mut self,
        commands: CommandRecorder,
        fence_to_signal: FenceHandle,
        wait_semaphores: Vec<SemaphoreHandle>,
        signal_semaphores: Vec<SemaphoreHandle>,
    )
        requires
            !commands@.in_renderpass(),
            commands@.list_type == old(self)@.queue_type,
        ensures
            final(self)@ == (QueueState {
                submissions: old(self)@.submissions.push(
                    Submission { commands, fence_to_signal, wait_semaphores, signal_semaphores },
                ),
                ..old(self)@
            }),
            wait_semaphores@.len() == 0 && old(self)@.is_free() ==> forall|semaphores: Seq<bool>|
                #[trigger] final(self)@.next_can_start(semaphores),
    {
        proof {
            use_type_invariant(&*self);
        }
        let mut timeline = Timeline::empty();
        core::mem::swap(&mut timeline, &mut self.timeline);
        timeline.submissions.push(
            Submission { commands, fence_to_signal, wait_semaphores, signal_semaphores },
        );
        core::mem::swap(&mut timeline, &mut self.timeline);
    }

    /// Starts the oldest submission that has not started, if it can start. No submission
    /// overtakes an older one, and none starts before its semaphores are signaled.
    pub fn start_next(&mut self, sync: &SyncPool) -> (started: bool)
        ensures
            started == old(self)@.next_can_start(sync.semaphores()),
            final(self)@ == old(self)@.after_start(sync.semaphores()),
    {
        proof {
            use_type_invariant(&*self);
        }
        let next = self.timeline.started;
        if next >= self.timeline.submissions.len() {
            return false;
        }
        if !sync.all_semaphores_signaled(&self.timeline.submissions[next].wait_semaphores) {
            return false;
        }
        self.timeline.started = next + 1;
        true
    }

    /// Finishes the oldest submission that has started and not finished, if there is one:
    /// the semaphores that it signals are signaled in `sync`, then its fence.
    pub fn finish_next(&mut self, sync: &mut SyncPool) -> (finished: bool)
        ensures
            finished == old(self)@.next_can_finish(),
            final(self)@ == old(self)@.after_finish(),
            final(sync).semaphores() == old(self)@.semaphores_after_finish(old(sync).semaphores()),
            final(sync).fences() == old(self)@.fences_after_finish(old(sync).fences()),
    {
        proof {
            use_type_invariant(&*self);
        }
        let next = self.timeline.finished;
        if next >= self.timeline.started {
            return false;
        }
        sync.signal_semaphores(&self.timeline.submissions[next].signal_semaphores);
        sync.signal_fence(self.timeline.submissions[next].fence_to_signal);
        self.timeline.finished = next + 1;
        true
    }
}

} // verus!
