//! The end of the process: the first reason to stop cancels all tasks, and
//! the process ends once every task has exited.

use vstd::prelude::*;

verus! {

/// What can happen while the tasks run.
#[derive(Clone, Copy, Debug, PartialEq, Eq, Hash, Structural)]
pub enum StopEvent {
    /// A task has exited.
    TaskExited,
    /// The user has interrupted the process.
    Interrupt,
    /// The process was asked to terminate.
    Terminate,
}

/// What the caller is to do after an event.
#[derive(Clone, Copy, Debug, PartialEq, Eq, Hash, Structural)]
pub enum CoordinatorAction {
    /// Signal the cancellation to all tasks, then wait for them.
    Cancel,
    /// Go on waiting for the tasks that still run.
    AwaitTasks,
    /// End the process, with success.
    Finish,
}

/// The state of the shutdown: how many tasks still run, and whether the
/// cancellation has been signalled.
#[derive(Clone, Copy, Debug, PartialEq, Eq, Structural)]
pub struct ShutdownCoordinator {
    pub running: usize,
    pub cancelled: bool,
}

/// The tasks that have exited in a run of events.
pub open spec fn exits_in(events: Seq<StopEvent>) -> nat {
    events.filter(|e: StopEvent| e is TaskExited).len()
}

impl ShutdownCoordinator {
    /// The state with all tasks running.
    pub open spec fn initial(tasks: usize) -> ShutdownCoordinator {
        ShutdownCoordinator { running: tasks, cancelled: false }
    }

    /// The state after an event: any event is a reason to cancel, and an
    /// exit leaves one task less.
    pub open spec fn after(self, event: StopEvent) -> ShutdownCoordinator {
        ShutdownCoordinator {
            running: if event is TaskExited && self.running > 0 {
                (self.running - 1) as usize
            } else {
                self.running
            },
            cancelled: true,
        }
    }

    /// The state after a run of events.
    pub open spec fn run(self, events: Seq<StopEvent>) -> ShutdownCoordinator
        decreases events.len(),
    {
        if events.len() == 0 {
            self
        } else {
            self.run(events.drop_last()).after(events.last())
        }
    }

    /// Whether the process may end: the cancellation has been signalled
    /// and no task runs any more.
    pub open spec fn finished(self) -> bool {
        self.cancelled && self.running == 0
    }

    /// What is to be done after an event that led from `self` to `next`:
    /// the cancellation is signalled when it has not been before, and the
    /// process ends when nothing is left to wait for.
    pub open spec fn action_after(self, next: ShutdownCoordinator) -> CoordinatorAction {
        if !self.cancelled {
            CoordinatorAction::Cancel
        } else if next.finished() {
            CoordinatorAction::Finish
        } else {
            CoordinatorAction::AwaitTasks
        }
    }

    /// The coordinator of `tasks` running tasks.
    pub fn new(tasks: usize) -> (c: ShutdownCoordinator)
        ensures
            c == Self::initial(tasks),
    {
        ShutdownCoordinator { running: tasks, cancelled: false }
    }

    /// Whether the cancellation has been signalled.
    pub fn is_cancelled(&self) -> (b: bool)
        ensures
            b == self.cancelled,
    {
        self.cancelled
    }

    /// Whether the process may end.
    pub fn is_finished(&self) -> (b: bool)
        ensures
            b == self.finished(),
    {
        self.cancelled && self.running == 0
    }

    /// Takes in an event and says what to do.
    pub fn on_event(&mut self, event: StopEvent) -> (action: CoordinatorAction)
        ensures
            *final(self) == old(self).after(event),
            action == old(self).action_after(*final(self)),
    {
        let first = !self.cancelled;
        self.cancelled = true;
        match event {
            StopEvent::TaskExited => {
                if self.running > 0 {
                    self.running = self.running - 1;
                }
            },
            StopEvent::Interrupt => {},
            StopEvent::Terminate => {},
        }
        if first {
            CoordinatorAction::Cancel
        } else if self.running == 0 {
            CoordinatorAction::Finish
        } else {
            CoordinatorAction::AwaitTasks
        }
    }
}

/// The cancellation cannot be taken back: once signalled, it stays so
/// whatever happens, and is not signalled a second time.
pub proof fn cancellation_is_final(state: ShutdownCoordinator, events: Seq<StopEvent>)
    requires
        state.cancelled,
    ensures
        state.run(events).cancelled,
        events.len() > 0 ==> !(state.run(events.drop_last()).action_after(state.run(events))
            is Cancel),
    decreases events.len(),
{
    if events.len() > 0 {
        cancellation_is_final(state, events.drop_last());
    }
}

/// The first event, whichever it is, makes the coordinator signal the
/// cancellation.
pub proof fn first_event_cancels(tasks: usize, event: StopEvent)
    ensures
        ShutdownCoordinator::initial(tasks).after(event).cancelled,
        ShutdownCoordinator::initial(tasks).action_after(
            ShutdownCoordinator::initial(tasks).after(event),
        ) is Cancel,
{
}

/// The tasks that still run are those that have not exited.
pub proof fn running_tasks(tasks: usize, events: Seq<StopEvent>)
    ensures
        ShutdownCoordinator::initial(tasks).run(events).running == (if exits_in(events)
            >= tasks {
            0
        } else {
            tasks - exits_in(events)
        }),
    decreases events.len(),
{
    reveal(Seq::filter);
    if events.len() > 0 {
        running_tasks(tasks, events.drop_last());
    }
}

/// The process ends only after every task has exited: where the
/// coordinator has finished, at least as many exits have been seen as
/// there were tasks.
pub proof fn finishes_after_all_tasks(tasks: usize, events: Seq<StopEvent>)
    requires
        ShutdownCoordinator::initial(tasks).run(events).finished(),
    ensures
        exits_in(events) >= tasks,
        events.len() > 0,
{
    running_tasks(tasks, events);
}

} // verus!
