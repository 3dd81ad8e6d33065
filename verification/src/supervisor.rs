//! The life of the task that keeps one source connected.
//!
//! The task subscribes, receives batches and hands them on until something
//! fails or the stream ends, closes what it opened, waits a second and
//! starts over. It ends only once it has observed the cancellation. What the
//! task does next is decided here; doing it is left to the caller, who
//! reports how it went.

use vstd::prelude::*;

verus! {

/// The seconds to wait before subscribing again.
pub const BACKOFF_SECONDS: u64 = 1;

/// Where the task stands: what it is doing, or about to do.
#[derive(Clone, Copy, Debug, PartialEq, Eq, Hash, Structural)]
pub enum Phase {
    /// Subscribing to the events of the source.
    Connecting,
    /// Opening the disk log of this connection.
    OpeningLog,
    /// Waiting for the next batch, or for the cancellation.
    Receiving,
    /// Counting and logging a batch.
    Dispatching,
    /// Closing the disk log of this connection.
    Finalizing,
    /// Waiting before the next attempt.
    BackingOff,
    /// Done.
    Exited,
}

/// What the caller is to do in a phase.
#[derive(Clone, Copy, Debug, PartialEq, Eq, Hash, Structural)]
pub enum SupervisorAction {
    Subscribe,
    OpenLog,
    AwaitBatch,
    Dispatch,
    CloseLog,
    Sleep { seconds: u64 },
    Exit,
}

/// How an action went.
#[derive(Clone, Copy, Debug, PartialEq, Eq, Hash, Structural)]
pub enum Outcome {
    Subscribed,
    SubscribeFailed,
    LogOpened,
    LogOpenFailed,
    BatchReceived,
    ReceiveFailed,
    StreamEnded,
    /// The cancellation came while the task was waiting.
    CancelObserved,
    Dispatched,
    DispatchFailed,
    LogClosed,
    LogCloseFailed,
    BackoffElapsed,
}

/// The state of the task for one source.
#[derive(Clone, Copy, Debug, PartialEq, Eq, Structural)]
pub struct Supervisor {
    /// Whether events are logged to disk.
    pub disk_logging: bool,
    pub phase: Phase,
    /// Whether a disk log is open.
    pub log_open: bool,
    /// Whether the task has observed the cancellation.
    pub cancelled: bool,
}

/// An outcome, with whether the cancellation had been signalled by then.
pub struct Input {
    pub outcome: Outcome,
    pub cancelled: bool,
}

impl Input {
    /// Whether the task learns of the cancellation by this input.
    pub open spec fn signals_cancellation(self) -> bool {
        self.cancelled || self.outcome is CancelObserved
    }
}

impl Supervisor {
    /// The state a task starts in.
    pub open spec fn initial(disk_logging: bool) -> Supervisor {
        Supervisor { disk_logging, phase: Phase::Connecting, log_open: false, cancelled: false }
    }

    /// The action that belongs to a phase.
    pub open spec fn pending(self) -> SupervisorAction {
        match self.phase {
            Phase::Connecting => SupervisorAction::Subscribe,
            Phase::OpeningLog => SupervisorAction::OpenLog,
            Phase::Receiving => SupervisorAction::AwaitBatch,
            Phase::Dispatching => SupervisorAction::Dispatch,
            Phase::Finalizing => SupervisorAction::CloseLog,
            Phase::BackingOff => SupervisorAction::Sleep { seconds: BACKOFF_SECONDS },
            Phase::Exited => SupervisorAction::Exit,
        }
    }

    /// Whether an outcome is one that the action of the phase can have.
    pub open spec fn accepts(self, outcome: Outcome) -> bool {
        match self.phase {
            Phase::Connecting => outcome is Subscribed || outcome is SubscribeFailed,
            Phase::OpeningLog => outcome is LogOpened || outcome is LogOpenFailed,
            Phase::Receiving => outcome is BatchReceived || outcome is ReceiveFailed
                || outcome is StreamEnded || outcome is CancelObserved,
            Phase::Dispatching => outcome is Dispatched || outcome is DispatchFailed,
            Phase::Finalizing => outcome is LogClosed || outcome is LogCloseFailed,
            Phase::BackingOff => outcome is BackoffElapsed || outcome is CancelObserved,
            Phase::Exited => false,
        }
    }

    /// Whether an outcome lets the connection go on: a subscription or a
    /// log that was opened, a batch that came or was dispatched.
    pub open spec fn goes_on(outcome: Outcome) -> bool {
        outcome is Subscribed || outcome is LogOpened || outcome is BatchReceived
            || outcome is Dispatched
    }

    /// The phase after a connection has ended and nothing is open any more:
    /// the task exits if it has observed the cancellation, and waits
    /// otherwise.
    pub open spec fn rest(cancelled: bool) -> Phase {
        if cancelled {
            Phase::Exited
        } else {
            Phase::BackingOff
        }
    }

    /// The phase in which a connection winds down: the log is closed first,
    /// if one is open.
    pub open spec fn wind_down(log_open: bool, cancelled: bool) -> Phase {
        if log_open {
            Phase::Finalizing
        } else {
            Self::rest(cancelled)
        }
    }

    /// The phase that follows an accepted outcome.
    ///
    /// A batch that has come is dispatched, cancellation or not. Apart from
    /// that, the task takes no further step of a connection once it has
    /// observed the cancellation: it winds the connection down and exits.
    /// Without cancellation, a connection goes on for as long as its
    /// actions succeed and its stream lasts; then it winds down, and the
    /// task waits and subscribes again.
    pub open spec fn next_phase(self, outcome: Outcome, cancelled: bool) -> Phase {
        let log_open = self.log_open || outcome is LogOpened;
        match self.phase {
            Phase::Receiving if outcome is BatchReceived => Phase::Dispatching,
            Phase::Finalizing => Self::rest(cancelled),
            Phase::BackingOff => if cancelled {
                Phase::Exited
            } else {
                Phase::Connecting
            },
            Phase::Connecting if !cancelled && outcome is Subscribed => if self.disk_logging {
                Phase::OpeningLog
            } else {
                Phase::Receiving
            },
            _ => if !cancelled && Self::goes_on(outcome) {
                Phase::Receiving
            } else {
                Self::wind_down(log_open, cancelled)
            },
        }
    }

    /// The state after an outcome. An outcome that the action of the phase
    /// cannot have changes nothing.
    pub open spec fn after(self, input: Input) -> Supervisor {
        if self.accepts(input.outcome) {
            let cancelled = self.cancelled || input.signals_cancellation();
            Supervisor {
                disk_logging: self.disk_logging,
                phase: self.next_phase(input.outcome, cancelled),
                log_open: (self.log_open || input.outcome is LogOpened) && !(self.phase
                    is Finalizing),
                cancelled,
            }
        } else {
            self
        }
    }

    /// The state after a run of outcomes.
    pub open spec fn run(self, inputs: Seq<Input>) -> Supervisor
        decreases inputs.len(),
    {
        if inputs.len() == 0 {
            self
        } else {
            self.run(inputs.drop_last()).after(inputs.last())
        }
    }

    /// What holds of the state of a task at all times: a log is open only
    /// while a connection lasts, the task has observed the cancellation
    /// before it exits, and once it has, it does nothing but dispatch the
    /// batch at hand, close the log and exit.
    pub open spec fn wf(self) -> bool {
        &&& self.log_open ==> self.phase is Receiving || self.phase is Dispatching
            || self.phase is Finalizing
        &&& self.phase is Finalizing ==> self.log_open
        &&& self.log_open ==> self.disk_logging
        &&& self.phase is OpeningLog ==> self.disk_logging
        &&& self.phase is Exited ==> self.cancelled
        &&& self.cancelled ==> self.phase is Dispatching || self.phase is Finalizing
            || self.phase is Exited
    }

    /// A task for a source, about to subscribe.
    pub fn new(disk_logging: bool) -> (s: Supervisor)
        ensures
            s == Self::initial(disk_logging),
            s.wf(),
    {
        Supervisor { disk_logging, phase: Phase::Connecting, log_open: false, cancelled: false }
    }

    /// What the caller is to do now.
    pub fn action(&self) -> (a: SupervisorAction)
        ensures
            a == self.pending(),
    {
        match self.phase {
            Phase::Connecting => SupervisorAction::Subscribe,
            Phase::OpeningLog => SupervisorAction::OpenLog,
            Phase::Receiving => SupervisorAction::AwaitBatch,
            Phase::Dispatching => SupervisorAction::Dispatch,
            Phase::Finalizing => SupervisorAction::CloseLog,
            Phase::BackingOff => SupervisorAction::Sleep { seconds: BACKOFF_SECONDS },
            Phase::Exited => SupervisorAction::Exit,
        }
    }

    /// Whether the task is done.
    pub fn has_exited(&self) -> (b: bool)
        ensures
            b == (self.phase is Exited),
    {
        self.phase == Phase::Exited
    }

    fn accepts_outcome(&self, outcome: Outcome) -> (b: bool)
        ensures
            b == self.accepts(outcome),
    {
        match (self.phase, outcome) {
            (Phase::Connecting, Outcome::Subscribed) => true,
            (Phase::Connecting, Outcome::SubscribeFailed) => true,
            (Phase::OpeningLog, Outcome::LogOpened) => true,
            (Phase::OpeningLog, Outcome::LogOpenFailed) => true,
            (Phase::Receiving, Outcome::BatchReceived) => true,
            (Phase::Receiving, Outcome::ReceiveFailed) => true,
            (Phase::Receiving, Outcome::StreamEnded) => true,
            (Phase::Receiving, Outcome::CancelObserved) => true,
            (Phase::Dispatching, Outcome::Dispatched) => true,
            (Phase::Dispatching, Outcome::DispatchFailed) => true,
            (Phase::Finalizing, Outcome::LogClosed) => true,
            (Phase::Finalizing, Outcome::LogCloseFailed) => true,
            (Phase::BackingOff, Outcome::BackoffElapsed) => true,
            (Phase::BackingOff, Outcome::CancelObserved) => true,
            _ => false,
        }
    }

    /// Takes in how the action went, and whether the cancellation has been
    /// signalled by now. Says whether the outcome was one of the action.
    pub fn advance(&mut self, outcome: Outcome, cancelled: bool) -> (accepted: bool)
        ensures
            accepted == old(self).accepts(outcome),
            *final(self) == old(self).after(Input { outcome, cancelled }),
            old(self).wf() ==> final(self).wf(),
    {
        if !self.accepts_outcome(outcome) {
            return false;
        }
        let cancelled = self.cancelled || cancelled || outcome == Outcome::CancelObserved;
        let ended = if cancelled {
            Phase::Exited
        } else {
            Phase::BackingOff
        };
        let log_open = match (self.phase, outcome) {
            (Phase::Finalizing, _) => false,
            (_, Outcome::LogOpened) => true,
            _ => self.log_open,
        };
        let phase = match (self.phase, outcome) {
            (Phase::Receiving, Outcome::BatchReceived) => Phase::Dispatching,
            (Phase::Finalizing, _) => ended,
            (Phase::BackingOff, _) => if cancelled {
                Phase::Exited
            } else {
                Phase::Connecting
            },
            _ => if cancelled {
                if log_open {
                    Phase::Finalizing
                } else {
                    Phase::Exited
                }
            } else {
                match outcome {
                    Outcome::Subscribed => if self.phase == Phase::Connecting
                        && self.disk_logging {
                        Phase::OpeningLog
                    } else {
                        Phase::Receiving
                    },
                    Outcome::LogOpened => Phase::Receiving,
                    Outcome::Dispatched => Phase::Receiving,
                    _ => if log_open {
                        Phase::Finalizing
                    } else {
                        Phase::BackingOff
                    },
                }
            },
        };
        self.phase = phase;
        self.log_open = log_open;
        self.cancelled = cancelled;
        true
    }
}

/// The logs that were opened in a run.
pub open spec fn logs_opened(start: Supervisor, inputs: Seq<Input>) -> nat
    decreases inputs.len(),
{
    if inputs.len() == 0 {
        0
    } else {
        let before = start.run(inputs.drop_last());
        let last = inputs.last().outcome;
        logs_opened(start, inputs.drop_last()) + (if before.accepts(last) && last is LogOpened {
            1nat
        } else {
            0nat
        })
    }
}

/// The times a log was closed in a run, with or without an error.
pub open spec fn logs_closed(start: Supervisor, inputs: Seq<Input>) -> nat
    decreases inputs.len(),
{
    if inputs.len() == 0 {
        0
    } else {
        let before = start.run(inputs.drop_last());
        let last = inputs.last().outcome;
        logs_closed(start, inputs.drop_last()) + (if before.accepts(last) && (last is LogClosed
            || last is LogCloseFailed) {
            1nat
        } else {
            0nat
        })
    }
}

/// Whatever happens, the state of a task stays well formed.
pub proof fn run_keeps_wf(start: Supervisor, inputs: Seq<Input>)
    requires
        start.wf(),
    ensures
        start.run(inputs).wf(),
    decreases inputs.len(),
{
    if inputs.len() > 0 {
        run_keeps_wf(start, inputs.drop_last());
    }
}

/// A task never exits on its own: where it has exited, the cancellation was
/// signalled or observed at some outcome before. No failure of the
/// connection ends it.
pub proof fn exits_only_on_cancellation(disk_logging: bool, inputs: Seq<Input>)
    ensures
        Supervisor::initial(disk_logging).run(inputs).phase is Exited
            ==> Supervisor::initial(disk_logging).run(inputs).cancelled,
        Supervisor::initial(disk_logging).run(inputs).cancelled ==> exists|i: int|
            0 <= i < inputs.len() && (#[trigger] inputs[i]).signals_cancellation(),
    decreases inputs.len(),
{
    let start = Supervisor::initial(disk_logging);
    run_keeps_wf(start, inputs);
    if inputs.len() > 0 {
        let front = inputs.drop_last();
        exits_only_on_cancellation(disk_logging, front);
        if start.run(inputs).cancelled {
            if start.run(front).cancelled {
                let i = choose|i: int|
                    0 <= i < front.len() && (#[trigger] front[i]).signals_cancellation();
                assert(inputs[i].signals_cancellation());
            } else {
                assert(inputs[inputs.len() - 1].signals_cancellation());
            }
        }
    }
}

/// Once a task has observed the cancellation, it starts nothing new: it
/// does not subscribe, open a log, wait for a batch or back off again,
/// whatever happens.
pub proof fn starts_nothing_after_cancellation(start: Supervisor, inputs: Seq<Input>)
    requires
        start.wf(),
        start.cancelled,
    ensures
        start.run(inputs).cancelled,
        start.run(inputs).pending() is Dispatch || start.run(inputs).pending() is CloseLog
            || start.run(inputs).pending() is Exit,
    decreases inputs.len(),
{
    if inputs.len() > 0 {
        starts_nothing_after_cancellation(start, inputs.drop_last());
        run_keeps_wf(start, inputs.drop_last());
    }
}

/// A task that the cancellation reaches while it backs off exits at once,
/// without another attempt to connect, and has no log open: the log of the
/// last connection was closed before the task began to wait.
pub proof fn cancellation_during_backoff_exits(state: Supervisor, input: Input)
    requires
        state.wf(),
        state.phase is BackingOff,
        state.accepts(input.outcome),
        input.signals_cancellation(),
    ensures
        !state.log_open,
        state.after(input).phase is Exited,
        state.after(input).pending() is Exit,
{
}

/// A task that has observed the cancellation exits after two more actions
/// at most: the dispatch of the batch at hand and the closing of the log.
pub proof fn exits_within_two_actions(state: Supervisor, first: Input, second: Input)
    requires
        state.wf(),
        state.cancelled,
        state.accepts(first.outcome),
    ensures
        state.after(first).phase is Exited || (state.after(first).accepts(second.outcome)
            ==> state.after(first).after(second).phase is Exited),
{
}

/// Every log that was opened is closed exactly once: at any time, one log
/// more was opened than closed if a log is open, and as many otherwise. So
/// when the task waits, subscribes or has exited, every log it opened has
/// been closed.
pub proof fn every_log_is_closed_once(disk_logging: bool, inputs: Seq<Input>)
    ensures
        logs_opened(Supervisor::initial(disk_logging), inputs) == logs_closed(
            Supervisor::initial(disk_logging),
            inputs,
        ) + (if Supervisor::initial(disk_logging).run(inputs).log_open {
            1nat
        } else {
            0nat
        }),
        Supervisor::initial(disk_logging).run(inputs).phase is Exited ==> logs_opened(
            Supervisor::initial(disk_logging),
            inputs,
        ) == logs_closed(Supervisor::initial(disk_logging), inputs),
    decreases inputs.len(),
{
    let start = Supervisor::initial(disk_logging);
    run_keeps_wf(start, inputs);
    if inputs.len() > 0 {
        every_log_is_closed_once(disk_logging, inputs.drop_last());
        run_keeps_wf(start, inputs.drop_last());
    }
}

/// Without cancellation, the end of a connection is never the end of the
/// task: whatever ends the connection, the task closes the log if one is
/// open, waits, and then subscribes again.
pub proof fn connection_is_tried_again(
    state: Supervisor,
    ending: Input,
    closing: Input,
    waking: Input,
)
    requires
        state.wf(),
        !state.cancelled,
        state.accepts(ending.outcome),
        !Supervisor::goes_on(ending.outcome),
        !(state.phase is BackingOff),
        !(state.phase is Finalizing),
        !ending.signals_cancellation(),
        !closing.signals_cancellation(),
        !waking.signals_cancellation(),
        closing.outcome is LogClosed || closing.outcome is LogCloseFailed,
        waking.outcome is BackoffElapsed,
    ensures
        state.log_open ==> state.after(ending).pending() is CloseLog && state.after(ending).after(
            closing,
        ).pending() == (SupervisorAction::Sleep { seconds: BACKOFF_SECONDS }) && state.after(
            ending,
        ).after(closing).after(waking).pending() is Subscribe,
        !state.log_open ==> state.after(ending).pending() == (SupervisorAction::Sleep {
            seconds: BACKOFF_SECONDS,
        }) && state.after(ending).after(waking).pending() is Subscribe,
{
}

} // verus!
