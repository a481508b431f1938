use vstd::prelude::*;

use crate::metric::Metric;
use crate::sample::{Sample, SampleView};

verus! {

/// The transport a worker probes through. It is chosen once, at start-up,
/// and stays fixed for the life of the worker.
#[derive(Clone, Copy, Debug, PartialEq, Eq, Hash, Structural)]
pub enum BackendKind {
    /// The user-space network stack, shared by all workers under a lock.
    RawStack,
    /// The host's own UDP socket.
    OsSocket,
    /// No I/O at all: the probe is two clock readings back to back, which
    /// measures what timing and aggregation cost by themselves.
    NoOp,
}

/// The backend a configuration selects: the no-op flag wins over the
/// OS-socket flag, and with neither the raw stack is used.
pub open spec fn selected_backend(noop: bool, stdnet: bool) -> BackendKind {
    if noop {
        BackendKind::NoOp
    } else if stdnet {
        BackendKind::OsSocket
    } else {
        BackendKind::RawStack
    }
}

impl BackendKind {
    /// The backend selected by the two configuration flags.
    pub fn select(noop: bool, stdnet: bool) -> (r: BackendKind)
        ensures
            r == selected_backend(noop, stdnet),
    {
        if noop {
            BackendKind::NoOp
        } else if stdnet {
            BackendKind::OsSocket
        } else {
            BackendKind::RawStack
        }
    }

    /// Whether a probe through this backend sends and receives anything.
    pub fn performs_io(&self) -> (r: bool)
        ensures
            r <==> *self != BackendKind::NoOp,
    {
        match self {
            BackendKind::NoOp => false,
            _ => true,
        }
    }
}

/// Why a worker stopped.
#[derive(Clone, Copy, Debug, PartialEq, Eq, Hash, Structural)]
pub enum StopReason {
    /// Shutdown was asked for before the next probe.
    Cancelled,
    /// The probe could not be sent or its response not received.
    TransportFailed,
    /// The sample channel has no consumer left.
    ChannelClosed,
    /// A clock reading came out below an earlier one.
    ClockRegressed,
}

/// What the thread that runs a worker is to do next.
#[derive(Clone, Copy, Debug, PartialEq, Eq)]
pub enum WorkerAction {
    /// Read the clock before a probe, and check for shutdown.
    ReadStartClock,
    /// Send the probe through the backend and wait for the response.
    Exchange,
    /// Read the clock after the probe.
    ReadEndClock,
    /// Put the sample on the sample channel, waiting while it is full.
    Push { sample: Sample },
    /// Stop the worker.
    Stop { reason: StopReason },
}

/// What came of the last action.
#[derive(Clone, Copy, Debug, PartialEq, Eq, Hash, Structural)]
pub enum WorkerEvent {
    /// The clock read `at`; `cancelled` tells whether shutdown was asked for.
    StartClock { at: u64, cancelled: bool },
    /// The exchange completed, or failed.
    Exchanged { ok: bool },
    /// The clock read `at`.
    EndClock { at: u64 },
    /// The sample went onto the channel, or the channel was closed.
    Pushed { ok: bool },
}

/// Where a worker stands in its probe cycle.
#[derive(Clone, Copy, Debug, PartialEq, Eq)]
pub enum WorkerPhase {
    /// About to start a probe.
    Ready,
    /// The probe that began at `start` is under way.
    Exchanging { start: u64 },
    /// The probe that began at `start` is done; its end is to be read.
    Timing { start: u64 },
    /// The sample of the last probe is to be put on the channel.
    Pushing { sample: Sample },
    /// The worker has stopped for good.
    Stopped { reason: StopReason },
}

/// The abstract state of a worker.
pub ghost struct WorkerState {
    pub backend: BackendKind,
    pub metric: Metric,
    pub phase: WorkerPhase,
    /// The end of the last sample the channel took, or zero.
    pub last_end: nat,
    /// The samples the channel took, in order.
    pub emitted: Seq<SampleView>,
}

/// One probe/measure loop, kept as a state machine: the thread that runs it
/// performs each action it asks for and hands back what came of it. One
/// sample is emitted per completed exchange and none for an exchange that
/// is still outstanding; a failed exchange stops the worker, and a closed
/// channel stops it quietly.
pub struct Worker {
    backend: BackendKind,
    metric: Metric,
    phase: WorkerPhase,
    last_end: u64,
    emitted: Ghost<Seq<SampleView>>,
}

impl View for Worker {
    type V = WorkerState;

    closed spec fn view(&self) -> WorkerState {
        WorkerState {
            backend: self.backend,
            metric: self.metric,
            phase: self.phase,
            last_end: self.last_end as nat,
            emitted: self.emitted@,
        }
    }
}

/// The action a worker asks for in a phase.
pub open spec fn expected_action(p: WorkerPhase) -> WorkerAction {
    match p {
        WorkerPhase::Ready => WorkerAction::ReadStartClock,
        WorkerPhase::Exchanging { .. } => WorkerAction::Exchange,
        WorkerPhase::Timing { .. } => WorkerAction::ReadEndClock,
        WorkerPhase::Pushing { sample } => WorkerAction::Push { sample },
        WorkerPhase::Stopped { reason } => WorkerAction::Stop { reason },
    }
}

/// Whether an event answers the action of a phase.
pub open spec fn answers(p: WorkerPhase, e: WorkerEvent) -> bool {
    ||| p is Ready && e is StartClock
    ||| p is Exchanging && e is Exchanged
    ||| p is Timing && e is EndClock
    ||| p is Pushing && e is Pushed
}

/// Every sample ends no earlier than it starts, and each one starts no
/// earlier than every sample before it has ended.
pub open spec fn well_timed(s: Seq<SampleView>) -> bool {
    &&& forall|i: int| 0 <= i < s.len() ==> (#[trigger] s[i]).start <= s[i].end
    &&& forall|i: int, j: int| 0 <= i < j < s.len() ==> (#[trigger] s[i]).end <= (#[trigger] s[j]).start
}

impl Worker {
    /// The state's invariant.
    pub closed spec fn wf(&self) -> bool {
        &&& well_timed(self.emitted@)
        &&& forall|i: int|
            0 <= i < self.emitted@.len() ==> (#[trigger] self.emitted@[i]).end <= self.last_end
                && self.emitted@[i].metric == self.metric
        &&& match self.phase {
            WorkerPhase::Exchanging { start } => self.last_end <= start && self.backend
                != BackendKind::NoOp,
            WorkerPhase::Timing { start } => self.last_end <= start,
            WorkerPhase::Pushing { sample } => self.last_end <= sample@.start && sample@.start
                <= sample@.end && sample@.metric == self.metric,
            _ => true,
        }
    }

    /// A worker on `backend` whose samples carry `metric`, about to start
    /// its first probe.
    pub fn new(backend: BackendKind, metric: Metric) -> (r: Worker)
        ensures
            r.wf(),
            r@ == (WorkerState {
                backend,
                metric,
                phase: WorkerPhase::Ready,
                last_end: 0,
                emitted: Seq::empty(),
            }),
    {
        Worker { backend, metric, phase: WorkerPhase::Ready, last_end: 0, emitted: Ghost(Seq::empty()) }
    }

    /// What the worker asks for now.
    pub fn next_action(&self) -> (r: WorkerAction)
        ensures
            r == expected_action(self@.phase),
    {
        match self.phase {
            WorkerPhase::Ready => WorkerAction::ReadStartClock,
            WorkerPhase::Exchanging { .. } => WorkerAction::Exchange,
            WorkerPhase::Timing { .. } => WorkerAction::ReadEndClock,
            WorkerPhase::Pushing { sample } => WorkerAction::Push { sample },
            WorkerPhase::Stopped { reason } => WorkerAction::Stop { reason },
        }
    }

    /// The backend the worker probes through.
    pub fn backend(&self) -> (r: BackendKind)
        ensures
            r == self@.backend,
    {
        self.backend
    }

    /// Whether the worker has stopped, and why.
    pub fn stopped(&self) -> (r: Option<StopReason>)
        ensures
            r == (match self@.phase {
                WorkerPhase::Stopped { reason } => Some(reason),
                _ => None,
            }),
    {
        match self.phase {
            WorkerPhase::Stopped { reason } => Some(reason),
            _ => None,
        }
    }

    fn stop(&mut self, reason: StopReason) -> (r: WorkerAction)
        requires
            old(self).wf(),
        ensures
            final(self).wf(),
            final(self)@ == (WorkerState { phase: WorkerPhase::Stopped { reason }, ..old(self)@ }),
            r == (WorkerAction::Stop { reason }),
    {
        self.phase = WorkerPhase::Stopped { reason };
        WorkerAction::Stop { reason }
    }

    /// Takes what came of the last action and returns the next one.
    /// - Before a probe: shutdown stops the worker; a start reading below
    ///   the end of the last sample stops it too; otherwise the probe is
    ///   sent, or, on the no-op backend, the end is read at once.
    /// - After the exchange: a failure stops the worker.
    /// - After the end reading: one below the start stops the worker;
    ///   otherwise the sample from start to end is to be pushed.
    /// - After the push: the sample is emitted and the next probe begins;
    ///   a closed channel stops the worker.
    /// A stopped worker stays stopped, and an event that does not answer
    /// the pending action changes nothing.
    pub fn step(&mut self, event: WorkerEvent) -> (r: WorkerAction)
        requires
            old(self).wf(),
        ensures
            final(self).wf(),
            final(self)@.backend == old(self)@.backend,
            final(self)@.metric == old(self)@.metric,
            r == expected_action(final(self)@.phase),
            !answers(old(self)@.phase, event) ==> final(self)@ == old(self)@,
            old(self)@.phase is Ready ==> (event matches WorkerEvent::StartClock { at, cancelled }
                ==> final(self)@ == (WorkerState {
                phase: if cancelled {
                    WorkerPhase::Stopped { reason: StopReason::Cancelled }
                } else if (at as nat) < old(self)@.last_end {
                    WorkerPhase::Stopped { reason: StopReason::ClockRegressed }
                } else if old(self)@.backend == BackendKind::NoOp {
                    WorkerPhase::Timing { start: at }
                } else {
                    WorkerPhase::Exchanging { start: at }
                },
                ..old(self)@
            })),
            old(self)@.phase matches WorkerPhase::Exchanging { start } ==> (
            event matches WorkerEvent::Exchanged { ok } ==> final(self)@ == (WorkerState {
                phase: if ok {
                    WorkerPhase::Timing { start }
                } else {
                    WorkerPhase::Stopped { reason: StopReason::TransportFailed }
                },
                ..old(self)@
            })),
            old(self)@.phase matches WorkerPhase::Timing { start } ==> (
            event matches WorkerEvent::EndClock { at } ==> (if at < start {
                final(self)@ == (WorkerState {
                    phase: WorkerPhase::Stopped { reason: StopReason::ClockRegressed },
                    ..old(self)@
                })
            } else {
                &&& final(self)@.phase matches WorkerPhase::Pushing { sample }
                &&& final(self)@.phase->sample@ == (SampleView {
                    start: start as nat,
                    end: at as nat,
                    metric: old(self)@.metric,
                })
                &&& final(self)@.last_end == old(self)@.last_end
                &&& final(self)@.emitted == old(self)@.emitted
            })),
            old(self)@.phase matches WorkerPhase::Pushing { sample } ==> (
            event matches WorkerEvent::Pushed { ok } ==> final(self)@ == (if ok {
                WorkerState {
                    phase: WorkerPhase::Ready,
                    last_end: sample@.end,
                    emitted: old(self)@.emitted.push(sample@),
                    ..old(self)@
                }
            } else {
                WorkerState {
                    phase: WorkerPhase::Stopped { reason: StopReason::ChannelClosed },
                    ..old(self)@
                }
            })),
    {
        match (self.phase, event) {
            (WorkerPhase::Ready, WorkerEvent::StartClock { at, cancelled }) => {
                if cancelled {
                    return self.stop(StopReason::Cancelled);
                }
                if at < self.last_end {
                    return self.stop(StopReason::ClockRegressed);
                }
                if self.backend.performs_io() {
                    self.phase = WorkerPhase::Exchanging { start: at };
                } else {
                    self.phase = WorkerPhase::Timing { start: at };
                }
            },
            (WorkerPhase::Exchanging { start }, WorkerEvent::Exchanged { ok }) => {
                if !ok {
                    return self.stop(StopReason::TransportFailed);
                }
                self.phase = WorkerPhase::Timing { start };
            },
            (WorkerPhase::Timing { start }, WorkerEvent::EndClock { at }) => {
                match Sample::new(start, at, self.metric) {
                    Some(sample) => {
                        self.phase = WorkerPhase::Pushing { sample };
                    },
                    None => {
                        return self.stop(StopReason::ClockRegressed);
                    },
                }
            },
            (WorkerPhase::Pushing { sample }, WorkerEvent::Pushed { ok }) => {
                if !ok {
                    return self.stop(StopReason::ChannelClosed);
                }
                let end = sample.end();
                proof {
                    let old_emitted = self.emitted@;
                    let new_emitted = old_emitted.push(sample@);
                    assert forall|i: int, j: int| 0 <= i < j < new_emitted.len() implies (
                    #[trigger] new_emitted[i]).end <= (#[trigger] new_emitted[j]).start by {
                        if j == old_emitted.len() {
                            assert(old_emitted[i].end <= self.last_end);
                        }
                    }
                    self.emitted = Ghost(new_emitted);
                }
                self.last_end = end;
                self.phase = WorkerPhase::Ready;
            },
            _ => {},
        }
        self.next_action()
    }
}

/// Every sample a worker has emitted ends no earlier than it starts, and
/// the samples of one worker follow one another in time.
pub proof fn lemma_emitted_samples_well_timed(w: &Worker)
    requires
        w.wf(),
    ensures
        well_timed(w@.emitted),
        forall|i: int| 0 <= i < w@.emitted.len() ==> (#[trigger] w@.emitted[i]).metric == w@.metric,
{
}

/// A worker on the no-op backend never asks for an exchange: all it times
/// is two clock readings in a row.
pub proof fn lemma_noop_worker_never_exchanges(w: &Worker)
    requires
        w.wf(),
        w@.backend == BackendKind::NoOp,
    ensures
        expected_action(w@.phase) != WorkerAction::Exchange,
{
}

} // verus!
