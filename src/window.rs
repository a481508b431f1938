use vstd::prelude::*;

use crate::percentile::{reported, Percentiles, WindowSnapshot};

verus! {

/// Nanoseconds in one second.
pub const NANOS_PER_SECOND: u64 = 1_000_000_000;

/// Where a benchmark run stands.
#[derive(Clone, Copy, Debug, PartialEq, Eq, Hash, Structural)]
pub enum DriverPhase {
    /// Backends and workers are not yet set up.
    Idle,
    /// Measurement windows are being run.
    Running,
    /// Every window has closed; the artifacts are to be saved.
    Exporting,
    /// The artifacts are saved and the run is over.
    Done,
}

/// What the caller of the driver is to do next.
#[derive(Clone, Copy, Debug, PartialEq, Eq, Hash, Structural)]
pub enum DriverAction {
    /// Set up the backends and workers, then call `start`.
    Configure,
    /// Run one window of the aggregator, then call `window_closed`.
    RunWindow,
    /// Save the aggregator's artifacts, then call `export_done`.
    Export,
    /// Nothing is left to do.
    Finish,
}

/// Why a closed window could not be accounted for.
#[derive(Clone, Copy, Debug, PartialEq, Eq, Hash, Structural)]
pub enum WindowError {
    /// No window was expected: the run is not in its running phase.
    NotRunning,
    /// The window ended before it began.
    ClockRegressed,
    /// The running total of samples is below the total of an earlier window.
    CountRegressed,
}

/// The outcome of one closed window.
#[derive(Clone, Copy, Debug, PartialEq, Eq, Structural)]
pub struct WindowReport {
    /// Which window this is, counting from zero.
    pub index: u64,
    /// The samples that arrived during the window.
    pub delta: u64,
    /// How long the window took, in nanoseconds.
    pub elapsed_ns: u64,
    /// The latency percentiles of the window, zero where missing.
    pub percentiles: Percentiles,
}

/// Samples per second, rounded down; zero for a window of no duration.
pub open spec fn rate_of(delta: nat, elapsed_ns: nat) -> nat {
    if elapsed_ns == 0 {
        0
    } else {
        (delta * NANOS_PER_SECOND as nat) / elapsed_ns
    }
}

impl WindowReport {
    /// The throughput of the window in samples per second, rounded down.
    /// A window that took no time at all reports a rate of zero.
    pub fn rate_per_second(&self) -> (r: u128)
        ensures
            r as nat == rate_of(self.delta as nat, self.elapsed_ns as nat),
    {
        if self.elapsed_ns == 0 {
            0
        } else {
            let d = self.delta as u128;
            assert(d * 1_000_000_000 <= 0xffff_ffff_ffff_ffffu128 * 1_000_000_000) by (nonlinear_arith)
                requires
                    d <= 0xffff_ffff_ffff_ffffu128,
            ;
            (d * 1_000_000_000) / (self.elapsed_ns as u128)
        }
    }
}

/// The sum of a sequence of counts.
pub open spec fn sum_of(s: Seq<nat>) -> nat
    decreases s.len(),
{
    if s.len() == 0 {
        0
    } else {
        sum_of(s.drop_last()) + s.last()
    }
}

/// The samples a window adds, given the total before it and the running
/// total the aggregation side reports after it (none reported: none added).
pub open spec fn delta_of(total: nat, count: Option<u64>) -> nat {
    match count {
        Some(c) => (c - total) as nat,
        None => 0,
    }
}

/// The total after a window, given the total before it.
pub open spec fn total_after(total: nat, count: Option<u64>) -> nat {
    match count {
        Some(c) => c as nat,
        None => total,
    }
}

/// The abstract state of a run.
pub ghost struct DriverState {
    /// How many windows the run is configured for.
    pub windows: nat,
    /// How many windows have closed.
    pub completed: nat,
    /// The running total of samples at the last closed window.
    pub total: nat,
    pub phase: DriverPhase,
    /// The samples each closed window added, in order.
    pub deltas: Seq<nat>,
}

/// The control loop of a benchmark run, kept as a state machine: the caller
/// performs each action it asks for and hands back what came of it.
pub struct WindowDriver {
    windows: u64,
    completed: u64,
    total: u64,
    phase: DriverPhase,
    deltas: Ghost<Seq<nat>>,
}

impl View for WindowDriver {
    type V = DriverState;

    closed spec fn view(&self) -> DriverState {
        DriverState {
            windows: self.windows as nat,
            completed: self.completed as nat,
            total: self.total as nat,
            phase: self.phase,
            deltas: self.deltas@,
        }
    }
}

/// The action that belongs to a phase.
pub open spec fn action_of(p: DriverPhase) -> DriverAction {
    match p {
        DriverPhase::Idle => DriverAction::Configure,
        DriverPhase::Running => DriverAction::RunWindow,
        DriverPhase::Exporting => DriverAction::Export,
        DriverPhase::Done => DriverAction::Finish,
    }
}

impl WindowDriver {
    /// The state's invariant: the phase agrees with the windows closed, and
    /// the counts of the closed windows add up to the running total.
    pub closed spec fn wf(&self) -> bool {
        &&& self.completed <= self.windows
        &&& self.deltas@.len() == self.completed
        &&& sum_of(self.deltas@) == self.total
        &&& (self.phase == DriverPhase::Idle ==> self.completed == 0)
        &&& (self.phase == DriverPhase::Running ==> self.completed < self.windows)
        &&& (self.phase == DriverPhase::Exporting ==> self.completed == self.windows)
        &&& (self.phase == DriverPhase::Done ==> self.completed == self.windows)
    }

    /// A run of `windows` measurement windows, not yet set up.
    pub fn new(windows: u64) -> (r: WindowDriver)
        ensures
            r.wf(),
            r@.windows == windows,
            r@.completed == 0,
            r@.total == 0,
            r@.phase == DriverPhase::Idle,
            r@.deltas == Seq::<nat>::empty(),
    {
        WindowDriver { windows, completed: 0, total: 0, phase: DriverPhase::Idle, deltas: Ghost(Seq::empty()) }
    }

    /// What the caller is to do next.
    pub fn next_action(&self) -> (r: DriverAction)
        ensures
            r == action_of(self@.phase),
    {
        match self.phase {
            DriverPhase::Idle => DriverAction::Configure,
            DriverPhase::Running => DriverAction::RunWindow,
            DriverPhase::Exporting => DriverAction::Export,
            DriverPhase::Done => DriverAction::Finish,
        }
    }

    /// The phase of the run.
    pub fn phase(&self) -> (r: DriverPhase)
        ensures
            r == self@.phase,
    {
        self.phase
    }

    /// How many windows have closed.
    pub fn completed(&self) -> (r: u64)
        ensures
            r == self@.completed,
    {
        self.completed
    }

    /// The running total of samples at the last closed window.
    pub fn total(&self) -> (r: u64)
        ensures
            r == self@.total,
    {
        self.total
    }

    /// Marks the backends and workers as set up. From the idle phase the run
    /// goes to its windows, or straight to saving artifacts when it has none;
    /// in any other phase nothing changes.
    pub fn start(&mut self) -> (r: DriverAction)
        requires
            old(self).wf(),
        ensures
            final(self).wf(),
            old(self)@.phase == DriverPhase::Idle ==> final(self)@ == (DriverState {
                phase: if old(self)@.windows == 0 {
                    DriverPhase::Exporting
                } else {
                    DriverPhase::Running
                },
                ..old(self)@
            }),
            old(self)@.phase != DriverPhase::Idle ==> final(self)@ == old(self)@,
            r == action_of(final(self)@.phase),
    {
        if self.phase == DriverPhase::Idle {
            if self.windows == 0 {
                self.phase = DriverPhase::Exporting;
            } else {
                self.phase = DriverPhase::Running;
            }
        }
        self.next_action()
    }

    /// Accounts for one closed window that began at `t0` and ended at `t1`
    /// (in nanoseconds), after which the aggregation side reported
    /// `snapshot`. The window's count is the running total less the total
    /// of the window before; after the last window the run goes on to save
    /// its artifacts. On an error nothing changes.
    pub fn window_closed(&mut self, t0: u64, t1: u64, snapshot: &WindowSnapshot) -> (r: Result<
        WindowReport,
        WindowError,
    >)
        requires
            old(self).wf(),
        ensures
            final(self).wf(),
            old(self)@.phase != DriverPhase::Running ==> r == Err::<WindowReport, WindowError>(
                WindowError::NotRunning,
            ),
            old(self)@.phase == DriverPhase::Running && t1 < t0 ==> r == Err::<
                WindowReport,
                WindowError,
            >(WindowError::ClockRegressed),
            old(self)@.phase == DriverPhase::Running && t0 <= t1 && snapshot.combined_count is Some
                && snapshot.combined_count->0 < old(self)@.total ==> r == Err::<
                WindowReport,
                WindowError,
            >(WindowError::CountRegressed),
            r is Err ==> final(self)@ == old(self)@,
            r is Ok <==> (old(self)@.phase == DriverPhase::Running && t0 <= t1 && (
            snapshot.combined_count is Some ==> old(self)@.total <= snapshot.combined_count->0)),
            r matches Ok(rep) ==> {
                &&& rep.index == old(self)@.completed
                &&& rep.delta == delta_of(old(self)@.total, snapshot.combined_count)
                &&& rep.elapsed_ns == t1 - t0
                &&& rep.percentiles == reported(*snapshot)
                &&& final(self)@.windows == old(self)@.windows
                &&& final(self)@.completed == old(self)@.completed + 1
                &&& final(self)@.total == total_after(old(self)@.total, snapshot.combined_count)
                &&& final(self)@.deltas == old(self)@.deltas.push(rep.delta as nat)
                &&& final(self)@.phase == if final(self)@.completed == old(self)@.windows {
                    DriverPhase::Exporting
                } else {
                    DriverPhase::Running
                }
            },
    {
        if self.phase != DriverPhase::Running {
            return Err(WindowError::NotRunning);
        }
        if t1 < t0 {
            return Err(WindowError::ClockRegressed);
        }
        let delta: u64 = match snapshot.combined_count {
            Some(c) => {
                if c < self.total {
                    return Err(WindowError::CountRegressed);
                }
                let d = c - self.total;
                self.total = c;
                d
            },
            None => 0,
        };
        let report = WindowReport {
            index: self.completed,
            delta,
            elapsed_ns: t1 - t0,
            percentiles: Percentiles::from_snapshot(snapshot),
        };
        proof {
            let old_deltas = self.deltas@;
            let new_deltas = old_deltas.push(delta as nat);
            assert(new_deltas.drop_last() =~= old_deltas);
            self.deltas = Ghost(new_deltas);
        }
        self.completed = self.completed + 1;
        if self.completed == self.windows {
            self.phase = DriverPhase::Exporting;
        }
        Ok(report)
    }

    /// Marks the artifacts as saved: from the exporting phase the run is
    /// done; in any other phase nothing changes.
    pub fn export_done(&mut self) -> (r: DriverAction)
        requires
            old(self).wf(),
        ensures
            final(self).wf(),
            old(self)@.phase == DriverPhase::Exporting ==> final(self)@ == (DriverState {
                phase: DriverPhase::Done,
                ..old(self)@
            }),
            old(self)@.phase != DriverPhase::Exporting ==> final(self)@ == old(self)@,
            r == action_of(final(self)@.phase),
    {
        if self.phase == DriverPhase::Exporting {
            self.phase = DriverPhase::Done;
        }
        self.next_action()
    }
}

/// Over every window closed so far, the counts the windows reported add up
/// to the running total of samples at the last of them.
pub proof fn lemma_window_counts_sum_to_total(d: &WindowDriver)
    requires
        d.wf(),
    ensures
        sum_of(d@.deltas) == d@.total,
        d@.deltas.len() == d@.completed,
{
}

/// A finished run has closed exactly the windows it was configured for.
pub proof fn lemma_finished_run_closed_every_window(d: &WindowDriver)
    requires
        d.wf(),
        d@.phase == DriverPhase::Done,
    ensures
        d@.completed == d@.windows,
        sum_of(d@.deltas) == d@.total,
{
}

} // verus!
