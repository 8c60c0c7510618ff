//! Deadline-monitoring support for fixed-frequency control loops.  The
//! waiting itself happens outside the library; the bookkeeping and the
//! validity rules live here.

use vstd::prelude::*;

verus! {

/// Error type for scheduler operations.
#[derive(Debug)]
pub enum SchedulerError {
    /// A control loop missed its deadline.
    LoopMissedDeadline,
    /// A task failed, with its message.
    TaskExecutionError(String),
    /// The requested frequency is zero or above the supported maximum.
    InvalidFrequency,
}

impl Clone for SchedulerError {
    fn clone(&self) -> (r: SchedulerError)
        ensures
            r is LoopMissedDeadline <==> self is LoopMissedDeadline,
            r is InvalidFrequency <==> self is InvalidFrequency,
            r is TaskExecutionError <==> self is TaskExecutionError,
    {
        match self {
            SchedulerError::LoopMissedDeadline => SchedulerError::LoopMissedDeadline,
            SchedulerError::TaskExecutionError(m) => SchedulerError::TaskExecutionError(m.clone()),
            SchedulerError::InvalidFrequency => SchedulerError::InvalidFrequency,
        }
    }
}

/// Result type for scheduler operations.
pub type SchedulerResult<T> = Result<T, SchedulerError>;

/// Statistics for a control loop execution.
#[derive(Debug, Clone, Copy, PartialEq, Eq, Structural)]
pub struct LoopStats {
    /// Desired period between iterations in milliseconds.
    pub period_ms: u32,
    /// Actual measured period in milliseconds.
    pub measured_period_ms: u32,
    /// Time spent in user code, in milliseconds.
    pub execution_time_ms: u32,
    /// Slack before the next deadline, in milliseconds.
    pub slack_time_ms: i32,
    /// Number of iterations completed.
    pub iteration_count: u64,
}

impl LoopStats {
    /// Utilization as a whole percentage of the period spent in user code.
    pub fn utilization_percent(&self) -> (r: u32)
        requires
            self.period_ms > 0,
            self.execution_time_ms as int * 100 <= u32::MAX,
        ensures
            r == self.execution_time_ms as int * 100 / self.period_ms as int,
    {
        self.execution_time_ms * 100 / self.period_ms
    }
}

/// Trait for tasks that must run at fixed, guaranteed frequencies.
pub trait ControlLoopTask {
    /// Execute one iteration of the control loop.  This should be quick:
    /// well under the loop period, without blocking.
    fn execute(&mut self) -> SchedulerResult<()>;

    /// The task's name.
    fn name(&self) -> &str {
        "ControlLoopTask"
    }
}

/// Bookkeeping for a rate-limited, fixed-frequency control loop.  The
/// caller measures the elapsed times and reports them after each
/// iteration.
#[derive(Debug)]
pub struct RealTimeLoop {
    frequency_hz: u32,
    period_ms: u32,
    stats: LoopStats,
}

impl RealTimeLoop {
    /// The configured frequency.
    pub closed spec fn spec_frequency_hz(&self) -> u32 {
        self.frequency_hz
    }

    /// The period in milliseconds.
    pub closed spec fn spec_period_ms(&self) -> u32 {
        self.period_ms
    }

    /// The current statistics.
    pub closed spec fn spec_stats(&self) -> LoopStats {
        self.stats
    }

    /// A new loop at `frequency_hz`.  Frequencies of zero or above 10000
    /// hertz are rejected as invalid; otherwise the period is the whole
    /// number of milliseconds in one cycle.
    pub fn new(frequency_hz: u32) -> (r: SchedulerResult<RealTimeLoop>)
        ensures
            (frequency_hz == 0 || frequency_hz > 10000) <==> (r matches Err(e) && e
                is InvalidFrequency),
            (1 <= frequency_hz <= 10000) ==> r is Ok,
            r matches Ok(l) ==> l.spec_frequency_hz() == frequency_hz && l.spec_period_ms()
                == 1000int / frequency_hz as int && l.spec_stats() == (LoopStats {
                period_ms: (1000int / frequency_hz as int) as u32,
                measured_period_ms: 0u32,
                execution_time_ms: 0u32,
                slack_time_ms: 0i32,
                iteration_count: 0u64,
            }),
    {
        if frequency_hz == 0 || frequency_hz > 10000 {
            return Result::Err(SchedulerError::InvalidFrequency);
        }
        let period_ms = 1000 / frequency_hz;
        Result::Ok(
            RealTimeLoop {
                frequency_hz,
                period_ms,
                stats: LoopStats {
                    period_ms,
                    measured_period_ms: 0,
                    execution_time_ms: 0,
                    slack_time_ms: 0,
                    iteration_count: 0,
                },
            },
        )
    }

    /// The configured frequency.
    pub fn frequency_hz(&self) -> (r: u32)
        ensures
            r == self.spec_frequency_hz(),
    {
        self.frequency_hz
    }

    /// Record the timing of one completed iteration: the time spent in
    /// user code and the measured period since the previous iteration.
    /// The slack is the period minus the execution time.
    pub fn record_iteration(&mut self, execution_time_ms: u32, measured_period_ms: u32)
        requires
            old(self).spec_stats().iteration_count < u64::MAX,
            execution_time_ms <= i32::MAX,
            old(self).spec_period_ms() <= i32::MAX,
        ensures
            final(self).spec_frequency_hz() == old(self).spec_frequency_hz(),
            final(self).spec_period_ms() == old(self).spec_period_ms(),
            final(self).spec_stats() == (LoopStats {
                period_ms: old(self).spec_stats().period_ms,
                measured_period_ms: measured_period_ms,
                execution_time_ms: execution_time_ms,
                slack_time_ms: (old(self).spec_period_ms() - execution_time_ms) as i32,
                iteration_count: (old(self).spec_stats().iteration_count + 1) as u64,
            }),
    {
        self.stats.measured_period_ms = measured_period_ms;
        self.stats.execution_time_ms = execution_time_ms;
        self.stats.slack_time_ms = self.period_ms as i32 - execution_time_ms as i32;
        self.stats.iteration_count = self.stats.iteration_count + 1;
    }

    /// Current loop statistics.
    pub fn stats(&self) -> (r: LoopStats)
        ensures
            r == self.spec_stats(),
    {
        self.stats
    }
}

} // verus!
