//! Data model: limit units, limit records, time spans, the aggregate
//! sixteen-row record, and the parse-error taxonomy, together with the
//! mathematical views that the contracts are stated over.

use vstd::prelude::*;

verus! {

/// Sentinel value standing for "unlimited" in either bound column.
pub const LIMITS_INFINITY: i64 = -1;

/// Number of microseconds in one second, used when a limit value is
/// reinterpreted as a time span denominated in seconds.
pub const MICROS_PER_SECOND: i64 = 1000000;

/// Closed set of unit words that the kernel table is known to use; any other
/// non-empty unit word is kept verbatim in `Other`.
#[derive(Debug, PartialEq, Eq, Clone)]
pub enum LimitUnit {
    Seconds,
    Bytes,
    Processes,
    Files,
    Locks,
    Other(Vec<u8>),
    Signals,
    Us,
}

/// Mathematical counterpart of [`LimitUnit`]: the `Other` payload is a byte
/// sequence rather than a byte vector.
pub enum UnitModel {
    Seconds,
    Bytes,
    Processes,
    Files,
    Locks,
    Other(Seq<u8>),
    Signals,
    Us,
}

impl View for LimitUnit {
    type V = UnitModel;

    open spec fn view(&self) -> UnitModel {
        match self {
            LimitUnit::Seconds => UnitModel::Seconds,
            LimitUnit::Bytes => UnitModel::Bytes,
            LimitUnit::Processes => UnitModel::Processes,
            LimitUnit::Files => UnitModel::Files,
            LimitUnit::Locks => UnitModel::Locks,
            LimitUnit::Other(w) => UnitModel::Other(w@),
            LimitUnit::Signals => UnitModel::Signals,
            LimitUnit::Us => UnitModel::Us,
        }
    }
}

/// View of an optional unit.
pub open spec fn opt_unit_view(u: Option<LimitUnit>) -> Option<UnitModel> {
    match u {
        Option::Some(x) => Option::Some(x@),
        Option::None => Option::None,
    }
}

/// One plain limit row: a soft bound, a hard bound, and the row's optional
/// unit.  A bound of `-1` ([`LIMITS_INFINITY`]) means "unlimited".
#[derive(Debug, PartialEq, Eq)]
pub struct Limit {
    pub soft_limit: i64,
    pub hard_limit: i64,
    pub unit: Option<LimitUnit>,
}

/// Mathematical view of a [`Limit`].
pub struct LimitModel {
    pub soft: int,
    pub hard: int,
    pub unit: Option<UnitModel>,
}

impl View for Limit {
    type V = LimitModel;

    open spec fn view(&self) -> LimitModel {
        LimitModel { soft: self.soft_limit as int, hard: self.hard_limit as int, unit: opt_unit_view(self.unit) }
    }
}

/// A signed time span, held as a whole number of microseconds.  The value of
/// a duration-valued row is the row's integer multiplied by the scale of its
/// unit, so `-1` in a seconds row becomes a span of `-1` second.
#[derive(Debug, PartialEq, Eq, Clone, Copy)]
pub struct TimeSpan {
    microseconds: i128,
}

impl TimeSpan {
    /// The span as a mathematical number of microseconds.
    pub closed spec fn spec_micros(self) -> int {
        self.microseconds as int
    }

    /// Builds a span of `s` whole seconds.
    pub fn from_seconds(s: i64) -> (r: TimeSpan)
        ensures
            r.spec_micros() == s * (MICROS_PER_SECOND as int),
    {
        proof {
            assert((s as int) * (MICROS_PER_SECOND as int) <= i64::MAX * (MICROS_PER_SECOND as int)
                && (s as int) * (MICROS_PER_SECOND as int) >= i64::MIN * (MICROS_PER_SECOND as int))
                by (nonlinear_arith)
                requires
                    i64::MIN <= s as int <= i64::MAX,
                    MICROS_PER_SECOND == 1000000,
            ;
        }
        TimeSpan { microseconds: (s as i128) * (MICROS_PER_SECOND as i128) }
    }

    /// Builds a span of `us` whole microseconds.
    pub fn from_microseconds(us: i64) -> (r: TimeSpan)
        ensures
            r.spec_micros() == us as int,
    {
        TimeSpan { microseconds: us as i128 }
    }

    /// The whole number of microseconds the span holds.
    pub fn whole_microseconds(&self) -> (r: i128)
        ensures
            r as int == self.spec_micros(),
    {
        self.microseconds
    }
}

impl View for TimeSpan {
    type V = int;

    open spec fn view(&self) -> int {
        self.spec_micros()
    }
}

/// A duration-valued limit row: both bounds reinterpreted as time spans in
/// the row's declared unit, which is kept alongside them.
#[derive(Debug, PartialEq, Eq)]
pub struct LimitDuration {
    pub soft_limit: TimeSpan,
    pub hard_limit: TimeSpan,
    pub unit: Option<LimitUnit>,
}

/// Mathematical view of a [`LimitDuration`]; the bounds are microsecond
/// counts.
pub struct DurationModel {
    pub soft_micros: int,
    pub hard_micros: int,
    pub unit: Option<UnitModel>,
}

impl View for LimitDuration {
    type V = DurationModel;

    open spec fn view(&self) -> DurationModel {
        DurationModel {
            soft_micros: self.soft_limit.spec_micros(),
            hard_micros: self.hard_limit.spec_micros(),
            unit: opt_unit_view(self.unit),
        }
    }
}

/// The aggregate record of one limits table: sixteen named rows in the fixed
/// kernel-defined order.  The two time-valued rows (CPU time and realtime
/// timeout) are durations; the other fourteen are plain limits.
#[derive(Debug, PartialEq, Eq)]
pub struct Limits {
    /// The maximum CPU time a process can use.
    pub max_cpu_time: LimitDuration,
    /// The maximum size of files that the process may create.
    pub max_file_size: Limit,
    /// The maximum size of the process's data segment.
    pub max_data_size: Limit,
    /// The maximum size of the process stack.
    pub max_stack_size: Limit,
    /// The maximum size of a core file.
    pub max_core_file_size: Limit,
    /// The limit of the process's resident set.
    pub max_resident_set: Limit,
    /// The maximum number of processes for the real user ID.
    pub max_processes: Limit,
    /// One greater than the maximum file descriptor number.
    pub max_open_files: Limit,
    /// The maximum number of bytes of memory that may be locked into RAM.
    pub max_locked_memory: Limit,
    /// The maximum size of the process's virtual memory.
    pub max_address_space: Limit,
    /// The limit on the combined number of locks and leases.
    pub max_file_locks: Limit,
    /// The limit on the number of queued signals for the real user ID.
    pub max_pending_signals: Limit,
    /// The limit on bytes allocated for POSIX message queues.
    pub max_msgqueue_size: Limit,
    /// The ceiling to which the process's nice value can be raised.
    pub max_nice_priority: Limit,
    /// The ceiling on the real-time priority.
    pub max_realtime_priority: Limit,
    /// The limit on uninterrupted CPU time under a real-time policy.
    pub max_realtime_timeout: LimitDuration,
}

/// Mathematical view of a [`Limits`] record.
pub struct LimitsModel {
    pub max_cpu_time: DurationModel,
    pub max_file_size: LimitModel,
    pub max_data_size: LimitModel,
    pub max_stack_size: LimitModel,
    pub max_core_file_size: LimitModel,
    pub max_resident_set: LimitModel,
    pub max_processes: LimitModel,
    pub max_open_files: LimitModel,
    pub max_locked_memory: LimitModel,
    pub max_address_space: LimitModel,
    pub max_file_locks: LimitModel,
    pub max_pending_signals: LimitModel,
    pub max_msgqueue_size: LimitModel,
    pub max_nice_priority: LimitModel,
    pub max_realtime_priority: LimitModel,
    pub max_realtime_timeout: DurationModel,
}

impl View for Limits {
    type V = LimitsModel;

    open spec fn view(&self) -> LimitsModel {
        LimitsModel {
            max_cpu_time: self.max_cpu_time@,
            max_file_size: self.max_file_size@,
            max_data_size: self.max_data_size@,
            max_stack_size: self.max_stack_size@,
            max_core_file_size: self.max_core_file_size@,
            max_resident_set: self.max_resident_set@,
            max_processes: self.max_processes@,
            max_open_files: self.max_open_files@,
            max_locked_memory: self.max_locked_memory@,
            max_address_space: self.max_address_space@,
            max_file_locks: self.max_file_locks@,
            max_pending_signals: self.max_pending_signals@,
            max_msgqueue_size: self.max_msgqueue_size@,
            max_nice_priority: self.max_nice_priority@,
            max_realtime_priority: self.max_realtime_priority@,
            max_realtime_timeout: self.max_realtime_timeout@,
        }
    }
}

/// Why one row of the table failed to parse.
#[derive(Debug, PartialEq, Eq, Clone, Copy, Structural)]
pub enum RowError {
    /// A required token ran past the end of the input.
    Truncated,
    /// The soft-limit column held neither `unlimited` nor an integer.
    BadSoftLimit,
    /// The hard-limit column held neither `unlimited` nor an integer.
    BadHardLimit,
    /// No line terminator where the row had to end.
    MissingLineEnd,
    /// A duration-valued row carried a unit that is not a time unit.
    BadDurationUnit,
}

/// Why a whole table failed to parse.
#[derive(Debug, PartialEq, Eq, Clone, Copy, Structural)]
pub enum ParseError {
    /// The input ended before the header line's terminator.
    TruncatedHeader,
    /// Row `index` (counting the sixteen limit rows from zero) failed.
    Row { index: usize, error: RowError },
}

} // verus!
