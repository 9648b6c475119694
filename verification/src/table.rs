//! The limit-line grammar and the sixteen-row record assembler.
//!
//! A row is: anything up to the first double-space column gap (the discarded
//! row label), spaces, a soft limit, spaces, a hard limit, spaces, an
//! optional unit word, spaces, and a line terminator.  A table is one header
//! line (arbitrary bytes up to the first line feed) followed by exactly
//! sixteen rows in the fixed kernel order; rows one and sixteen (CPU time
//! and realtime timeout) must carry a time unit and become durations.

use vstd::prelude::*;
use crate::model::{
    Limit, LimitDuration, LimitUnit, Limits, LimitsModel, LimitModel, DurationModel, UnitModel,
    ParseError, RowError, TimeSpan, MICROS_PER_SECOND,
};
use crate::model::opt_unit_view;
use crate::tokens::{
    spec_find_gap, spec_skip_spaces, spec_parse_value, spec_parse_word, spec_line_end,
    find_gap, skip_spaces, parse_value, parse_word, line_end,
};
use crate::units::{spec_classify, unit_types};

verus! {

/// One parsed row, mathematically: the two bounds and the classified unit.
pub struct RowModel {
    pub soft: int,
    pub hard: int,
    pub unit: Option<UnitModel>,
}

/// Result of parsing one row at `i`: the bounds, the classified unit, and
/// the position just past the row's line terminator — or why the row is
/// malformed.
pub open spec fn spec_parse_line(s: Seq<u8>, i: int) -> Result<(int, int, Option<UnitModel>, int), RowError> {
    match spec_find_gap(s, i) {
        Option::None => Result::Err(RowError::Truncated),
        Option::Some(g) => {
            let p1 = spec_skip_spaces(s, g);
            match spec_parse_value(s, p1) {
                Option::None => Result::Err(
                    if p1 >= s.len() { RowError::Truncated } else { RowError::BadSoftLimit },
                ),
                Option::Some((soft, p2)) => {
                    let p3 = spec_skip_spaces(s, p2);
                    match spec_parse_value(s, p3) {
                        Option::None => Result::Err(
                            if p3 >= s.len() { RowError::Truncated } else { RowError::BadHardLimit },
                        ),
                        Option::Some((hard, p4)) => {
                            let p5 = spec_skip_spaces(s, p4);
                            let wr = spec_parse_word(s, p5);
                            let unit = match wr {
                                Option::Some((w, _)) => Option::Some(spec_classify(w)),
                                Option::None => Option::None,
                            };
                            let p6 = match wr {
                                Option::Some((_, j)) => j,
                                Option::None => p5,
                            };
                            let p7 = spec_skip_spaces(s, p6);
                            match spec_line_end(s, p7) {
                                Option::Some(e) => Result::Ok((soft, hard, unit, e)),
                                Option::None => Result::Err(
                                    if p7 >= s.len() { RowError::Truncated } else { RowError::MissingLineEnd },
                                ),
                            }
                        },
                    }
                },
            }
        },
    }
}

/// Parses one table row at `i`.
pub fn parse_limit_line(s: &[u8], i: usize) -> (r: Result<(i64, i64, Option<LimitUnit>, usize), RowError>)
    requires
        i <= s@.len(),
    ensures
        match (r, spec_parse_line(s@, i as int)) {
            (Result::Ok((soft, hard, unit, j)), Result::Ok((ss, sh, su, sj))) =>
                soft as int == ss && hard as int == sh && opt_unit_view(unit) == su
                && j as int == sj && i < j <= s@.len(),
            (Result::Err(e), Result::Err(se)) => e == se,
            _ => false,
        },
{
    let n = s.len();
    let g = match find_gap(s, i) {
        Option::Some(g) => g,
        Option::None => return Result::Err(RowError::Truncated),
    };
    let p1 = skip_spaces(s, g);
    let (soft, p2) = match parse_value(s, p1) {
        Option::Some(t) => t,
        Option::None => {
            return Result::Err(if p1 >= n { RowError::Truncated } else { RowError::BadSoftLimit });
        },
    };
    let p3 = skip_spaces(s, p2);
    let (hard, p4) = match parse_value(s, p3) {
        Option::Some(t) => t,
        Option::None => {
            return Result::Err(if p3 >= n { RowError::Truncated } else { RowError::BadHardLimit });
        },
    };
    let p5 = skip_spaces(s, p4);
    let (word, p6) = match parse_word(s, p5) {
        Option::Some((w, j)) => (Option::Some(w), j),
        Option::None => (Option::None, p5),
    };
    let unit = unit_types(word);
    let p7 = skip_spaces(s, p6);
    match line_end(s, p7) {
        Option::Some(e) => Result::Ok((soft, hard, unit, e)),
        Option::None => Result::Err(
            if p7 >= n { RowError::Truncated } else { RowError::MissingLineEnd },
        ),
    }
}

/// Assembles a plain limit from a parsed row triple.
pub fn to_limit(t: (i64, i64, Option<LimitUnit>)) -> (r: Limit)
    ensures
        r.soft_limit == t.0,
        r.hard_limit == t.1,
        r.unit == t.2,
{
    let (soft_limit, hard_limit, unit) = t;
    Limit { soft_limit, hard_limit, unit }
}

/// Does an optional unit denominate time?
pub open spec fn is_time_unit(u: Option<UnitModel>) -> bool {
    u == Option::Some(UnitModel::Seconds) || u == Option::Some(UnitModel::Us)
}

/// Duration conversion of a row: a seconds row scales both bounds to
/// microseconds, a microseconds row keeps them, and any other unit —
/// or no unit — is a malformed duration row.
pub open spec fn spec_to_duration(soft: int, hard: int, unit: Option<UnitModel>) -> Result<DurationModel, RowError> {
    match unit {
        Option::Some(UnitModel::Seconds) => Result::Ok(
            (DurationModel {
                soft_micros: soft * (MICROS_PER_SECOND as int),
                hard_micros: hard * (MICROS_PER_SECOND as int),
                unit,
            }),
        ),
        Option::Some(UnitModel::Us) => Result::Ok(
            (DurationModel { soft_micros: soft, hard_micros: hard, unit }),
        ),
        _ => Result::Err(RowError::BadDurationUnit),
    }
}

/// Assembles a duration limit from a parsed row triple, failing — rather
/// than aborting — when the row's unit does not denominate time.
pub fn to_limit_duration(t: (i64, i64, Option<LimitUnit>)) -> (r: Result<LimitDuration, RowError>)
    ensures
        match (r, spec_to_duration(t.0 as int, t.1 as int, opt_unit_view(t.2))) {
            (Result::Ok(d), Result::Ok(dm)) => d@ == dm,
            (Result::Err(e), Result::Err(se)) => e == se,
            _ => false,
        },
{
    let (soft, hard, unit) = t;
    match unit {
        Option::Some(LimitUnit::Seconds) => Result::Ok(
            (LimitDuration {
                soft_limit: TimeSpan::from_seconds(soft),
                hard_limit: TimeSpan::from_seconds(hard),
                unit: Option::Some(LimitUnit::Seconds),
            }),
        ),
        Option::Some(LimitUnit::Us) => Result::Ok(
            (LimitDuration {
                soft_limit: TimeSpan::from_microseconds(soft),
                hard_limit: TimeSpan::from_microseconds(hard),
                unit: Option::Some(LimitUnit::Us),
            }),
        ),
        _ => Result::Err(RowError::BadDurationUnit),
    }
}

/// Is row `i` (counting from zero) one of the two duration-valued rows —
/// CPU time and realtime timeout?
pub open spec fn row_is_duration(i: int) -> bool {
    i == 0 || i == 15
}

/// Mathematical view of an executable row triple.
pub open spec fn triple_model(t: (i64, i64, Option<LimitUnit>)) -> RowModel {
    RowModel { soft: t.0 as int, hard: t.1 as int, unit: opt_unit_view(t.2) }
}

/// Views of a sequence of row triples.
pub open spec fn rows_view(ts: Seq<(i64, i64, Option<LimitUnit>)>) -> Seq<RowModel> {
    ts.map_values(|t: (i64, i64, Option<LimitUnit>)| triple_model(t))
}

/// Parses rows `row`, `row + 1`, …, `15` starting at `i`, in strict order
/// with no recovery: the first malformed row fails the whole parse, and a
/// duration row without a time unit fails with `BadDurationUnit`.
pub open spec fn spec_parse_rows(s: Seq<u8>, i: int, row: int) -> Result<Seq<RowModel>, ParseError>
    decreases 16 - row,
{
    if row >= 16 {
        Result::Ok(Seq::empty())
    } else {
        match spec_parse_line(s, i) {
            Result::Err(k) => Result::Err((ParseError::Row { index: row as usize, error: k })),
            Result::Ok((soft, hard, unit, next)) => {
                if row_is_duration(row) && !is_time_unit(unit) {
                    Result::Err(
                        (ParseError::Row { index: row as usize, error: RowError::BadDurationUnit }),
                    )
                } else {
                    match spec_parse_rows(s, next, row + 1) {
                        Result::Ok(rest) => Result::Ok(
                            seq![(RowModel { soft, hard, unit })] + rest,
                        ),
                        Result::Err(e) => Result::Err(e),
                    }
                }
            },
        }
    }
}

/// Position of the first line feed at or after `i`, if any.
pub open spec fn spec_find_lf(s: Seq<u8>, i: int) -> Option<int>
    decreases s.len() - i,
{
    if i < 0 || i >= s.len() {
        Option::None
    } else if s[i] == 10 {
        Option::Some(i)
    } else {
        spec_find_lf(s, i + 1)
    }
}

/// Finds the first line feed at or after `i`.
pub fn find_lf(s: &[u8], i: usize) -> (r: Option<usize>)
    requires
        i <= s@.len(),
    ensures
        match r {
            Option::Some(j) => spec_find_lf(s@, i as int) == Option::Some(j as int)
                && i <= j < s@.len(),
            Option::None => spec_find_lf(s@, i as int) is None,
        },
{
    let mut j = i;
    while j < s.len()
        invariant
            i <= j <= s@.len(),
            spec_find_lf(s@, i as int) == spec_find_lf(s@, j as int),
        decreases s@.len() - j,
    {
        if s[j] == 10 {
            return Option::Some(j);
        }
        j = j + 1;
    }
    Option::None
}

/// The plain-limit view of a row.
pub open spec fn plain_of_row(r: RowModel) -> LimitModel {
    LimitModel { soft: r.soft, hard: r.hard, unit: r.unit }
}

/// The duration view of a row; meaningful only when the row's unit
/// denominates time.
pub open spec fn dur_of_row(r: RowModel) -> DurationModel {
    DurationModel {
        soft_micros: if r.unit == Option::Some(UnitModel::Seconds) {
            r.soft * (MICROS_PER_SECOND as int)
        } else {
            r.soft
        },
        hard_micros: if r.unit == Option::Some(UnitModel::Seconds) {
            r.hard * (MICROS_PER_SECOND as int)
        } else {
            r.hard
        },
        unit: r.unit,
    }
}

/// The aggregate record built from sixteen parsed rows in the fixed order.
pub open spec fn assemble(rows: Seq<RowModel>) -> LimitsModel
    recommends
        rows.len() == 16,
{
    LimitsModel {
        max_cpu_time: dur_of_row(rows[0]),
        max_file_size: plain_of_row(rows[1]),
        max_data_size: plain_of_row(rows[2]),
        max_stack_size: plain_of_row(rows[3]),
        max_core_file_size: plain_of_row(rows[4]),
        max_resident_set: plain_of_row(rows[5]),
        max_processes: plain_of_row(rows[6]),
        max_open_files: plain_of_row(rows[7]),
        max_locked_memory: plain_of_row(rows[8]),
        max_address_space: plain_of_row(rows[9]),
        max_file_locks: plain_of_row(rows[10]),
        max_pending_signals: plain_of_row(rows[11]),
        max_msgqueue_size: plain_of_row(rows[12]),
        max_nice_priority: plain_of_row(rows[13]),
        max_realtime_priority: plain_of_row(rows[14]),
        max_realtime_timeout: dur_of_row(rows[15]),
    }
}

/// The whole-table parse: skip the header line (its content is not
/// validated), then the sixteen rows in order.
pub open spec fn spec_parse_limits(s: Seq<u8>) -> Result<LimitsModel, ParseError> {
    match spec_find_lf(s, 0) {
        Option::None => Result::Err(ParseError::TruncatedHeader),
        Option::Some(lf) => match spec_parse_rows(s, lf + 1, 0) {
            Result::Ok(rows) => Result::Ok(assemble(rows)),
            Result::Err(e) => Result::Err(e),
        },
    }
}

/// Parses a whole limits table from raw bytes: either every one of the
/// sixteen rows parses, in order, and the record is returned, or the precise
/// reason and row of the first failure is.
pub fn parse_limits(input: &[u8]) -> (r: Result<Limits, ParseError>)
    ensures
        match (r, spec_parse_limits(input@)) {
            (Result::Ok(l), Result::Ok(m)) => l@ == m,
            (Result::Err(e), Result::Err(se)) => e == se,
            _ => false,
        },
{
    let n = input.len();
    let lf = match find_lf(input, 0) {
        Option::Some(j) => j,
        Option::None => return Result::Err(ParseError::TruncatedHeader),
    };
    proof {
        assert(lf < n);
    }
    let p0 = lf + 1;
    let mut triples: Vec<(i64, i64, Option<LimitUnit>)> = Vec::new();
    let mut pos = p0;
    let mut row: usize = 0;
    while row < 16
        invariant
            row <= 16,
            triples@.len() == row as int,
            pos <= input@.len(),
            spec_find_lf(input@, 0) == Option::Some(lf as int),
            p0 == lf + 1,
            spec_parse_rows(input@, p0 as int, 0) == (match spec_parse_rows(input@, pos as int, row as int) {
                Result::Ok(rest) => Result::Ok(rows_view(triples@) + rest),
                Result::Err(e) => Result::Err(e),
            }),
            forall|k: int| 0 <= k < row && row_is_duration(k) ==> is_time_unit(#[trigger] rows_view(triples@)[k].unit),
        decreases 16 - row,
    {
        let ghost old_ts = triples@;
        let t = match parse_limit_line(input, pos) {
            Result::Ok(t) => t,
            Result::Err(k) => {
                return Result::Err(ParseError::Row { index: row, error: k });
            },
        };
        let (soft, hard, unit, next) = t;
        let time_ok = match &unit {
            Option::Some(LimitUnit::Seconds) => true,
            Option::Some(LimitUnit::Us) => true,
            _ => false,
        };
        proof {
            assert(time_ok == is_time_unit(opt_unit_view(unit)));
        }
        if (row == 0 || row == 15) && !time_ok {
            return Result::Err(ParseError::Row { index: row, error: RowError::BadDurationUnit });
        }
        let ghost tm = triple_model((soft, hard, unit));
        triples.push((soft, hard, unit));
        proof {
            assert(rows_view(triples@) =~= rows_view(old_ts) + seq![tm]);
            match spec_parse_rows(input@, next as int, row as int + 1) {
                Result::Ok(rest) => {
                    assert(rows_view(old_ts) + (seq![tm] + rest) =~= rows_view(triples@) + rest);
                },
                Result::Err(_) => {},
            }
        }
        pos = next;
        row = row + 1;
    }
    let ghost all = triples@;
    proof {
        assert(rows_view(all) + Seq::<RowModel>::empty() =~= rows_view(all));
        assert(spec_parse_rows(input@, p0 as int, 0) == Result::<Seq<RowModel>, ParseError>::Ok(rows_view(all)));
    }
    let t15 = triples.pop().unwrap();
    let t14 = triples.pop().unwrap();
    let t13 = triples.pop().unwrap();
    let t12 = triples.pop().unwrap();
    let t11 = triples.pop().unwrap();
    let t10 = triples.pop().unwrap();
    let t9 = triples.pop().unwrap();
    let t8 = triples.pop().unwrap();
    let t7 = triples.pop().unwrap();
    let t6 = triples.pop().unwrap();
    let t5 = triples.pop().unwrap();
    let t4 = triples.pop().unwrap();
    let t3 = triples.pop().unwrap();
    let t2 = triples.pop().unwrap();
    let t1 = triples.pop().unwrap();
    let t0 = triples.pop().unwrap();
    let max_cpu_time = match to_limit_duration(t0) {
        Result::Ok(d) => d,
        Result::Err(_) => {
            proof { assert(false); }
            return Result::Err(ParseError::Row { index: 0, error: RowError::BadDurationUnit });
        },
    };
    let max_realtime_timeout = match to_limit_duration(t15) {
        Result::Ok(d) => d,
        Result::Err(_) => {
            proof { assert(false); }
            return Result::Err(ParseError::Row { index: 15, error: RowError::BadDurationUnit });
        },
    };
    let l = Limits {
        max_cpu_time,
        max_file_size: to_limit(t1),
        max_data_size: to_limit(t2),
        max_stack_size: to_limit(t3),
        max_core_file_size: to_limit(t4),
        max_resident_set: to_limit(t5),
        max_processes: to_limit(t6),
        max_open_files: to_limit(t7),
        max_locked_memory: to_limit(t8),
        max_address_space: to_limit(t9),
        max_file_locks: to_limit(t10),
        max_pending_signals: to_limit(t11),
        max_msgqueue_size: to_limit(t12),
        max_nice_priority: to_limit(t13),
        max_realtime_priority: to_limit(t14),
        max_realtime_timeout,
    };
    Result::Ok(l)
}

} // verus!
