//! Serialization of a [`Limits`] record back to the canonical text layout,
//! and the round-trip law: parsing a rendered record gives the record back.

use vstd::prelude::*;
use vstd::arithmetic::div_mod::lemma_fundamental_div_mod_converse;
use vstd::string::StringSliceAdditionalSpecFns;
use crate::model::{
    Limit, LimitDuration, LimitUnit, Limits, LimitsModel, LimitModel, DurationModel, UnitModel,
    TimeSpan, MICROS_PER_SECOND,
};
use crate::model::opt_unit_view;
use crate::tokens::{unlimited_word, is_word_byte, is_digit_byte};
use crate::units::{spec_classify, spec_unit_word, unit_word_bytes};
use crate::table::{RowModel, is_time_unit, row_is_duration};

verus! {

/// The bytes of an ASCII label literal.
pub open spec fn lbl_bytes(s: &str) -> Seq<u8> {
    s@.map_values(|c: char| c as u8)
}

/// Decimal digit bytes of a non-negative number, most significant first.
pub open spec fn spec_digits(n: int) -> Seq<u8>
    recommends
        n >= 0,
    decreases n,
{
    if n < 10 {
        seq![(48 + n) as u8]
    } else {
        spec_digits(n / 10).push((48 + n % 10) as u8)
    }
}

/// Canonical text of one limit value: the sentinel `-1` renders as the word
/// `unlimited`, any other value as its decimal digits.
pub open spec fn spec_render_value(v: int) -> Seq<u8> {
    if v == -1 {
        unlimited_word()
    } else if v < 0 {
        seq![45u8] + spec_digits(-v)
    } else {
        spec_digits(v)
    }
}

/// A double-space column separator.
pub open spec fn sp2() -> Seq<u8> {
    seq![32u8, 32u8]
}

/// The trailing unit column: nothing when the row has no unit.
pub open spec fn spec_unit_part(u: Option<UnitModel>) -> Seq<u8> {
    match u {
        Option::Some(x) => sp2() + spec_unit_word(x),
        Option::None => Seq::empty(),
    }
}

/// Canonical text of one row: label, gap, soft bound, gap, hard bound,
/// optional unit column, line feed.
pub open spec fn spec_render_row(label: Seq<u8>, r: RowModel) -> Seq<u8> {
    label + sp2() + spec_render_value(r.soft) + sp2() + spec_render_value(r.hard)
        + spec_unit_part(r.unit) + seq![10u8]
}

/// The canonical label of row `i`.
pub open spec fn spec_row_label(i: int) -> Seq<u8> {
    lbl_bytes(
        if i == 0 { "Max cpu time" }
        else if i == 1 { "Max file size" }
        else if i == 2 { "Max data size" }
        else if i == 3 { "Max stack size" }
        else if i == 4 { "Max core file size" }
        else if i == 5 { "Max resident set" }
        else if i == 6 { "Max processes" }
        else if i == 7 { "Max open files" }
        else if i == 8 { "Max locked memory" }
        else if i == 9 { "Max address space" }
        else if i == 10 { "Max file locks" }
        else if i == 11 { "Max pending signals" }
        else if i == 12 { "Max msgqueue size" }
        else if i == 13 { "Max nice priority" }
        else if i == 14 { "Max realtime priority" }
        else { "Max realtime timeout" },
    )
}

/// The header line's text (its content is never validated by the parser).
pub open spec fn header_label() -> Seq<u8> {
    lbl_bytes("Limit Soft Limit Hard Limit Units")
}

/// The row a plain limit renders as.
pub open spec fn row_of_plain(l: LimitModel) -> RowModel {
    RowModel { soft: l.soft, hard: l.hard, unit: l.unit }
}

/// The row a duration limit renders as: a seconds row divides the
/// microsecond bounds back down to seconds.
pub open spec fn row_of_dur(d: DurationModel) -> RowModel {
    RowModel {
        soft: if d.unit == Option::Some(UnitModel::Seconds) {
            d.soft_micros / (MICROS_PER_SECOND as int)
        } else {
            d.soft_micros
        },
        hard: if d.unit == Option::Some(UnitModel::Seconds) {
            d.hard_micros / (MICROS_PER_SECOND as int)
        } else {
            d.hard_micros
        },
        unit: d.unit,
    }
}

/// The sixteen rows of a record, in the fixed order.
pub open spec fn spec_rows_of(m: LimitsModel) -> Seq<RowModel> {
    seq![
        row_of_dur(m.max_cpu_time),
        row_of_plain(m.max_file_size),
        row_of_plain(m.max_data_size),
        row_of_plain(m.max_stack_size),
        row_of_plain(m.max_core_file_size),
        row_of_plain(m.max_resident_set),
        row_of_plain(m.max_processes),
        row_of_plain(m.max_open_files),
        row_of_plain(m.max_locked_memory),
        row_of_plain(m.max_address_space),
        row_of_plain(m.max_file_locks),
        row_of_plain(m.max_pending_signals),
        row_of_plain(m.max_msgqueue_size),
        row_of_plain(m.max_nice_priority),
        row_of_plain(m.max_realtime_priority),
        row_of_dur(m.max_realtime_timeout),
    ]
}

/// Canonical text of rows `row` through `15`.
pub open spec fn spec_render_rows(rows: Seq<RowModel>, row: int) -> Seq<u8>
    recommends
        rows.len() == 16,
    decreases 16 - row,
{
    if row < 0 || row >= 16 {
        Seq::empty()
    } else {
        spec_render_row(spec_row_label(row), rows[row]) + spec_render_rows(rows, row + 1)
    }
}

/// Canonical text of a whole record: header line, then the sixteen rows.
pub open spec fn spec_render_limits(m: LimitsModel) -> Seq<u8> {
    header_label() + seq![10u8] + spec_render_rows(spec_rows_of(m), 0)
}

/// A word that can stand in the unit column: non-empty, and free of spaces
/// and line-terminator bytes.
pub open spec fn word_wf(w: Seq<u8>) -> bool {
    w.len() > 0 && forall|k: int| 0 <= k < w.len() ==> is_word_byte(#[trigger] w[k])
}

/// A unit that renders to a word which classifies back to the same unit —
/// true of every unit a parse can produce.
pub open spec fn unit_wf(u: Option<UnitModel>) -> bool {
    match u {
        Option::None => true,
        Option::Some(x) => word_wf(spec_unit_word(x)) && spec_classify(spec_unit_word(x)) == x,
    }
}

/// A bound that fits the machine's signed 64-bit limit values.
pub open spec fn value_wf(v: int) -> bool {
    i64::MIN <= v <= i64::MAX
}

/// A well-formed plain limit row.
pub open spec fn limit_wf(l: LimitModel) -> bool {
    value_wf(l.soft) && value_wf(l.hard) && unit_wf(l.unit)
}

/// A well-formed duration row: a time unit, bounds divisible back to whole
/// values of that unit, and those values in machine range.
pub open spec fn dur_wf(d: DurationModel) -> bool {
    is_time_unit(d.unit)
    && (d.unit == Option::Some(UnitModel::Seconds) ==> d.soft_micros % (MICROS_PER_SECOND as int) == 0
        && d.hard_micros % (MICROS_PER_SECOND as int) == 0)
    && value_wf(row_of_dur(d).soft) && value_wf(row_of_dur(d).hard)
}

/// A well-formed record: what every successful parse produces, and what the
/// renderer requires.
pub open spec fn limits_wf(m: LimitsModel) -> bool {
    dur_wf(m.max_cpu_time)
    && limit_wf(m.max_file_size)
    && limit_wf(m.max_data_size)
    && limit_wf(m.max_stack_size)
    && limit_wf(m.max_core_file_size)
    && limit_wf(m.max_resident_set)
    && limit_wf(m.max_processes)
    && limit_wf(m.max_open_files)
    && limit_wf(m.max_locked_memory)
    && limit_wf(m.max_address_space)
    && limit_wf(m.max_file_locks)
    && limit_wf(m.max_pending_signals)
    && limit_wf(m.max_msgqueue_size)
    && limit_wf(m.max_nice_priority)
    && limit_wf(m.max_realtime_priority)
    && dur_wf(m.max_realtime_timeout)
}

/// Bytes of an ASCII label.
fn str_label(s: &str) -> (v: Vec<u8>)
    requires
        vstd::string::is_ascii(s),
    ensures
        v@ == lbl_bytes(s),
{
    proof {
        broadcast use vstd::string::is_ascii_spec_bytes;
        assert(s.spec_bytes() =~= lbl_bytes(s));
    }
    vstd::string::StrSliceExecFns::as_bytes_vec(s)
}

/// The canonical label of row `i`.
fn row_label(i: usize) -> (v: Vec<u8>)
    requires
        i < 16,
    ensures
        v@ == spec_row_label(i as int),
{
    if i == 0 {
        proof { reveal_strlit("Max cpu time"); assert(vstd::utf8::is_ascii_chars(("Max cpu time")@)); }
        str_label("Max cpu time")
    } else if i == 1 {
        proof { reveal_strlit("Max file size"); assert(vstd::utf8::is_ascii_chars(("Max file size")@)); }
        str_label("Max file size")
    } else if i == 2 {
        proof { reveal_strlit("Max data size"); assert(vstd::utf8::is_ascii_chars(("Max data size")@)); }
        str_label("Max data size")
    } else if i == 3 {
        proof { reveal_strlit("Max stack size"); assert(vstd::utf8::is_ascii_chars(("Max stack size")@)); }
        str_label("Max stack size")
    } else if i == 4 {
        proof { reveal_strlit("Max core file size"); assert(vstd::utf8::is_ascii_chars(("Max core file size")@)); }
        str_label("Max core file size")
    } else if i == 5 {
        proof { reveal_strlit("Max resident set"); assert(vstd::utf8::is_ascii_chars(("Max resident set")@)); }
        str_label("Max resident set")
    } else if i == 6 {
        proof { reveal_strlit("Max processes"); assert(vstd::utf8::is_ascii_chars(("Max processes")@)); }
        str_label("Max processes")
    } else if i == 7 {
        proof { reveal_strlit("Max open files"); assert(vstd::utf8::is_ascii_chars(("Max open files")@)); }
        str_label("Max open files")
    } else if i == 8 {
        proof { reveal_strlit("Max locked memory"); assert(vstd::utf8::is_ascii_chars(("Max locked memory")@)); }
        str_label("Max locked memory")
    } else if i == 9 {
        proof { reveal_strlit("Max address space"); assert(vstd::utf8::is_ascii_chars(("Max address space")@)); }
        str_label("Max address space")
    } else if i == 10 {
        proof { reveal_strlit("Max file locks"); assert(vstd::utf8::is_ascii_chars(("Max file locks")@)); }
        str_label("Max file locks")
    } else if i == 11 {
        proof { reveal_strlit("Max pending signals"); assert(vstd::utf8::is_ascii_chars(("Max pending signals")@)); }
        str_label("Max pending signals")
    } else if i == 12 {
        proof { reveal_strlit("Max msgqueue size"); assert(vstd::utf8::is_ascii_chars(("Max msgqueue size")@)); }
        str_label("Max msgqueue size")
    } else if i == 13 {
        proof { reveal_strlit("Max nice priority"); assert(vstd::utf8::is_ascii_chars(("Max nice priority")@)); }
        str_label("Max nice priority")
    } else if i == 14 {
        proof { reveal_strlit("Max realtime priority"); assert(vstd::utf8::is_ascii_chars(("Max realtime priority")@)); }
        str_label("Max realtime priority")
    } else {
        proof { reveal_strlit("Max realtime timeout"); assert(vstd::utf8::is_ascii_chars(("Max realtime timeout")@)); }
        str_label("Max realtime timeout")
    }
}

/// Decimal digits of `n`, most significant first.
fn render_digits(n: u64) -> (v: Vec<u8>)
    ensures
        v@ == spec_digits(n as int),
    decreases n,
{
    if n < 10 {
        let mut v: Vec<u8> = Vec::new();
        v.push(48 + n as u8);
        proof { assert(v@ =~= spec_digits(n as int)); }
        v
    } else {
        let mut v = render_digits(n / 10);
        v.push(48 + (n % 10) as u8);
        proof {
            assert((n / 10) as int == (n as int) / 10);
            assert((n % 10) as int == (n as int) % 10);
            assert(v@ =~= spec_digits(n as int));
        }
        v
    }
}

/// Canonical text of one limit value.
fn render_value(v: i64) -> (out: Vec<u8>)
    ensures
        out@ == spec_render_value(v as int),
{
    if v == -1 {
        let mut out: Vec<u8> = Vec::new();
        out.push(117); out.push(110); out.push(108); out.push(105); out.push(109);
        out.push(105); out.push(116); out.push(101); out.push(100);
        proof { assert(out@ =~= unlimited_word()); }
        out
    } else if v >= 0 {
        render_digits(v as u64)
    } else {
        let mag = (-(v as i128)) as u64;
        let mut out: Vec<u8> = Vec::new();
        out.push(45);
        let mut ds = render_digits(mag);
        out.append(&mut ds);
        proof { assert(out@ =~= seq![45u8] + spec_digits(-(v as int))); }
        out
    }
}

/// The trailing unit column of a row.
fn render_unit_part(u: &Option<LimitUnit>) -> (out: Vec<u8>)
    ensures
        out@ == spec_unit_part(opt_unit_view(*u)),
{
    match u {
        Option::Some(x) => {
            let mut out: Vec<u8> = Vec::new();
            out.push(32);
            out.push(32);
            let mut w = unit_word_bytes(x);
            out.append(&mut w);
            proof { assert(out@ =~= sp2() + spec_unit_word(x@)); }
            out
        },
        Option::None => Vec::new(),
    }
}

/// Canonical text of one row.
fn render_row_bytes(label: Vec<u8>, soft: i64, hard: i64, unit: &Option<LimitUnit>) -> (out: Vec<u8>)
    ensures
        out@ == spec_render_row(
            label@,
            (RowModel { soft: soft as int, hard: hard as int, unit: opt_unit_view(*unit) }),
        ),
{
    let mut out = label;
    out.push(32);
    out.push(32);
    let mut sv = render_value(soft);
    out.append(&mut sv);
    out.push(32);
    out.push(32);
    let mut hv = render_value(hard);
    out.append(&mut hv);
    let mut up = render_unit_part(unit);
    out.append(&mut up);
    out.push(10);
    proof {
        assert(out@ =~= spec_render_row(
            label@,
            (RowModel { soft: soft as int, hard: hard as int, unit: opt_unit_view(*unit) }),
        ));
    }
    out
}

/// The whole bounds of a span expressed in the row's unit: seconds rows
/// divide the microsecond count back down.
fn span_in_unit(span: &TimeSpan, in_seconds: bool) -> (r: i64)
    requires
        in_seconds ==> span@ % (MICROS_PER_SECOND as int) == 0,
        in_seconds ==> i64::MIN <= span@ / (MICROS_PER_SECOND as int) <= i64::MAX,
        !in_seconds ==> i64::MIN <= span@ <= i64::MAX,
    ensures
        r as int == if in_seconds { span@ / (MICROS_PER_SECOND as int) } else { span@ },
{
    let us = span.whole_microseconds();
    if !in_seconds {
        return us as i64;
    }
    let neg = us < 0;
    let mag: u128 = if neg { (-us) as u128 } else { us as u128 };
    let qq: u128 = mag / 1000000;
    let rr: u128 = mag % 1000000;
    proof {
        if neg {
            if rr != 0 {
                lemma_fundamental_div_mod_converse(
                    us as int, 1000000, -(qq as int) - 1, 1000000 - rr as int);
                assert(false);
            }
            lemma_fundamental_div_mod_converse(us as int, 1000000, -(qq as int), 0);
        } else {
            lemma_fundamental_div_mod_converse(us as int, 1000000, qq as int, rr as int);
        }
    }
    if neg {
        if qq == 9223372036854775808 {
            i64::MIN
        } else {
            -((qq as u64) as i64)
        }
    } else {
        (qq as u64) as i64
    }
}

/// The rendered table laid out as one flat concatenation: header, line
/// feed, and the sixteen rows in order.
#[verifier::rlimit(100)]
pub proof fn lemma_render_limits_shape(m: LimitsModel)
    ensures
        spec_render_limits(m) == (header_label() + seq![10u8])
            + spec_render_row(spec_row_label(0), row_of_dur(m.max_cpu_time))
            + spec_render_row(spec_row_label(1), row_of_plain(m.max_file_size))
            + spec_render_row(spec_row_label(2), row_of_plain(m.max_data_size))
            + spec_render_row(spec_row_label(3), row_of_plain(m.max_stack_size))
            + spec_render_row(spec_row_label(4), row_of_plain(m.max_core_file_size))
            + spec_render_row(spec_row_label(5), row_of_plain(m.max_resident_set))
            + spec_render_row(spec_row_label(6), row_of_plain(m.max_processes))
            + spec_render_row(spec_row_label(7), row_of_plain(m.max_open_files))
            + spec_render_row(spec_row_label(8), row_of_plain(m.max_locked_memory))
            + spec_render_row(spec_row_label(9), row_of_plain(m.max_address_space))
            + spec_render_row(spec_row_label(10), row_of_plain(m.max_file_locks))
            + spec_render_row(spec_row_label(11), row_of_plain(m.max_pending_signals))
            + spec_render_row(spec_row_label(12), row_of_plain(m.max_msgqueue_size))
            + spec_render_row(spec_row_label(13), row_of_plain(m.max_nice_priority))
            + spec_render_row(spec_row_label(14), row_of_plain(m.max_realtime_priority))
            + spec_render_row(spec_row_label(15), row_of_dur(m.max_realtime_timeout)),
{
    let rows = spec_rows_of(m);
    assert(rows[0] == row_of_dur(m.max_cpu_time));
    assert(rows[1] == row_of_plain(m.max_file_size));
    assert(rows[2] == row_of_plain(m.max_data_size));
    assert(rows[3] == row_of_plain(m.max_stack_size));
    assert(rows[4] == row_of_plain(m.max_core_file_size));
    assert(rows[5] == row_of_plain(m.max_resident_set));
    assert(rows[6] == row_of_plain(m.max_processes));
    assert(rows[7] == row_of_plain(m.max_open_files));
    assert(rows[8] == row_of_plain(m.max_locked_memory));
    assert(rows[9] == row_of_plain(m.max_address_space));
    assert(rows[10] == row_of_plain(m.max_file_locks));
    assert(rows[11] == row_of_plain(m.max_pending_signals));
    assert(rows[12] == row_of_plain(m.max_msgqueue_size));
    assert(rows[13] == row_of_plain(m.max_nice_priority));
    assert(rows[14] == row_of_plain(m.max_realtime_priority));
    assert(rows[15] == row_of_dur(m.max_realtime_timeout));
    let r0 = spec_render_row(spec_row_label(0), rows[0]);
    let r1 = spec_render_row(spec_row_label(1), rows[1]);
    let r2 = spec_render_row(spec_row_label(2), rows[2]);
    let r3 = spec_render_row(spec_row_label(3), rows[3]);
    let r4 = spec_render_row(spec_row_label(4), rows[4]);
    let r5 = spec_render_row(spec_row_label(5), rows[5]);
    let r6 = spec_render_row(spec_row_label(6), rows[6]);
    let r7 = spec_render_row(spec_row_label(7), rows[7]);
    let r8 = spec_render_row(spec_row_label(8), rows[8]);
    let r9 = spec_render_row(spec_row_label(9), rows[9]);
    let r10 = spec_render_row(spec_row_label(10), rows[10]);
    let r11 = spec_render_row(spec_row_label(11), rows[11]);
    let r12 = spec_render_row(spec_row_label(12), rows[12]);
    let r13 = spec_render_row(spec_row_label(13), rows[13]);
    let r14 = spec_render_row(spec_row_label(14), rows[14]);
    let r15 = spec_render_row(spec_row_label(15), rows[15]);
    let h2 = header_label() + seq![10u8];
    let t0 = spec_render_rows(rows, 0);
    let t1 = spec_render_rows(rows, 1);
    let t2 = spec_render_rows(rows, 2);
    let t3 = spec_render_rows(rows, 3);
    let t4 = spec_render_rows(rows, 4);
    let t5 = spec_render_rows(rows, 5);
    let t6 = spec_render_rows(rows, 6);
    let t7 = spec_render_rows(rows, 7);
    let t8 = spec_render_rows(rows, 8);
    let t9 = spec_render_rows(rows, 9);
    let t10 = spec_render_rows(rows, 10);
    let t11 = spec_render_rows(rows, 11);
    let t12 = spec_render_rows(rows, 12);
    let t13 = spec_render_rows(rows, 13);
    let t14 = spec_render_rows(rows, 14);
    let t15 = spec_render_rows(rows, 15);
    let t16 = spec_render_rows(rows, 16);
    assert(t16 =~= Seq::<u8>::empty());
    assert(t15 == r15 + t16);
    assert(t14 == r14 + t15);
    assert(t13 == r13 + t14);
    assert(t12 == r12 + t13);
    assert(t11 == r11 + t12);
    assert(t10 == r10 + t11);
    assert(t9 == r9 + t10);
    assert(t8 == r8 + t9);
    assert(t7 == r7 + t8);
    assert(t6 == r6 + t7);
    assert(t5 == r5 + t6);
    assert(t4 == r4 + t5);
    assert(t3 == r3 + t4);
    assert(t2 == r2 + t3);
    assert(t1 == r1 + t2);
    assert(t0 == r0 + t1);
    vstd::seq_lib::lemma_concat_associative(h2, r0, t1);
    vstd::seq_lib::lemma_concat_associative(h2 + r0, r1, t2);
    vstd::seq_lib::lemma_concat_associative(h2 + r0 + r1, r2, t3);
    vstd::seq_lib::lemma_concat_associative(h2 + r0 + r1 + r2, r3, t4);
    vstd::seq_lib::lemma_concat_associative(h2 + r0 + r1 + r2 + r3, r4, t5);
    vstd::seq_lib::lemma_concat_associative(h2 + r0 + r1 + r2 + r3 + r4, r5, t6);
    vstd::seq_lib::lemma_concat_associative(h2 + r0 + r1 + r2 + r3 + r4 + r5, r6, t7);
    vstd::seq_lib::lemma_concat_associative(h2 + r0 + r1 + r2 + r3 + r4 + r5 + r6, r7, t8);
    vstd::seq_lib::lemma_concat_associative(h2 + r0 + r1 + r2 + r3 + r4 + r5 + r6 + r7, r8, t9);
    vstd::seq_lib::lemma_concat_associative(h2 + r0 + r1 + r2 + r3 + r4 + r5 + r6 + r7 + r8, r9, t10);
    vstd::seq_lib::lemma_concat_associative(h2 + r0 + r1 + r2 + r3 + r4 + r5 + r6 + r7 + r8 + r9, r10, t11);
    vstd::seq_lib::lemma_concat_associative(h2 + r0 + r1 + r2 + r3 + r4 + r5 + r6 + r7 + r8 + r9 + r10, r11, t12);
    vstd::seq_lib::lemma_concat_associative(h2 + r0 + r1 + r2 + r3 + r4 + r5 + r6 + r7 + r8 + r9 + r10 + r11, r12, t13);
    vstd::seq_lib::lemma_concat_associative(h2 + r0 + r1 + r2 + r3 + r4 + r5 + r6 + r7 + r8 + r9 + r10 + r11 + r12, r13, t14);
    vstd::seq_lib::lemma_concat_associative(h2 + r0 + r1 + r2 + r3 + r4 + r5 + r6 + r7 + r8 + r9 + r10 + r11 + r12 + r13, r14, t15);
    vstd::seq_lib::lemma_concat_associative(h2 + r0 + r1 + r2 + r3 + r4 + r5 + r6 + r7 + r8 + r9 + r10 + r11 + r12 + r13 + r14, r15, t16);
    Seq::add_empty_right(h2 + r0 + r1 + r2 + r3 + r4 + r5 + r6 + r7 + r8 + r9 + r10 + r11 + r12 + r13 + r14 + r15, t16);
}

/// Renders a well-formed record back to the canonical text layout.
#[verifier::rlimit(100)]
pub fn render_limits(l: &Limits) -> (out: Vec<u8>)
    requires
        limits_wf(l@),
    ensures
        out@ == spec_render_limits(l@),
{
    let ghost rows = spec_rows_of(l@);
    proof {
        reveal_strlit("Limit Soft Limit Hard Limit Units");
        assert(vstd::utf8::is_ascii_chars(("Limit Soft Limit Hard Limit Units")@));
    }
    let mut out = str_label("Limit Soft Limit Hard Limit Units");
    out.push(10);
    let cpu_seconds = match &l.max_cpu_time.unit {
        Option::Some(LimitUnit::Seconds) => true,
        _ => false,
    };
    let rt_seconds = match &l.max_realtime_timeout.unit {
        Option::Some(LimitUnit::Seconds) => true,
        _ => false,
    };
    let s0 = span_in_unit(&l.max_cpu_time.soft_limit, cpu_seconds);
    let h0 = span_in_unit(&l.max_cpu_time.hard_limit, cpu_seconds);
    let s15 = span_in_unit(&l.max_realtime_timeout.soft_limit, rt_seconds);
    let h15 = span_in_unit(&l.max_realtime_timeout.hard_limit, rt_seconds);
    let mut piece = render_row_bytes(row_label(0), s0, h0, &l.max_cpu_time.unit);
    out.append(&mut piece);
    let mut piece = render_row_bytes(row_label(1), l.max_file_size.soft_limit,
        l.max_file_size.hard_limit, &l.max_file_size.unit);
    out.append(&mut piece);
    let mut piece = render_row_bytes(row_label(2), l.max_data_size.soft_limit,
        l.max_data_size.hard_limit, &l.max_data_size.unit);
    out.append(&mut piece);
    let mut piece = render_row_bytes(row_label(3), l.max_stack_size.soft_limit,
        l.max_stack_size.hard_limit, &l.max_stack_size.unit);
    out.append(&mut piece);
    let mut piece = render_row_bytes(row_label(4), l.max_core_file_size.soft_limit,
        l.max_core_file_size.hard_limit, &l.max_core_file_size.unit);
    out.append(&mut piece);
    let mut piece = render_row_bytes(row_label(5), l.max_resident_set.soft_limit,
        l.max_resident_set.hard_limit, &l.max_resident_set.unit);
    out.append(&mut piece);
    let mut piece = render_row_bytes(row_label(6), l.max_processes.soft_limit,
        l.max_processes.hard_limit, &l.max_processes.unit);
    out.append(&mut piece);
    let mut piece = render_row_bytes(row_label(7), l.max_open_files.soft_limit,
        l.max_open_files.hard_limit, &l.max_open_files.unit);
    out.append(&mut piece);
    let mut piece = render_row_bytes(row_label(8), l.max_locked_memory.soft_limit,
        l.max_locked_memory.hard_limit, &l.max_locked_memory.unit);
    out.append(&mut piece);
    let mut piece = render_row_bytes(row_label(9), l.max_address_space.soft_limit,
        l.max_address_space.hard_limit, &l.max_address_space.unit);
    out.append(&mut piece);
    let mut piece = render_row_bytes(row_label(10), l.max_file_locks.soft_limit,
        l.max_file_locks.hard_limit, &l.max_file_locks.unit);
    out.append(&mut piece);
    let mut piece = render_row_bytes(row_label(11), l.max_pending_signals.soft_limit,
        l.max_pending_signals.hard_limit, &l.max_pending_signals.unit);
    out.append(&mut piece);
    let mut piece = render_row_bytes(row_label(12), l.max_msgqueue_size.soft_limit,
        l.max_msgqueue_size.hard_limit, &l.max_msgqueue_size.unit);
    out.append(&mut piece);
    let mut piece = render_row_bytes(row_label(13), l.max_nice_priority.soft_limit,
        l.max_nice_priority.hard_limit, &l.max_nice_priority.unit);
    out.append(&mut piece);
    let mut piece = render_row_bytes(row_label(14), l.max_realtime_priority.soft_limit,
        l.max_realtime_priority.hard_limit, &l.max_realtime_priority.unit);
    out.append(&mut piece);
    let mut piece = render_row_bytes(row_label(15), s15, h15, &l.max_realtime_timeout.unit);
    out.append(&mut piece);
    proof {
        lemma_render_limits_shape(l@);
        assert(out@ == spec_render_limits(l@));
    }
    out
}

/// A run of spaces from `i` to `j`, stopped by `j`, is exactly what the
/// space skipper covers.
pub proof fn lemma_skip_spaces_exact(s: Seq<u8>, i: int, j: int)
    requires
        0 <= i <= j <= s.len(),
        forall|k: int| i <= k < j ==> crate::tokens::is_space_byte(#[trigger] s[k]),
        j == s.len() || !crate::tokens::is_space_byte(s[j]),
    ensures
        crate::tokens::spec_skip_spaces(s, i) == j,
    decreases j - i,
{
    if i < j {
        lemma_skip_spaces_exact(s, i + 1, j);
    }
}

/// A run of digits from `i` to `j`, stopped by `j`, is exactly the digit
/// run the scanner finds.
pub proof fn lemma_digit_end_exact(s: Seq<u8>, i: int, j: int)
    requires
        0 <= i <= j <= s.len(),
        forall|k: int| i <= k < j ==> is_digit_byte(#[trigger] s[k]),
        j == s.len() || !is_digit_byte(s[j]),
    ensures
        crate::tokens::spec_digit_end(s, i) == j,
    decreases j - i,
{
    if i < j {
        lemma_digit_end_exact(s, i + 1, j);
    }
}

/// A run of word bytes from `i` to `j`, stopped by `j`, is exactly the word
/// run the scanner finds.
pub proof fn lemma_word_end_exact(s: Seq<u8>, i: int, j: int)
    requires
        0 <= i <= j <= s.len(),
        forall|k: int| i <= k < j ==> is_word_byte(#[trigger] s[k]),
        j == s.len() || !is_word_byte(s[j]),
    ensures
        crate::tokens::spec_word_end(s, i) == j,
    decreases j - i,
{
    if i < j {
        lemma_word_end_exact(s, i + 1, j);
    }
}

/// A double space at `g`, with none earlier, is exactly the gap the search
/// finds.
pub proof fn lemma_find_gap_at(s: Seq<u8>, i: int, g: int)
    requires
        0 <= i <= g,
        g + 2 <= s.len(),
        s[g] == 32 && s[g + 1] == 32,
        forall|k: int| i <= k < g ==> !(#[trigger] s[k] == 32 && s[k + 1] == 32),
    ensures
        crate::tokens::spec_find_gap(s, i) == Option::Some(g),
    decreases g - i,
{
    if i < g {
        lemma_find_gap_at(s, i + 1, g);
    }
}

/// A line feed at `j`, with none earlier, is exactly the one the header
/// skip finds.
pub proof fn lemma_find_lf_at(s: Seq<u8>, i: int, j: int)
    requires
        0 <= i <= j < s.len(),
        s[j] == 10,
        forall|k: int| i <= k < j ==> #[trigger] s[k] != 10,
    ensures
        crate::table::spec_find_lf(s, i) == Option::Some(j),
    decreases j - i,
{
    if i < j {
        lemma_find_lf_at(s, i + 1, j);
    }
}

/// The decimal rendering of a non-negative number is non-empty and all
/// digits.
pub proof fn lemma_digits_shape(n: int)
    requires
        n >= 0,
    ensures
        spec_digits(n).len() >= 1,
        forall|k: int| 0 <= k < spec_digits(n).len() ==> is_digit_byte(#[trigger] spec_digits(n)[k]),
    decreases n,
{
    if n >= 10 {
        lemma_digits_shape(n / 10);
    }
}

/// Reading the decimal rendering of a number back gives the number.
pub proof fn lemma_digits_val_round(n: int)
    requires
        n >= 0,
    ensures
        crate::tokens::digits_val(spec_digits(n)) == n,
    decreases n,
{
    lemma_digits_shape(n);
    if n < 10 {
        assert(spec_digits(n) == seq![(48 + n) as u8]);
        assert(spec_digits(n).drop_last() =~= Seq::<u8>::empty());
        assert(crate::tokens::digits_val(spec_digits(n).drop_last()) == 0);
        assert(spec_digits(n).last() == (48 + n) as u8);
    } else {
        lemma_digits_val_round(n / 10);
        vstd::arithmetic::div_mod::lemma_fundamental_div_mod(n, 10);
        assert(spec_digits(n) == spec_digits(n / 10).push((48 + n % 10) as u8));
        assert(spec_digits(n).drop_last() =~= spec_digits(n / 10));
        assert(spec_digits(n).last() == (48 + n % 10) as u8);
        assert(crate::tokens::digits_val(spec_digits(n)) == crate::tokens::digits_val(
            spec_digits(n).drop_last()) * 10 + (spec_digits(n).last() - 48));
        assert(crate::tokens::digits_val(spec_digits(n)) == (n / 10) * 10 + n % 10);
    }
}

} // verus!
