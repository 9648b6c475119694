//! Tests for the limits-table parser: the canonical end-to-end table, the
//! sentinel and unit laws on concrete inputs, every error variant, and the
//! render/parse round trip.

use proc_limits::model::{LimitUnit, ParseError, RowError, TimeSpan, LIMITS_INFINITY};
use proc_limits::table::{parse_limits, to_limit, to_limit_duration};
use proc_limits::units::unit_types;
use proc_limits::render::render_limits;

fn canonical() -> &'static [u8] {
    CANONICAL
}

static CANONICAL: &[u8] = b"Limit                     Soft Limit           Hard Limit           Units         \n
Max cpu time              unlimited            unlimited            seconds       \n
Max file size             unlimited            unlimited            bytes         \n
Max data size             unlimited            unlimited            bytes         \n
Max stack size            8388608              unlimited            bytes         \n
Max core file size        unlimited            unlimited            bytes         \n
Max resident set          unlimited            unlimited            bytes         \n
Max processes             63632                63632                processes     \n
Max open files            1024                 4096                 files         \n
Max locked memory         65536                65536                bytes         \n
Max address space         unlimited            unlimited            bytes         \n
Max file locks            unlimited            unlimited            locks         \n
Max pending signals       63632                63632                signals       \n
Max msgqueue size         819200               819200               bytes         \n
Max nice priority         0                    0                                  \n
Max realtime priority     0                    0                                  \n
Max realtime timeout      unlimited            unlimited            us            \n";

#[test]
fn test_parse_limits() {
    let text = canonical();

    let limits = parse_limits(text).unwrap();

    assert_eq!(TimeSpan::from_seconds(-1), limits.max_cpu_time.soft_limit);
    assert_eq!(TimeSpan::from_seconds(-1), limits.max_cpu_time.hard_limit);
    assert_eq!(Some(LimitUnit::Seconds), limits.max_cpu_time.unit);

    assert_eq!(LIMITS_INFINITY, limits.max_file_size.soft_limit);
    assert_eq!(LIMITS_INFINITY, limits.max_file_size.hard_limit);
    assert_eq!(Some(LimitUnit::Bytes), limits.max_file_size.unit);

    assert_eq!(LIMITS_INFINITY, limits.max_data_size.soft_limit);
    assert_eq!(LIMITS_INFINITY, limits.max_data_size.hard_limit);
    assert_eq!(Some(LimitUnit::Bytes), limits.max_data_size.unit);

    assert_eq!(8388608, limits.max_stack_size.soft_limit);
    assert_eq!(LIMITS_INFINITY, limits.max_stack_size.hard_limit);
    assert_eq!(Some(LimitUnit::Bytes), limits.max_stack_size.unit);

    assert_eq!(LIMITS_INFINITY, limits.max_core_file_size.soft_limit);
    assert_eq!(LIMITS_INFINITY, limits.max_core_file_size.hard_limit);
    assert_eq!(Some(LimitUnit::Bytes), limits.max_core_file_size.unit);

    assert_eq!(LIMITS_INFINITY, limits.max_resident_set.soft_limit);
    assert_eq!(LIMITS_INFINITY, limits.max_resident_set.hard_limit);
    assert_eq!(Some(LimitUnit::Bytes), limits.max_resident_set.unit);

    assert_eq!(63632, limits.max_processes.soft_limit);
    assert_eq!(63632, limits.max_processes.hard_limit);
    assert_eq!(Some(LimitUnit::Processes), limits.max_processes.unit);

    assert_eq!(1024, limits.max_open_files.soft_limit);
    assert_eq!(4096, limits.max_open_files.hard_limit);
    assert_eq!(Some(LimitUnit::Files), limits.max_open_files.unit);

    assert_eq!(65536, limits.max_locked_memory.soft_limit);
    assert_eq!(65536, limits.max_locked_memory.hard_limit);
    assert_eq!(Some(LimitUnit::Bytes), limits.max_locked_memory.unit);

    assert_eq!(LIMITS_INFINITY, limits.max_address_space.soft_limit);
    assert_eq!(LIMITS_INFINITY, limits.max_address_space.hard_limit);
    assert_eq!(Some(LimitUnit::Bytes), limits.max_address_space.unit);

    assert_eq!(LIMITS_INFINITY, limits.max_file_locks.soft_limit);
    assert_eq!(LIMITS_INFINITY, limits.max_file_locks.hard_limit);
    assert_eq!(Some(LimitUnit::Locks), limits.max_file_locks.unit);

    assert_eq!(63632, limits.max_pending_signals.soft_limit);
    assert_eq!(63632, limits.max_pending_signals.hard_limit);
    assert_eq!(Some(LimitUnit::Signals), limits.max_pending_signals.unit);

    assert_eq!(819200, limits.max_msgqueue_size.soft_limit);
    assert_eq!(819200, limits.max_msgqueue_size.hard_limit);
    assert_eq!(Some(LimitUnit::Bytes), limits.max_msgqueue_size.unit);

    assert_eq!(0, limits.max_nice_priority.soft_limit);
    assert_eq!(0, limits.max_nice_priority.hard_limit);
    assert_eq!(None, limits.max_nice_priority.unit);

    assert_eq!(0, limits.max_realtime_priority.soft_limit);
    assert_eq!(0, limits.max_realtime_priority.hard_limit);
    assert_eq!(None, limits.max_realtime_priority.unit);

    assert_eq!(TimeSpan::from_microseconds(-1), limits.max_realtime_timeout.soft_limit);
    assert_eq!(TimeSpan::from_microseconds(-1), limits.max_realtime_timeout.hard_limit);
    assert_eq!(Some(LimitUnit::Us), limits.max_realtime_timeout.unit);
}

#[test]
fn literal_minus_one_is_interchangeable_with_unlimited() {
    let with_sentinel = b"Units\nMax cpu time  unlimited  unlimited  seconds\n\
Max file size  -1  -1  bytes\n\
Max data size  0  0  bytes\n\
Max stack size  0  0  bytes\n\
Max core file size  0  0  bytes\n\
Max resident set  0  0  bytes\n\
Max processes  0  0  processes\n\
Max open files  0  0  files\n\
Max locked memory  0  0  bytes\n\
Max address space  0  0  bytes\n\
Max file locks  0  0  locks\n\
Max pending signals  0  0  signals\n\
Max msgqueue size  0  0  bytes\n\
Max nice priority  0  0\n\
Max realtime priority  0  0\n\
Max realtime timeout  -1  unlimited  us\n";
    let limits = parse_limits(with_sentinel).unwrap();
    assert_eq!(TimeSpan::from_seconds(-1), limits.max_cpu_time.soft_limit);
    assert_eq!(LIMITS_INFINITY, limits.max_file_size.soft_limit);
    assert_eq!(LIMITS_INFINITY, limits.max_file_size.hard_limit);
    assert_eq!(TimeSpan::from_microseconds(-1), limits.max_realtime_timeout.soft_limit);
    assert_eq!(TimeSpan::from_microseconds(-1), limits.max_realtime_timeout.hard_limit);
}

#[test]
fn unknown_unit_word_is_kept_verbatim() {
    let text = canonical();
    let mut changed = text.to_vec();
    // replace the open-files row's unit word "files" (the occurrence after
    // the row label) with "flies"
    let lab = changed.windows(14).position(|w| w == b"Max open files").unwrap();
    let pos = lab + 14 + changed[lab + 14..].windows(5).position(|w| w == b"files").unwrap();
    changed[pos..pos + 5].copy_from_slice(b"flies");
    let limits = parse_limits(&changed).unwrap();
    assert_eq!(Some(LimitUnit::Other(b"flies".to_vec())), limits.max_open_files.unit);
}

#[test]
fn unit_types_maps_each_keyword_to_its_variant() {
    assert_eq!(Some(LimitUnit::Bytes), unit_types(Some(b"bytes".to_vec())));
    assert_eq!(Some(LimitUnit::Files), unit_types(Some(b"files".to_vec())));
    assert_eq!(Some(LimitUnit::Locks), unit_types(Some(b"locks".to_vec())));
    assert_eq!(Some(LimitUnit::Processes), unit_types(Some(b"processes".to_vec())));
    assert_eq!(Some(LimitUnit::Seconds), unit_types(Some(b"seconds".to_vec())));
    assert_eq!(Some(LimitUnit::Signals), unit_types(Some(b"signals".to_vec())));
    assert_eq!(Some(LimitUnit::Us), unit_types(Some(b"us".to_vec())));
    assert_eq!(Some(LimitUnit::Other(b"sheep".to_vec())), unit_types(Some(b"sheep".to_vec())));
    assert_eq!(None, unit_types(None));
}

#[test]
fn absent_unit_parses_as_none_not_error() {
    let limits = parse_limits(canonical()).unwrap();
    assert_eq!(None, limits.max_nice_priority.unit);
    assert_eq!(None, limits.max_realtime_priority.unit);
}

#[test]
fn duration_row_with_byte_unit_fails_cleanly() {
    let text = canonical();
    let mut changed = text.to_vec();
    let pos = changed.windows(7).position(|w| w == b"seconds").unwrap();
    // "seconds" -> "bytes  " keeps the column widths
    changed[pos..pos + 7].copy_from_slice(b"bytes  ");
    let err = parse_limits(&changed).unwrap_err();
    assert_eq!(ParseError::Row { index: 0, error: RowError::BadDurationUnit }, err);
}

#[test]
fn truncated_table_fails_without_partial_record() {
    let text = canonical();
    // keep the header and the first ten rows only
    let mut newlines = 0usize;
    let mut cut = 0usize;
    for (i, b) in text.iter().enumerate() {
        if *b == 10 {
            newlines += 1;
            // each row ends with an escaped and a literal line feed
            if newlines == 1 + 10 * 2 {
                cut = i + 1;
                break;
            }
        }
    }
    let err = parse_limits(&text[..cut]).unwrap_err();
    assert_eq!(ParseError::Row { index: 10, error: RowError::Truncated }, err);
}

#[test]
fn missing_header_line_feed_is_reported() {
    let err = parse_limits(b"Limit   Soft Limit   Hard Limit").unwrap_err();
    assert_eq!(ParseError::TruncatedHeader, err);
}

#[test]
fn bad_soft_and_hard_limits_are_reported() {
    let bad_soft = b"Units\nMax cpu time  what  unlimited  seconds\n";
    assert_eq!(
        ParseError::Row { index: 0, error: RowError::BadSoftLimit },
        parse_limits(bad_soft).unwrap_err()
    );
    let bad_hard = b"Units\nMax cpu time  unlimited  what  seconds\n";
    assert_eq!(
        ParseError::Row { index: 0, error: RowError::BadHardLimit },
        parse_limits(bad_hard).unwrap_err()
    );
}

#[test]
fn garbage_after_unit_word_is_reported() {
    let text = b"Units\nMax cpu time  1  1  seconds  x\n";
    assert_eq!(
        ParseError::Row { index: 0, error: RowError::MissingLineEnd },
        parse_limits(text).unwrap_err()
    );
}

#[test]
fn to_limit_keeps_the_triple() {
    let l = to_limit((5, 7, Some(LimitUnit::Files)));
    assert_eq!(5, l.soft_limit);
    assert_eq!(7, l.hard_limit);
    assert_eq!(Some(LimitUnit::Files), l.unit);
}

#[test]
fn to_limit_duration_scales_by_the_unit() {
    let d = to_limit_duration((2, 3, Some(LimitUnit::Seconds))).unwrap();
    assert_eq!(TimeSpan::from_seconds(2), d.soft_limit);
    assert_eq!(TimeSpan::from_microseconds(3000000), d.hard_limit);
    let d = to_limit_duration((2, 3, Some(LimitUnit::Us))).unwrap();
    assert_eq!(TimeSpan::from_microseconds(2), d.soft_limit);
    assert_eq!(TimeSpan::from_microseconds(3), d.hard_limit);
    assert_eq!(
        RowError::BadDurationUnit,
        to_limit_duration((2, 3, Some(LimitUnit::Bytes))).unwrap_err()
    );
    assert_eq!(RowError::BadDurationUnit, to_limit_duration((2, 3, None)).unwrap_err());
}

#[test]
fn a_second_is_a_million_microseconds() {
    assert_eq!(TimeSpan::from_seconds(-1), TimeSpan::from_microseconds(-1000000));
    assert_eq!(TimeSpan::from_seconds(2).whole_microseconds(), 2000000);
}

#[test]
fn render_then_parse_gives_the_identical_record() {
    let first = parse_limits(canonical()).unwrap();
    let rendered = render_limits(&first);
    let second = parse_limits(&rendered).unwrap();
    assert_eq!(first, second);
}

#[test]
fn render_emits_the_canonical_row_labels() {
    let record = parse_limits(canonical()).unwrap();
    let rendered = render_limits(&record);
    let text = String::from_utf8(rendered).unwrap();
    assert!(text.contains("Max cpu time  unlimited  unlimited  seconds"));
    assert!(text.contains("Max open files  1024  4096  files"));
    assert!(text.contains("Max nice priority  0  0"));
}

#[test]
fn oversized_value_is_rejected_as_bad_limit() {
    let text = b"Units\nMax cpu time  99999999999999999999  1  seconds\n";
    assert_eq!(
        ParseError::Row { index: 0, error: RowError::BadSoftLimit },
        parse_limits(text).unwrap_err()
    );
}

#[test]
fn i64_boundary_values_parse_exactly() {
    let mut text = b"Units\nMax cpu time  9223372036854775807  -9223372036854775808  us\n".to_vec();
    text.extend_from_slice(
        &b"X  0  0  bytes\n".repeat(14),
    );
    text.extend_from_slice(b"X  0  0  us\n");
    let limits = parse_limits(&text).unwrap();
    assert_eq!(
        TimeSpan::from_microseconds(9223372036854775807),
        limits.max_cpu_time.soft_limit
    );
    assert_eq!(
        TimeSpan::from_microseconds(-9223372036854775808),
        limits.max_cpu_time.hard_limit
    );
}

#[test]
fn carriage_return_line_endings_are_accepted() {
    let text = canonical();
    let mut crlf = Vec::new();
    for b in text {
        if *b == 10 {
            crlf.push(13);
        }
        crlf.push(*b);
    }
    let plain = parse_limits(text).unwrap();
    let with_crlf = parse_limits(&crlf).unwrap();
    assert_eq!(plain, with_crlf);
}
