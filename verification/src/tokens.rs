//! Primitive token parsers over byte slices: space runs, digit runs, bare
//! words, signed integers, the `unlimited` sentinel, and line terminators.
//!
//! Each parser has a spec-level counterpart over `Seq<u8>`; the executable
//! functions are proved to return exactly what the spec functions say.

use vstd::prelude::*;

verus! {

/// A column-separating byte: space or horizontal tab.
pub open spec fn is_space_byte(b: u8) -> bool {
    b == 32 || b == 9
}

/// An ASCII decimal digit.
pub open spec fn is_digit_byte(b: u8) -> bool {
    48 <= b && b <= 57
}

/// A byte that can stand in a bare word: anything but a space, a tab, or a
/// line-terminator byte.
pub open spec fn is_word_byte(b: u8) -> bool {
    b != 32 && b != 9 && b != 10 && b != 13
}

/// Index of the first byte at or after `i` that is not a space byte (or the
/// end of the input).
pub open spec fn spec_skip_spaces(s: Seq<u8>, i: int) -> int
    decreases s.len() - i,
{
    if 0 <= i < s.len() && is_space_byte(s[i]) {
        spec_skip_spaces(s, i + 1)
    } else {
        i
    }
}

/// The result of skipping spaces stays within the input and moves only over
/// space bytes, stopping at the first byte that is not one.
pub proof fn lemma_skip_spaces(s: Seq<u8>, i: int)
    requires
        0 <= i <= s.len(),
    ensures
        i <= spec_skip_spaces(s, i) <= s.len(),
        forall|k: int| i <= k < spec_skip_spaces(s, i) ==> is_space_byte(s[k]),
        spec_skip_spaces(s, i) == s.len() || !is_space_byte(s[spec_skip_spaces(s, i)]),
    decreases s.len() - i,
{
    if i < s.len() && is_space_byte(s[i]) {
        lemma_skip_spaces(s, i + 1);
    }
}

/// Advances `i` past any run of space bytes.
pub fn skip_spaces(s: &[u8], i: usize) -> (r: usize)
    requires
        i <= s@.len(),
    ensures
        r as int == spec_skip_spaces(s@, i as int),
        i <= r <= s@.len(),
{
    let mut j = i;
    while j < s.len() && (s[j] == 32 || s[j] == 9)
        invariant
            i <= j <= s@.len(),
            spec_skip_spaces(s@, i as int) == spec_skip_spaces(s@, j as int),
        decreases s@.len() - j,
    {
        j = j + 1;
    }
    j
}

/// Index of the first byte at or after `i` that is not a decimal digit (or
/// the end of the input).
pub open spec fn spec_digit_end(s: Seq<u8>, i: int) -> int
    decreases s.len() - i,
{
    if 0 <= i < s.len() && is_digit_byte(s[i]) {
        spec_digit_end(s, i + 1)
    } else {
        i
    }
}

/// The digit run ends within the input, covers only digits, and stops at the
/// first non-digit.
pub proof fn lemma_digit_end(s: Seq<u8>, i: int)
    requires
        0 <= i <= s.len(),
    ensures
        i <= spec_digit_end(s, i) <= s.len(),
        forall|k: int| i <= k < spec_digit_end(s, i) ==> is_digit_byte(s[k]),
        spec_digit_end(s, i) == s.len() || !is_digit_byte(s[spec_digit_end(s, i)]),
    decreases s.len() - i,
{
    if i < s.len() && is_digit_byte(s[i]) {
        lemma_digit_end(s, i + 1);
    }
}

/// Advances `i` past any run of decimal digits.
pub fn digit_end(s: &[u8], i: usize) -> (r: usize)
    requires
        i <= s@.len(),
    ensures
        r as int == spec_digit_end(s@, i as int),
        i <= r <= s@.len(),
{
    let mut j = i;
    while j < s.len() && 48 <= s[j] && s[j] <= 57
        invariant
            i <= j <= s@.len(),
            spec_digit_end(s@, i as int) == spec_digit_end(s@, j as int),
        decreases s@.len() - j,
    {
        j = j + 1;
    }
    j
}

/// Index of the first byte at or after `i` that cannot stand in a word (or
/// the end of the input).
pub open spec fn spec_word_end(s: Seq<u8>, i: int) -> int
    decreases s.len() - i,
{
    if 0 <= i < s.len() && is_word_byte(s[i]) {
        spec_word_end(s, i + 1)
    } else {
        i
    }
}

/// The word run ends within the input, covers only word bytes, and stops at
/// the first byte that is not one.
pub proof fn lemma_word_end(s: Seq<u8>, i: int)
    requires
        0 <= i <= s.len(),
    ensures
        i <= spec_word_end(s, i) <= s.len(),
        forall|k: int| i <= k < spec_word_end(s, i) ==> is_word_byte(s[k]),
        spec_word_end(s, i) == s.len() || !is_word_byte(s[spec_word_end(s, i)]),
    decreases s.len() - i,
{
    if i < s.len() && is_word_byte(s[i]) {
        lemma_word_end(s, i + 1);
    }
}

/// Advances `i` past any run of word bytes.
pub fn word_end(s: &[u8], i: usize) -> (r: usize)
    requires
        i <= s@.len(),
    ensures
        r as int == spec_word_end(s@, i as int),
        i <= r <= s@.len(),
{
    let mut j = i;
    while j < s.len() && s[j] != 32 && s[j] != 9 && s[j] != 10 && s[j] != 13
        invariant
            i <= j <= s@.len(),
            spec_word_end(s@, i as int) == spec_word_end(s@, j as int),
        decreases s@.len() - j,
    {
        j = j + 1;
    }
    j
}

/// First position `g` at or after `i` where two consecutive space characters
/// stand, or `None` when there is no such pair before the end of the input.
pub open spec fn spec_find_gap(s: Seq<u8>, i: int) -> Option<int>
    decreases s.len() - i,
{
    if i < 0 || i + 2 > s.len() {
        Option::None
    } else if s[i] == 32 && s[i + 1] == 32 {
        Option::Some(i)
    } else {
        spec_find_gap(s, i + 1)
    }
}

/// A found gap lies within the input, really is a double space, and is the
/// first one: no earlier pair of spaces stands wholly at or after `i`.
pub proof fn lemma_find_gap(s: Seq<u8>, i: int)
    requires
        0 <= i <= s.len(),
    ensures
        match spec_find_gap(s, i) {
            Option::Some(g) => i <= g && g + 2 <= s.len() && s[g] == 32 && s[g + 1] == 32
                && forall|k: int| i <= k < g ==> !(#[trigger] s[k] == 32 && s[k + 1] == 32),
            Option::None => forall|k: int| i <= k && k + 2 <= s.len() ==> !(#[trigger] s[k] == 32 && s[k + 1] == 32),
        },
    decreases s.len() - i,
{
    if i + 2 > s.len() {
    } else if s[i] == 32 && s[i + 1] == 32 {
    } else {
        lemma_find_gap(s, i + 1);
    }
}

/// Finds the first double-space column gap at or after `i`.
pub fn find_gap(s: &[u8], i: usize) -> (r: Option<usize>)
    requires
        i <= s@.len(),
    ensures
        match r {
            Option::Some(g) => spec_find_gap(s@, i as int) == Option::Some(g as int)
                && i <= g && g + 2 <= s@.len(),
            Option::None => spec_find_gap(s@, i as int) is None,
        },
{
    let mut j = i;
    while s.len() - j >= 2
        invariant
            i <= j <= s@.len(),
            spec_find_gap(s@, i as int) == spec_find_gap(s@, j as int),
        decreases s@.len() - j,
    {
        if s[j] == 32 && s[j + 1] == 32 {
            return Option::Some(j);
        }
        j = j + 1;
    }
    Option::None
}

/// Value of a sequence of ASCII digit bytes read as a decimal number, most
/// significant digit first.
pub open spec fn digits_val(ds: Seq<u8>) -> int
    decreases ds.len(),
{
    if ds.len() == 0 {
        0
    } else {
        digits_val(ds.drop_last()) * 10 + (ds.last() - 48)
    }
}

/// A run of digit bytes has a non-negative value.
pub proof fn lemma_digits_val_nonneg(ds: Seq<u8>)
    requires
        forall|k: int| 0 <= k < ds.len() ==> is_digit_byte(ds[k]),
    ensures
        digits_val(ds) >= 0,
    decreases ds.len(),
{
    if ds.len() > 0 {
        lemma_digits_val_nonneg(ds.drop_last());
    }
}

/// Reading one more digit multiplies the value by ten and adds the digit.
pub proof fn lemma_digits_val_extend(s: Seq<u8>, i: int, k: int)
    requires
        0 <= i <= k < s.len(),
    ensures
        digits_val(s.subrange(i, k + 1)) == digits_val(s.subrange(i, k)) * 10 + (s[k] - 48),
{
    assert(s.subrange(i, k + 1).drop_last() =~= s.subrange(i, k));
    assert(s.subrange(i, k + 1).last() == s[k]);
}

/// The value of a digit run is at least the value of any of its prefixes.
pub proof fn lemma_digits_val_prefix_le(s: Seq<u8>, i: int, k: int, j: int)
    requires
        0 <= i <= k <= j <= s.len(),
        forall|m: int| i <= m < j ==> is_digit_byte(s[m]),
    ensures
        digits_val(s.subrange(i, k)) <= digits_val(s.subrange(i, j)),
    decreases j - k,
{
    if k < j {
        lemma_digits_val_extend(s, i, k);
        assert(forall|m: int| 0 <= m < s.subrange(i, k).len() ==> is_digit_byte(s.subrange(i, k)[m]));
        lemma_digits_val_nonneg(s.subrange(i, k));
        lemma_digits_val_prefix_le(s, i, k + 1, j);
    }
}

/// A signed integer at `i`: an optional leading minus sign followed by one
/// or more decimal digits.  The parse fails when no digit is present, and —
/// as a machine limit — when the value does not fit a 64-bit signed integer.
pub open spec fn spec_parse_int(s: Seq<u8>, i: int) -> Option<(int, int)> {
    let neg = 0 <= i < s.len() && s[i] == 45;
    let j0 = if neg { i + 1 } else { i };
    let j = spec_digit_end(s, j0);
    if j == j0 {
        Option::None
    } else {
        let m = digits_val(s.subrange(j0, j));
        let v: int = if neg { -m } else { m };
        if i64::MIN <= v <= i64::MAX {
            Option::Some((v, j))
        } else {
            Option::None
        }
    }
}

/// Parses a signed decimal integer at `i`.
pub fn parse_int(s: &[u8], i: usize) -> (r: Option<(i64, usize)>)
    requires
        i <= s@.len(),
    ensures
        match (r, spec_parse_int(s@, i as int)) {
            (Option::Some((v, j)), Option::Some((sv, sj))) => v as int == sv && j as int == sj
                && i < j <= s@.len(),
            (Option::None, Option::None) => true,
            _ => false,
        },
{
    let ghost sv = s@;
    let neg = i < s.len() && s[i] == 45;
    let j0 = if neg { i + 1 } else { i };
    let j = digit_end(s, j0);
    proof {
        lemma_digit_end(sv, j0 as int);
    }
    if j == j0 {
        return Option::None;
    }
    let bound: u128 = if neg { 9223372036854775808 } else { 9223372036854775807 };
    let mut acc: u128 = 0;
    let mut k = j0;
    while k < j
        invariant
            j0 <= k <= j <= sv.len(),
            s@ == sv,
            i <= sv.len(),
            neg == (i < sv.len() && sv[i as int] == 45),
            j0 == if neg { i + 1 as int } else { i as int },
            j as int == spec_digit_end(sv, j0 as int),
            acc as int == digits_val(sv.subrange(j0 as int, k as int)),
            acc <= bound,
            bound == if neg { 9223372036854775808u128 } else { 9223372036854775807u128 },
            forall|m: int| j0 <= m < j ==> is_digit_byte(sv[m]),
        decreases j - k,
    {
        let d = (s[k] - 48) as u128;
        proof {
            lemma_digits_val_extend(sv, j0 as int, k as int);
        }
        let next = acc * 10 + d;
        if next > bound {
            proof {
                assert(digits_val(sv.subrange(j0 as int, k as int + 1)) == next as int);
                lemma_digits_val_prefix_le(sv, j0 as int, k as int + 1, j as int);
                assert(digits_val(sv.subrange(j0 as int, j as int)) > bound as int);
            }
            return Option::None;
        }
        acc = next;
        k = k + 1;
    }
    let ghost m = digits_val(sv.subrange(j0 as int, j as int));
    let v: i64 = if neg {
        if acc == 9223372036854775808 {
            i64::MIN
        } else {
            -((acc as u64) as i64)
        }
    } else {
        (acc as u64) as i64
    };
    Option::Some((v, j))
}

/// The nine bytes of the ASCII word `unlimited`.
pub open spec fn unlimited_word() -> Seq<u8> {
    seq![117u8, 110u8, 108u8, 105u8, 109u8, 105u8, 116u8, 101u8, 100u8]
}

/// True when the bytes at `i` start with the word `unlimited`.
pub fn starts_with_unlimited(s: &[u8], i: usize) -> (r: bool)
    requires
        i <= s@.len(),
    ensures
        r == (i + 9 <= s@.len() && s@.subrange(i as int, i as int + 9) == unlimited_word()),
{
    if s.len() - i < 9 {
        return false;
    }
    let r = s[i] == 117 && s[i + 1] == 110 && s[i + 2] == 108 && s[i + 3] == 105
        && s[i + 4] == 109 && s[i + 5] == 105 && s[i + 6] == 116 && s[i + 7] == 101
        && s[i + 8] == 100;
    proof {
        if r {
            assert(s@.subrange(i as int, i as int + 9) =~= unlimited_word());
        } else {
            if s@.subrange(i as int, i as int + 9) == unlimited_word() {
                assert(forall|k: int| 0 <= k < 9 ==> s@[i + k] == unlimited_word()[k]);
            }
        }
    }
    r
}

/// A limit value: the sentinel `unlimited`, read as `-1`, or a signed
/// decimal integer.
pub open spec fn spec_parse_value(s: Seq<u8>, i: int) -> Option<(int, int)> {
    if 0 <= i && i + 9 <= s.len() && s.subrange(i, i + 9) == unlimited_word() {
        Option::Some((-1, i + 9))
    } else {
        spec_parse_int(s, i)
    }
}

/// Parses one limit value (sentinel or integer) at `i`.
pub fn parse_value(s: &[u8], i: usize) -> (r: Option<(i64, usize)>)
    requires
        i <= s@.len(),
    ensures
        match (r, spec_parse_value(s@, i as int)) {
            (Option::Some((v, j)), Option::Some((sv, sj))) => v as int == sv && j as int == sj
                && i < j <= s@.len(),
            (Option::None, Option::None) => true,
            _ => false,
        },
{
    let n = s.len();
    if starts_with_unlimited(s, i) {
        proof {
            assert(i + 9 <= n);
        }
        Option::Some((-1, i + 9))
    } else {
        parse_int(s, i)
    }
}

/// A bare word at `i`: a maximal non-empty run of word bytes.
pub open spec fn spec_parse_word(s: Seq<u8>, i: int) -> Option<(Seq<u8>, int)> {
    let j = spec_word_end(s, i);
    if j == i {
        Option::None
    } else {
        Option::Some((s.subrange(i, j), j))
    }
}

/// Parses one bare word at `i`, handing back its bytes.
pub fn parse_word(s: &[u8], i: usize) -> (r: Option<(Vec<u8>, usize)>)
    requires
        i <= s@.len(),
    ensures
        match (r, spec_parse_word(s@, i as int)) {
            (Option::Some((w, j)), Option::Some((sw, sj))) => w@ == sw && j as int == sj
                && i < j <= s@.len(),
            (Option::None, Option::None) => true,
            _ => false,
        },
{
    let j = word_end(s, i);
    if j == i {
        Option::None
    } else {
        let piece = vstd::slice::slice_subrange(s, i, j);
        let w = vstd::slice::slice_to_vec(piece);
        Option::Some((w, j))
    }
}

/// A line terminator at `i`: a line feed, or a carriage return followed by a
/// line feed.
pub open spec fn spec_line_end(s: Seq<u8>, i: int) -> Option<int> {
    if 0 <= i < s.len() && s[i] == 10 {
        Option::Some(i + 1)
    } else if 0 <= i && i + 2 <= s.len() && s[i] == 13 && s[i + 1] == 10 {
        Option::Some(i + 2)
    } else {
        Option::None
    }
}

/// Recognizes a line terminator at `i`.
pub fn line_end(s: &[u8], i: usize) -> (r: Option<usize>)
    requires
        i <= s@.len(),
    ensures
        match (r, spec_line_end(s@, i as int)) {
            (Option::Some(j), Option::Some(sj)) => j as int == sj && i < j <= s@.len(),
            (Option::None, Option::None) => true,
            _ => false,
        },
{
    if i < s.len() && s[i] == 10 {
        Option::Some(i + 1)
    } else if s.len() - i >= 2 && s[i] == 13 && s[i + 1] == 10 {
        Option::Some(i + 2)
    } else {
        Option::None
    }
}

} // verus!
