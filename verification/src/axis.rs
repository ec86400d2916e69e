//! The axis value engine: rounded tick boundaries and spacing from a data
//! range and a desired tick count, and the linear mapping from data values
//! to pixel offsets.
//!
//! The step is the smallest "nice" quantity (1, 2 or 5 times a power of
//! ten, in tenths) for which the requested number of intervals, started at
//! the largest step multiple not above the data minimum, still spans the
//! whole data range; when no such step exists the exact range split is
//! used unchanged.

use vstd::prelude::*;
use crate::common::{MAX_COORD, MAX_VALUE};
use crate::decimal::{spec_tenths_text, format_tenths};

verus! {

/// The least of zero and the data values.
pub open spec fn spec_data_min(s: Seq<i64>) -> int
    decreases s.len(),
{
    if s.len() == 0 {
        0
    } else {
        let rest = spec_data_min(s.drop_last());
        if s.last() < rest {
            s.last() as int
        } else {
            rest
        }
    }
}

/// The greatest of zero and the data values.
pub open spec fn spec_data_max(s: Seq<i64>) -> int
    decreases s.len(),
{
    if s.len() == 0 {
        0
    } else {
        let rest = spec_data_max(s.drop_last());
        if s.last() > rest {
            s.last() as int
        } else {
            rest
        }
    }
}

pub proof fn lemma_data_min_le(s: Seq<i64>, i: int)
    requires
        0 <= i < s.len(),
    ensures
        spec_data_min(s) <= s[i],
        spec_data_min(s) <= 0,
    decreases s.len(),
{
    if i < s.len() - 1 {
        lemma_data_min_le(s.drop_last(), i);
    } else if s.len() > 1 {
        lemma_data_min_le(s.drop_last(), 0);
    }
}

pub proof fn lemma_data_max_ge(s: Seq<i64>, i: int)
    requires
        0 <= i < s.len(),
    ensures
        spec_data_max(s) >= s[i],
        spec_data_max(s) >= 0,
    decreases s.len(),
{
    if i < s.len() - 1 {
        lemma_data_max_ge(s.drop_last(), i);
    } else if s.len() > 1 {
        lemma_data_max_ge(s.drop_last(), 0);
    }
}

pub proof fn lemma_data_min_nonpos(s: Seq<i64>)
    ensures
        spec_data_min(s) <= 0,
    decreases s.len(),
{
    if s.len() > 0 {
        lemma_data_min_nonpos(s.drop_last());
    }
}

pub proof fn lemma_data_max_nonneg(s: Seq<i64>)
    ensures
        spec_data_max(s) >= 0,
    decreases s.len(),
{
    if s.len() > 0 {
        lemma_data_max_nonneg(s.drop_last());
    }
}

/// Ten to the `k`.
pub open spec fn spec_pow10(k: int) -> int
    decreases k,
{
    if k <= 0 {
        1
    } else {
        10 * spec_pow10(k - 1)
    }
}

proof fn lemma_pow10_pos(k: int)
    ensures
        spec_pow10(k) >= 1,
    decreases (if k > 0 {
        k
    } else {
        0
    }),
{
    if k > 0 {
        lemma_pow10_pos(k - 1);
    }
}

proof fn lemma_pow10_le(k: int, m: int)
    requires
        0 <= k <= m,
    ensures
        1 <= spec_pow10(k) <= spec_pow10(m),
    decreases m,
{
    lemma_pow10_pos(k);
    if k < m {
        lemma_pow10_le(k, m - 1);
    }
}

proof fn lemma_pow10_bound(k: int)
    requires
        0 <= k <= 12,
    ensures
        1 <= spec_pow10(k) <= 1_000_000_000_000,
{
    lemma_pow10_le(k, 12);
    reveal_with_fuel(spec_pow10, 14);
    assert(spec_pow10(12) == 1_000_000_000_000);
}

/// The multiplier of the `i`-th nice candidate: the cycle 1, 2, 5.
pub open spec fn spec_nice_mult(r: int) -> int {
    if r == 0 {
        1
    } else if r == 1 {
        2
    } else {
        5
    }
}

/// The `i`-th nice step candidate, in tenths: 1, 2, 5, 10, 20, 50, ...
pub open spec fn spec_nice(i: int) -> int {
    spec_nice_mult(i % 3) * spec_pow10(i / 3)
}

/// The last candidate index the engine tries: candidates reach
/// 5 * 10^12 tenths, above any step a data range within the working
/// bounds can need.
pub const NICE_IDX_MAX: usize = 38;

/// The largest tick-interval count the engine accepts: with steps up to
/// 5 * 10^12 tenths, `split * step` must stay within a signed 64-bit
/// count of tenths.
pub const SPLIT_MAX: usize = 1_000_000;

/// `v` rounded down to a multiple of `step`.
pub open spec fn spec_floor_mul(v: int, step: int) -> int {
    (v / step) * step
}

/// Whether `split` intervals of `step`, started at the floor-aligned
/// origin, span the whole of `min0 ..= max0`.
pub open spec fn spec_cover(min0: int, max0: int, split: int, step: int) -> bool {
    spec_floor_mul(min0, step) + split * step >= max0
}

/// The first nice candidate from index `i` on that covers the range.
pub open spec fn spec_scan(min0: int, max0: int, split: int, i: int) -> Option<int>
    decreases NICE_IDX_MAX + 1 - i,
{
    if i > NICE_IDX_MAX {
        None
    } else if spec_cover(min0, max0, split, spec_nice(i)) {
        Some(spec_nice(i))
    } else {
        spec_scan(min0, max0, split, i + 1)
    }
}

proof fn lemma_scan_covers(min0: int, max0: int, split: int, i: int, c: int)
    requires
        spec_scan(min0, max0, split, i) == Some(c),
    ensures
        spec_cover(min0, max0, split, c),
    decreases NICE_IDX_MAX + 1 - i,
{
    if i <= NICE_IDX_MAX && !spec_cover(min0, max0, split, spec_nice(i)) {
        lemma_scan_covers(min0, max0, split, i + 1, c);
    }
}

/// The ceiling of `a / b`.
pub open spec fn spec_ceil_div(a: int, b: int) -> int {
    (a + b - 1) / b
}

/// The effective tick-interval count: a missing count falls back to six.
pub open spec fn spec_axis_split(n: int) -> int {
    if n == 0 {
        6
    } else {
        n
    }
}

/// The chosen step of the axis over `data` with `split` intervals.
pub open spec fn spec_axis_step(data: Seq<i64>, split: int) -> int {
    let min0 = spec_data_min(data);
    let max0 = spec_data_max(data);
    match spec_scan(min0, max0, split, 0) {
        Some(c) => c,
        None => spec_ceil_div(max0 - min0, split),
    }
}

/// The least tick of the axis over `data` with `split` intervals.
pub open spec fn spec_axis_min(data: Seq<i64>, split: int) -> int {
    let min0 = spec_data_min(data);
    let max0 = spec_data_max(data);
    match spec_scan(min0, max0, split, 0) {
        Some(c) => spec_floor_mul(min0, c),
        None => min0,
    }
}

/// The greatest tick of the axis over `data` with `split` intervals.
pub open spec fn spec_axis_max(data: Seq<i64>, split: int) -> int {
    spec_axis_min(data, split) + split * spec_axis_step(data, split)
}

proof fn lemma_nice_pos(i: int)
    ensures
        spec_nice(i) >= 1,
{
    lemma_pow10_pos(i / 3);
    assert(spec_nice_mult(i % 3) >= 1);
    assert(spec_nice_mult(i % 3) * spec_pow10(i / 3) >= 1) by (nonlinear_arith)
        requires
            spec_nice_mult(i % 3) >= 1,
            spec_pow10(i / 3) >= 1,
    ;
}

proof fn lemma_scan_pos(min0: int, max0: int, split: int, i: int, c: int)
    requires
        spec_scan(min0, max0, split, i) == Some(c),
    ensures
        c >= 1,
    decreases NICE_IDX_MAX + 1 - i,
{
    if i <= NICE_IDX_MAX {
        if spec_cover(min0, max0, split, spec_nice(i)) {
            lemma_nice_pos(i);
        } else {
            lemma_scan_pos(min0, max0, split, i + 1, c);
        }
    }
}

/// For any data list and any interval count of at least one, the axis
/// engine yields exactly `split + 1` strictly increasing tick values that
/// bound every data value: the least tick is at most each value and the
/// greatest tick is at least each value.
pub proof fn lemma_axis_ticks(data: Seq<i64>, split: int)
    requires
        1 <= split,
    ensures
        spec_axis_step(data, split) >= 1,
        forall|i: int| 0 <= i < data.len() ==> spec_axis_min(data, split) <= #[trigger] data[i],
        forall|i: int| 0 <= i < data.len() ==> spec_axis_max(data, split) >= #[trigger] data[i],
        forall|i: int|
            0 <= i < split ==> spec_axis_min(data, split) + #[trigger] (i * spec_axis_step(
                data,
                split,
            )) < spec_axis_min(data, split) + (i + 1) * spec_axis_step(data, split),
{
    let min0 = spec_data_min(data);
    let max0 = spec_data_max(data);
    lemma_data_min_nonpos(data);
    lemma_data_max_nonneg(data);
    let step = spec_axis_step(data, split);
    let lo = spec_axis_min(data, split);
    match spec_scan(min0, max0, split, 0) {
        Some(c) => {
            lemma_scan_pos(min0, max0, split, 0, c);
            lemma_scan_covers(min0, max0, split, 0, c);
            assert((min0 / c) * c <= min0) by (nonlinear_arith)
                requires
                    c >= 1,
            ;
            assert(lo <= min0);
            assert(lo + split * c >= max0);
        },
        None => {
            // The very first candidate covers a zero-width range, so a
            // failed scan means the range is positive.
            assert(spec_nice(0) == 1);
            if max0 - min0 == 0 {
                assert(spec_floor_mul(min0, 1) == min0);
                assert(spec_cover(min0, max0, split, 1));
                assert(false);
            }
            let q = spec_ceil_div(max0 - min0, split);
            assert(q >= 1 && q * split >= max0 - min0) by (nonlinear_arith)
                requires
                    1 <= max0 - min0,
                    1 <= split,
                    q == (max0 - min0 + split - 1) / split,
            ;
            assert(lo == min0);
            assert(lo + split * q >= max0) by (nonlinear_arith)
                requires
                    q * split >= max0 - min0,
                    lo == min0,
            ;
        },
    }
    assert forall|i: int| 0 <= i < data.len() implies spec_axis_min(data, split) <= #[trigger] data[i] by {
        lemma_data_min_le(data, i);
    }
    assert forall|i: int| 0 <= i < data.len() implies spec_axis_max(data, split) >= #[trigger] data[i] by {
        lemma_data_max_ge(data, i);
    }
    assert forall|i: int|
        0 <= i < split implies lo + #[trigger] (i * step) < lo + (i + 1) * step by {
        assert((i + 1) * step == i * step + step) by (nonlinear_arith);
    }
}

/// The offset mapping sends the least tick to zero and the greatest tick
/// to the full pixel extent.
pub proof fn lemma_offset_ends(min: int, max: int, extent: int)
    requires
        min < max,
    ensures
        spec_offset(min, max, min, extent) == 0,
        spec_offset(min, max, max, extent) == extent,
{
    assert((max - min) * extent / (max - min) == extent) by (nonlinear_arith)
        requires
            0 < max - min,
    ;
}

/// With the axis floor at zero, rendered lengths preserve value ratios:
/// wherever both lengths are exact (their divisions leave no remainder),
/// the cross products of lengths and values agree, which is the
/// fraction equality length(v1) / length(v2) == v1 / v2.
pub proof fn lemma_length_ratio(max: int, v1: int, v2: int, extent: int)
    requires
        0 < max,
        (v1 * extent) % max == 0,
        (v2 * extent) % max == 0,
    ensures
        spec_offset(0, max, v1, extent) * v2 == spec_offset(0, max, v2, extent) * v1,
{
    let a = v1 * extent;
    let b = v2 * extent;
    assert((a / max) * max == a) by (nonlinear_arith)
        requires
            a % max == 0,
            0 < max,
    ;
    assert((b / max) * max == b) by (nonlinear_arith)
        requires
            b % max == 0,
            0 < max,
    ;
    assert((a / max) * v2 * max == (b / max) * v1 * max) by (nonlinear_arith)
        requires
            (a / max) * max == a,
            (b / max) * max == b,
            a == v1 * extent,
            b == v2 * extent,
    ;
    assert((a / max) * v2 == (b / max) * v1) by (nonlinear_arith)
        requires
            (a / max) * v2 * max == (b / max) * v1 * max,
            0 < max,
    ;
}

/// Whether the template holds the placeholder token `{c}` at `i`.
pub open spec fn spec_token_at(tpl: Seq<char>, i: int) -> bool {
    i + 3 <= tpl.len() && tpl[i] == '{' && tpl[i + 1] == 'c' && tpl[i + 2] == '}'
}

/// Whether the template holds the placeholder token anywhere from `i` on.
pub open spec fn spec_has_token_from(tpl: Seq<char>, i: int) -> bool
    decreases tpl.len() - i,
{
    if i >= tpl.len() {
        false
    } else if spec_token_at(tpl, i) {
        true
    } else {
        spec_has_token_from(tpl, i + 1)
    }
}

/// The template from `i` on with every placeholder token replaced by the
/// value text.
pub open spec fn spec_subst_from(tpl: Seq<char>, val: Seq<char>, i: int) -> Seq<char>
    decreases tpl.len() - i,
{
    if i >= tpl.len() {
        Seq::<char>::empty()
    } else if spec_token_at(tpl, i) {
        val + spec_subst_from(tpl, val, i + 3)
    } else {
        seq![tpl[i]] + spec_subst_from(tpl, val, i + 1)
    }
}

/// One tick label: the formatted tick substituted into the template when
/// the template holds the placeholder token, else the plain formatted
/// tick (a template without the token degrades to plain formatting).
pub open spec fn spec_axis_label(fmt: Option<Seq<char>>, tick: int) -> Seq<char> {
    let plain = spec_tenths_text(tick);
    match fmt {
        Some(f) => if spec_has_token_from(f, 0) {
            spec_subst_from(f, plain, 0)
        } else {
            plain
        },
        None => plain,
    }
}

/// Formats one tick label through the optional template.
fn format_axis_label(tick: i64, formatter: &Option<String>) -> (s: String)
    requires
        tick > i64::MIN,
        match *formatter {
            Some(f) => f@.len() <= 1_000_000,
            None => true,
        },
    ensures
        s@ == spec_axis_label(
            match *formatter {
                Some(f) => Some(f@),
                None => None,
            },
            tick as int,
        ),
{
    let plain = format_tenths(tick);
    let tpl = match formatter {
        Some(f) => f,
        None => {
            return plain;
        },
    };
    let n = tpl.as_str().unicode_len();
    assert(n <= 1_000_000);
    let mut out = String::new();
    let mut has = false;
    let mut i: usize = 0;
    while i < n
        invariant
            i <= n,
            n == tpl@.len(),
            n <= 1_000_000,
            plain@ == spec_tenths_text(tick as int),
            spec_subst_from(tpl@, plain@, 0) == out@ + spec_subst_from(tpl@, plain@, i as int),
            spec_has_token_from(tpl@, 0) == (has || spec_has_token_from(tpl@, i as int)),
        decreases n - i,
    {
        let token = i + 3 <= n && tpl.as_str().get_char(i) == '{' && tpl.as_str().get_char(i + 1)
            == 'c' && tpl.as_str().get_char(i + 2) == '}';
        if token {
            out.append(plain.as_str());
            has = true;
            i = i + 3;
        } else {
            let c = tpl.as_str().get_char(i);
            push_char(&mut out, c);
            i = i + 1;
        }
    }
    if has {
        out
    } else {
        plain
    }
}

/// Relies on `String::push`: appends exactly the one character to the end.
#[verifier::external_body]
fn push_char(s: &mut String, c: char)
    ensures
        final(s)@ == old(s)@ + seq![c],
{
    s.push(c);
}

/// Computed tick boundaries: the ordered tick labels, and the least and
/// greatest tick values (in tenths) they stand for.
pub struct AxisValues {
    pub data: Vec<String>,
    pub min: i64,
    pub max: i64,
}

/// The linear pixel offset of `v` within `min ..= max` over an extent.
pub open spec fn spec_offset(min: int, max: int, v: int, extent: int) -> int {
    (v - min) * extent / (max - min)
}

impl AxisValues {
    /// Whether the tick bounds lie in the engine's working range.
    pub open spec fn bounded(self) -> bool {
        -10_000_000_000_000 <= self.min && self.min < self.max && self.max
            <= 5_000_000_000_000_000_000
    }

    /// Maps a data value in `min ..= max` linearly onto `0 ..= extent`.
    pub fn offset(&self, value: i64, extent: i64) -> (r: i64)
        requires
            self.bounded(),
            self.min <= value <= self.max,
            0 <= extent <= MAX_COORD,
        ensures
            r == spec_offset(self.min as int, self.max as int, value as int, extent as int),
            0 <= r <= extent,
    {
        proof {
            assert((value - self.min) * extent <= 6_000_000_000_000_000_000 * 1_000_000_000)
                by (nonlinear_arith)
                requires
                    0 <= value - self.min <= 6_000_000_000_000_000_000,
                    0 <= extent <= 1_000_000_000,
            ;
        }
        let num = ((value - self.min) as u128) * (extent as u128);
        let den = (self.max - self.min) as u128;
        let q = num / den;
        proof {
            let vm = value - self.min;
            let d = self.max - self.min;
            assert(vm * extent <= d * extent) by (nonlinear_arith)
                requires
                    0 <= vm <= d,
                    0 <= extent,
            ;
            assert(d * extent / d == extent) by (nonlinear_arith)
                requires
                    0 < d,
            ;
            assert(vm * extent / d <= d * extent / d) by (nonlinear_arith)
                requires
                    vm * extent <= d * extent,
                    0 < d,
            ;
            assert(vm * extent / d >= 0) by (nonlinear_arith)
                requires
                    vm * extent >= 0,
                    0 < d,
            ;
        }
        q as i64
    }
}

/// `v` rounded down to a multiple of `step`.
fn floor_mul(v: i64, step: i64) -> (r: i64)
    requires
        -MAX_VALUE <= v <= MAX_VALUE,
        1 <= step <= 5_000_000_000_000,
    ensures
        r == spec_floor_mul(v as int, step as int),
        v - step < r <= v,
{
    if v >= 0 {
        let q = (v as u64) / (step as u64);
        proof {
            let vi = v as int;
            let si = step as int;
            assert((vi / si) * si <= vi && vi - si < (vi / si) * si) by (nonlinear_arith)
                requires
                    0 <= vi,
                    1 <= si,
            ;
        }
        let m = q * (step as u64);
        m as i64
    } else {
        let av = (-v) as u64;
        let q = (av + (step as u64) - 1) / (step as u64);
        proof {
            let ai = av as int;
            let si = step as int;
            assert(((ai + si - 1) / si) * si < ai + si && ((ai + si - 1) / si) * si >= ai)
                by (nonlinear_arith)
                requires
                    0 <= ai,
                    1 <= si,
            ;
            assert(((-ai) / si) * si == -((((ai + si - 1) / si) * si))) by (nonlinear_arith)
                requires
                    0 < ai,
                    1 <= si,
            ;
        }
        let m = q * (step as u64);
        -(m as i64)
    }
}

/// Whether `split` intervals of `step` from the floor-aligned origin span
/// the data range.
fn cover(min0: i64, max0: i64, split: i64, step: i64) -> (b: bool)
    requires
        -MAX_VALUE <= min0 <= 0,
        0 <= max0 <= MAX_VALUE,
        1 <= split <= 1_000_000,
        1 <= step <= 5_000_000_000_000,
    ensures
        b == spec_cover(min0 as int, max0 as int, split as int, step as int),
{
    let m = floor_mul(min0, step);
    proof {
        assert(1 <= split * step <= 5_000_000_000_000_000_000) by (nonlinear_arith)
            requires
                1 <= split <= 1_000_000,
                1 <= step <= 5_000_000_000_000,
        ;
    }
    m + split * step >= max0
}

/// Computes the tick boundaries, spacing and labels for a data list.
pub fn get_axis_values(
    data_list: &Vec<i64>,
    split_number: usize,
    formatter: &Option<String>,
) -> (av: AxisValues)
    requires
        split_number <= SPLIT_MAX,
        forall|i: int|
            0 <= i < data_list@.len() ==> -MAX_VALUE <= #[trigger] data_list@[i] <= MAX_VALUE,
        match *formatter {
            Some(f) => f@.len() <= 1_000_000,
            None => true,
        },
    ensures
        ({
            let split = spec_axis_split(split_number as int);
            let step = spec_axis_step(data_list@, split);
            let lo = spec_axis_min(data_list@, split);
            &&& av.min == lo
            &&& av.max == spec_axis_max(data_list@, split)
            &&& av.bounded()
            &&& av.data@.len() == split + 1
            &&& forall|i: int|
                0 <= i < av.data@.len() ==> (#[trigger] av.data@[i])@ == spec_axis_label(
                    match *formatter {
                        Some(f) => Some(f@),
                        None => None,
                    },
                    lo + i * step,
                )
        }),
{
    let split: i64 = if split_number == 0 {
        6
    } else {
        split_number as i64
    };
    let ghost split_g = spec_axis_split(split_number as int);
    assert(split == split_g);

    // Fold the data range, starting from zero on both sides.
    let n = data_list.len();
    let mut min0: i64 = 0;
    let mut max0: i64 = 0;
    let mut j: usize = 0;
    while j < n
        invariant
            j <= n,
            n == data_list@.len(),
            forall|i: int|
                0 <= i < data_list@.len() ==> -MAX_VALUE <= #[trigger] data_list@[i] <= MAX_VALUE,
            min0 == spec_data_min(data_list@.take(j as int)),
            max0 == spec_data_max(data_list@.take(j as int)),
            -MAX_VALUE <= min0 <= 0 <= max0 <= MAX_VALUE,
        decreases n - j,
    {
        proof {
            assert(data_list@.take(j + 1 as int).drop_last() =~= data_list@.take(j as int));
            assert(data_list@.take(j + 1 as int).last() == data_list@[j as int]);
        }
        let v = data_list[j];
        if v < min0 {
            min0 = v;
        }
        if v > max0 {
            max0 = v;
        }
        j = j + 1;
    }
    proof {
        assert(data_list@.take(n as int) =~= data_list@);
    }

    // Scan the nice candidates for the smallest covering step.
    let mut idx: usize = 0;
    let mut p: i64 = 1;
    let mut step: i64 = 0;
    let mut found = false;
    while idx <= NICE_IDX_MAX && !found
        invariant
            idx <= NICE_IDX_MAX + 1,
            -MAX_VALUE <= min0 <= 0 <= max0 <= MAX_VALUE,
            p == spec_pow10(idx as int / 3),
            !found ==> spec_scan(min0 as int, max0 as int, split as int, 0) == spec_scan(
                min0 as int,
                max0 as int,
                split as int,
                idx as int,
            ),
            found ==> spec_scan(min0 as int, max0 as int, split as int, 0) == Some(step as int),
            found ==> 1 <= step <= 5_000_000_000_000,
            1 <= split <= 1_000_000,
        decreases NICE_IDX_MAX + 1 - idx, (if found { 0int } else { 1int }),
    {
        proof {
            lemma_pow10_bound(idx as int / 3);
        }
        let mult: i64 = match idx % 3 {
            0 => 1,
            1 => 2,
            _ => 5,
        };
        let cand = mult * p;
        assert(cand == spec_nice(idx as int));
        if cover(min0, max0, split, cand) {
            step = cand;
            found = true;
        } else {
            if idx % 3 == 2 {
                p = p * 10;
            }
            idx = idx + 1;
        }
    }

    let lo: i64;
    if found {
        lo = floor_mul(min0, step);
    } else {
        // No nice step covers: split the exact range instead.
        let range = max0 - min0;
        step = (((range as u64) + (split as u64) - 1) / (split as u64)) as i64;
        lo = min0;
        proof {
            assert(step == spec_ceil_div(range as int, split as int));
            let q = spec_ceil_div(range as int, split as int);
            // The very first candidate covers a zero-width range, so a
            // failed scan means the range is positive.
            assert(spec_nice(0) == 1);
            if range == 0 {
                assert(spec_floor_mul(min0 as int, 1) == min0);
                assert(spec_cover(min0 as int, max0 as int, split as int, 1));
            }
            assert(range >= 1);
            assert(1 <= q <= range) by (nonlinear_arith)
                requires
                    1 <= range,
                    1 <= split <= 1_000_000,
                    q == (range + split - 1) / (split as int),
            ;
        }
    }
    proof {
        assert(1 <= split * step <= 5_000_000_000_000_000_000) by (nonlinear_arith)
            requires
                1 <= split <= 1_000_000,
                1 <= step <= 5_000_000_000_000,
        ;
    }
    let hi = lo + split * step;

    // Emit one label per tick, through the optional template.
    let mut labels: Vec<String> = Vec::new();
    let mut i: i64 = 0;
    while i <= split
        invariant
            0 <= i <= split + 1,
            1 <= split <= 1_000_000,
            1 <= step <= 5_000_000_000_000,
            -6_000_000_000_000 <= lo <= 0,
            labels@.len() == i,
            match *formatter {
                Some(f) => f@.len() <= 1_000_000,
                None => true,
            },
            forall|k: int|
                0 <= k < labels@.len() ==> (#[trigger] labels@[k])@ == spec_axis_label(
                    match *formatter {
                        Some(f) => Some(f@),
                        None => None,
                    },
                    lo + k * step,
                ),
        decreases split + 1 - i,
    {
        proof {
            assert(0 <= i * step <= 5_000_000_000_000_000_000) by (nonlinear_arith)
                requires
                    0 <= i <= 1_000_000,
                    1 <= step <= 5_000_000_000_000,
            ;
        }
        let tick = lo + i * step;
        let label = format_axis_label(tick, formatter);
        labels.push(label);
        i = i + 1;
    }

    AxisValues { data: labels, min: lo, max: hi }
}

} // verus!
