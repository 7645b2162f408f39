//! Capability probing: flattening of hardware-reported frame-interval ranges
//! into concrete samples, assembly of sizes and formats from probe data, and
//! the legacy-camera constraint.
use vstd::prelude::*;

use crate::video_types::FrameInterval;

verus! {

/// A hardware-reported rational number.
#[derive(Clone, Copy, Debug, PartialEq, Eq, Structural)]
pub struct Fraction {
    pub numerator: u32,
    pub denominator: u32,
}

/// A hardware-reported stepwise frame-interval range.
#[derive(Clone, Copy, Debug, PartialEq, Eq, Structural)]
pub struct StepwiseInterval {
    pub min: Fraction,
    pub max: Fraction,
    pub step: Fraction,
}

/// One hardware-reported frame interval: a concrete fraction, or a stepwise
/// range that needs discretization before enumeration.
#[derive(Clone, Copy, Debug, PartialEq, Eq, Structural)]
pub enum ReportedInterval {
    Discrete(Fraction),
    Stepwise(StepwiseInterval),
}

/// The sampling step actually used: no smaller than 5 units, to avoid an
/// unbounded number of samples.
pub open spec fn spec_effective_step(step: u32) -> u32 {
    if step > 5 {
        step
    } else {
        5
    }
}

/// Whether `x` is one of the sampled values of a range axis: a multiple of
/// the effective step no greater than `limit`, or the range maximum itself.
pub open spec fn spec_sampled_value(limit: u32, step: u32, maximum: u32, x: u32) -> bool {
    ||| (x % spec_effective_step(step) == 0 && x <= limit)
    ||| x == maximum
}

/// A sampled value of zero is clamped to one.
pub open spec fn spec_clamp_one(x: u32) -> u32 {
    if x == 0 {
        1
    } else {
        x
    }
}

/// The concrete interval built from one sampled numerator and denominator.
pub open spec fn spec_pair(n: u32, d: u32) -> FrameInterval {
    FrameInterval { numerator: spec_clamp_one(n), denominator: spec_clamp_one(d) }
}

/// Whether one reported interval generates the concrete interval `fi`: a
/// discrete report passes through unchanged; a stepwise report generates
/// every pair of sampled numerator and denominator, zeros clamped to one.
pub open spec fn spec_item_generates(item: ReportedInterval, fi: FrameInterval) -> bool {
    match item {
        ReportedInterval::Discrete(f) => fi.numerator == f.numerator && fi.denominator
            == f.denominator,
        ReportedInterval::Stepwise(sw) => exists|n: u32, d: u32|
            {
                &&& spec_sampled_value(sw.min.numerator, sw.step.numerator, sw.max.numerator, n)
                &&& spec_sampled_value(
                    sw.min.denominator,
                    sw.step.denominator,
                    sw.max.denominator,
                    d,
                )
                &&& fi == spec_pair(n, d)
            },
    }
}

/// Whether any of the reported intervals generates `fi`.
pub open spec fn spec_generated(items: Seq<ReportedInterval>, fi: FrameInterval) -> bool {
    exists|t: int| 0 <= t < items.len() && spec_item_generates(items[t], fi)
}

/// Strict lexicographic order on (numerator, denominator).
pub open spec fn spec_interval_lt(a: FrameInterval, b: FrameInterval) -> bool {
    ||| a.numerator < b.numerator
    ||| (a.numerator == b.numerator && a.denominator < b.denominator)
}

/// Strictly descending in the lexicographic interval order.
pub open spec fn spec_strictly_descending(s: Seq<FrameInterval>) -> bool {
    forall|i: int, j: int|
        0 <= i < j < s.len() ==> spec_interval_lt(#[trigger] s[j], #[trigger] s[i])
}

fn interval_lt(a: FrameInterval, b: FrameInterval) -> (r: bool)
    ensures
        r == spec_interval_lt(a, b),
{
    a.numerator < b.numerator || (a.numerator == b.numerator && a.denominator < b.denominator)
}

/// Inserts an interval into a strictly descending list, keeping it strictly
/// descending; an interval already present is not inserted again.
fn insert_interval_sorted(out: &mut Vec<FrameInterval>, fi: FrameInterval)
    requires
        spec_strictly_descending(old(out)@),
    ensures
        spec_strictly_descending(final(out)@),
        forall|x: FrameInterval| final(out)@.contains(x) <==> (old(out)@.contains(x) || x == fi),
{
    let n = out.len();
    let mut i: usize = 0;
    while i < n && interval_lt(fi, out[i])
        invariant
            n == out@.len(),
            i <= n,
            *out == *old(out),
            spec_strictly_descending(out@),
            forall|k: int| 0 <= k < i ==> spec_interval_lt(fi, #[trigger] out@[k]),
        decreases n - i,
    {
        i += 1;
    }
    if i < out.len() && out[i] == fi {
        return;
    }
    proof {
        assert(forall|k: int| i <= k < out@.len() ==> spec_interval_lt(#[trigger] out@[k], fi));
    }
    out.insert(i, fi);
    proof {
        lemma_insert_contains(old(out)@, out@, i as int, fi);
    }
}

proof fn lemma_insert_contains(
    before: Seq<FrameInterval>,
    after: Seq<FrameInterval>,
    i: int,
    fi: FrameInterval,
)
    requires
        0 <= i <= before.len(),
        after == before.insert(i, fi),
    ensures
        forall|x: FrameInterval| after.contains(x) <==> (before.contains(x) || x == fi),
{
    assert(after[i] == fi);
    assert forall|x: FrameInterval| after.contains(x) implies (before.contains(x) || x == fi) by {
        let idx = choose|idx: int| 0 <= idx < after.len() && after[idx] == x;
        if idx < i {
            assert(before[idx] == x);
        } else if idx > i {
            assert(before[idx - 1] == x);
        }
    }
    assert forall|x: FrameInterval| before.contains(x) implies after.contains(x) by {
        let idx = choose|idx: int| 0 <= idx < before.len() && before[idx] == x;
        if idx < i {
            assert(after[idx] == x);
        } else {
            assert(after[idx + 1] == x);
        }
    }
}

/// Collects the sampled values of one stepwise axis: the multiples of the
/// effective step up to `limit`, then the range maximum.
fn sample_axis(limit: u32, step: u32, maximum: u32) -> (r: Vec<u32>)
    ensures
        forall|x: u32| r@.contains(x) <==> spec_sampled_value(limit, step, maximum, x),
{
    let effective: u32 = if step > 5 {
        step
    } else {
        5
    };
    let mut r: Vec<u32> = Vec::new();
    let mut x: u64 = 0;
    while x <= limit as u64
        invariant
            effective == spec_effective_step(step),
            x % effective as u64 == 0,
            x <= limit as u64 + effective as u64,
            effective >= 5,
            forall|y: u32| r@.contains(y) <==> (y % effective == 0 && y <= limit && (y as u64) < x),
        decreases limit as u64 + effective as u64 - x,
    {
        let ghost r_prev = r@;
        r.push(x as u32);
        proof {
            assert(r@.drop_last() =~= r_prev);
            lemma_sample_axis_step(r@, x, effective, limit);
            assert((x as int + effective as int) % (effective as int) == 0) by (nonlinear_arith)
                requires
                    (x as int) % (effective as int) == 0,
                    effective as int >= 5,
            ;
        }
        x = x + effective as u64;
    }
    let ghost r_before = r@;
    r.push(maximum);
    proof {
        assert forall|y: u32|
            r@.contains(y) implies spec_sampled_value(limit, step, maximum, y) by {
            if y != maximum {
                assert(r_before.contains(y));
            }
        }
        assert forall|y: u32|
            spec_sampled_value(limit, step, maximum, y) implies r@.contains(y) by {
            if y == maximum {
                assert(r@.last() == y);
            } else {
                assert((y as u64) < x);
                assert(r_before.contains(y));
                assert(r@.drop_last() =~= r_before);
            }
        }
    }
    r
}

proof fn lemma_sample_axis_step(r: Seq<u32>, x: u64, effective: u32, limit: u32)
    requires
        r.len() > 0,
        r.last() == x as u32,
        x % effective as u64 == 0,
        x <= limit as u64,
        effective >= 5,
        forall|y: u32| r.drop_last().contains(y) <==> (y % effective == 0 && y <= limit && (
        y as u64) < x),
    ensures
        forall|y: u32| r.contains(y) <==> (y % effective == 0 && y <= limit && (y as u64) < x
            + effective as u64),
{
    assert forall|y: u32|
        r.contains(y) implies (y % effective == 0 && y <= limit && (y as u64) < x
        + effective as u64) by {
        if y != x as u32 {
            let idx = choose|idx: int| 0 <= idx < r.len() && r[idx] == y;
            assert(idx < r.len() - 1);
            assert(r.drop_last()[idx] == y);
            assert(r.drop_last().contains(y));
        }
    }
    assert forall|y: u32|
        (y % effective == 0 && y <= limit && (y as u64) < x + effective as u64) implies r.contains(
        y,
    ) by {
        if (y as u64) < x {
            assert(r.drop_last().contains(y));
            let idx = choose|idx: int| 0 <= idx < r.drop_last().len() && r.drop_last()[idx] == y;
            assert(r[idx] == y);
        } else {
            assert(y as u64 == x) by (nonlinear_arith)
                requires
                    y % effective == 0,
                    x % effective as u64 == 0,
                    x <= y as u64,
                    (y as u64) < x + effective as u64,
                    effective >= 5,
            ;
            assert(r.last() == y);
        }
    }
}

/// Inserts the clamped pairs of one sampled numerator with every sampled
/// denominator.
fn insert_row(out: &mut Vec<FrameInterval>, nv: u32, denominators: &Vec<u32>)
    requires
        spec_strictly_descending(old(out)@),
    ensures
        spec_strictly_descending(final(out)@),
        forall|fi: FrameInterval| final(out)@.contains(fi) <==> (old(out)@.contains(fi) || exists|
            di: int,
        | 0 <= di < denominators@.len() && fi == spec_pair(nv, denominators@[di])),
{
    let nd = denominators.len();
    let mut b: usize = 0;
    while b < nd
        invariant
            nd == denominators@.len(),
            b <= nd,
            spec_strictly_descending(out@),
            forall|fi: FrameInterval| out@.contains(fi) <==> (old(out)@.contains(fi) || exists|
                di: int,
            | 0 <= di < b && fi == spec_pair(nv, denominators@[di])),
        decreases nd - b,
    {
        let dv = denominators[b];
        let fi = FrameInterval {
            numerator: if nv == 0 {
                1
            } else {
                nv
            },
            denominator: if dv == 0 {
                1
            } else {
                dv
            },
        };
        insert_interval_sorted(out, fi);
        proof {
            assert(fi == spec_pair(nv, denominators@[b as int]));
        }
        b += 1;
    }
}

/// Inserts the clamped pairs of every sampled numerator with every sampled
/// denominator.
fn insert_cross(out: &mut Vec<FrameInterval>, numerators: &Vec<u32>, denominators: &Vec<u32>)
    requires
        spec_strictly_descending(old(out)@),
    ensures
        spec_strictly_descending(final(out)@),
        forall|fi: FrameInterval| final(out)@.contains(fi) <==> (old(out)@.contains(fi) || exists|
            ai: int,
            di: int,
        |
            0 <= ai < numerators@.len() && 0 <= di < denominators@.len() && fi == spec_pair(
                numerators@[ai],
                denominators@[di],
            )),
{
    let nn = numerators.len();
    let mut a: usize = 0;
    while a < nn
        invariant
            nn == numerators@.len(),
            a <= nn,
            spec_strictly_descending(out@),
            forall|fi: FrameInterval| out@.contains(fi) <==> (old(out)@.contains(fi) || exists|
                ai: int,
                di: int,
            |
                0 <= ai < a && 0 <= di < denominators@.len() && fi == spec_pair(
                    numerators@[ai],
                    denominators@[di],
                )),
        decreases nn - a,
    {
        insert_row(out, numerators[a], denominators);
        a += 1;
    }
}

/// Flattens hardware-reported frame intervals into a deduplicated list of
/// concrete intervals, ordered with the fastest frame rate first (descending
/// in the lexicographic (numerator, denominator) order). Discrete reports
/// pass through; stepwise ranges are sampled on a bounded grid with a step of
/// at least 5 units, the range maximum included, and any sampled zero clamped
/// to one.
pub fn convert_v4l_intervals(v4l_intervals: &Vec<ReportedInterval>) -> (r: Vec<FrameInterval>)
    ensures
        spec_strictly_descending(r@),
        forall|fi: FrameInterval| r@.contains(fi) <==> spec_generated(v4l_intervals@, fi),
{
    let mut out: Vec<FrameInterval> = Vec::new();
    let n = v4l_intervals.len();
    let mut t: usize = 0;
    while t < n
        invariant
            n == v4l_intervals@.len(),
            t <= n,
            spec_strictly_descending(out@),
            forall|fi: FrameInterval| out@.contains(fi) <==> exists|u: int|
                0 <= u < t && spec_item_generates(#[trigger] v4l_intervals@[u], fi),
        decreases n - t,
    {
        let ghost out_before = out@;
        match &v4l_intervals[t] {
            ReportedInterval::Discrete(f) => {
                let fi = FrameInterval { numerator: f.numerator, denominator: f.denominator };
                insert_interval_sorted(&mut out, fi);
                proof {
                    assert(spec_item_generates(v4l_intervals@[t as int], fi));
                }
            },
            ReportedInterval::Stepwise(sw) => {
                let numerators = sample_axis(sw.min.numerator, sw.step.numerator, sw.max.numerator);
                let denominators = sample_axis(
                    sw.min.denominator,
                    sw.step.denominator,
                    sw.max.denominator,
                );
                insert_cross(&mut out, &numerators, &denominators);
                proof {
                    lemma_cross_is_item(
                        out_before,
                        out@,
                        numerators@,
                        denominators@,
                        *sw,
                        v4l_intervals@[t as int],
                    );
                }
            },
        }
        t += 1;
    }
    out
}

proof fn lemma_cross_is_item(
    before: Seq<FrameInterval>,
    after: Seq<FrameInterval>,
    numerators: Seq<u32>,
    denominators: Seq<u32>,
    sw: StepwiseInterval,
    item: ReportedInterval,
)
    requires
        item == ReportedInterval::Stepwise(sw),
        forall|x: u32| numerators.contains(x) <==> spec_sampled_value(
            sw.min.numerator,
            sw.step.numerator,
            sw.max.numerator,
            x,
        ),
        forall|x: u32| denominators.contains(x) <==> spec_sampled_value(
            sw.min.denominator,
            sw.step.denominator,
            sw.max.denominator,
            x,
        ),
        forall|fi: FrameInterval| after.contains(fi) <==> (before.contains(fi) || exists|
            ai: int,
            di: int,
        |
            0 <= ai < numerators.len() && 0 <= di < denominators.len() && fi == spec_pair(
                numerators[ai],
                denominators[di],
            )),
    ensures
        forall|fi: FrameInterval| after.contains(fi) <==> (before.contains(fi)
            || spec_item_generates(item, fi)),
{
    assert forall|fi: FrameInterval|
        after.contains(fi) implies (before.contains(fi) || spec_item_generates(item, fi)) by {
        if !before.contains(fi) {
            let (ai, di) = choose|ai: int, di: int|
                0 <= ai < numerators.len() && 0 <= di < denominators.len() && fi == spec_pair(
                    numerators[ai],
                    denominators[di],
                );
            assert(numerators.contains(numerators[ai]));
            assert(denominators.contains(denominators[di]));
        }
    }
    assert forall|fi: FrameInterval|
        spec_item_generates(item, fi) implies after.contains(fi) by {
        let (nx, dx) = choose|nx: u32, dx: u32|
            spec_sampled_value(sw.min.numerator, sw.step.numerator, sw.max.numerator, nx)
                && spec_sampled_value(
                sw.min.denominator,
                sw.step.denominator,
                sw.max.denominator,
                dx,
            ) && fi == spec_pair(nx, dx);
        assert(numerators.contains(nx));
        assert(denominators.contains(dx));
        let ai = choose|ai: int| 0 <= ai < numerators.len() && numerators[ai] == nx;
        let di = choose|di: int| 0 <= di < denominators.len() && denominators[di] == dx;
        assert(fi == spec_pair(numerators[ai], denominators[di]));
    }
}

/// Over intervals that share one numerator, the lexicographic descending
/// order is exactly descending frame rate: each entry's rate (denominator
/// over numerator) is strictly greater than every later one, stated by
/// cross-multiplication. With differing numerators the lexicographic order
/// does not track the rate.
pub proof fn lemma_equal_numerators_means_descending_rate(s: Seq<FrameInterval>)
    requires
        spec_strictly_descending(s),
        forall|i: int| 0 <= i < s.len() ==> #[trigger] s[i].numerator == s[0].numerator,
        s.len() > 0 ==> s[0].numerator >= 1,
    ensures
        forall|i: int, j: int| 0 <= i < j < s.len() ==> (#[trigger] s[i]).denominator as int * (
        (#[trigger] s[j]).numerator as int) > (s[j].denominator as int) * (s[i].numerator as int),
{
    assert forall|i: int, j: int|
        0 <= i < j < s.len() implies (#[trigger] s[i]).denominator as int * (
        (#[trigger] s[j]).numerator as int) > (s[j].denominator as int) * (s[i].numerator as int) by {
        assert(spec_interval_lt(s[j], s[i]));
        assert(s[i].numerator == s[0].numerator && s[j].numerator == s[0].numerator);
        assert((s[i].denominator as int) * (s[j].numerator as int) > (s[j].denominator as int) * (
        s[i].numerator as int)) by (nonlinear_arith)
            requires
                s[i].denominator > s[j].denominator,
                s[i].numerator == s[j].numerator,
                s[i].numerator >= 1,
        ;
    }
}

} // verus!

use crate::video_types::{EncodeModel, Format, FormatModel, Size, SizeModel, VideoEncodeType};
use crate::video_source_local::VideoSourceLocalType;

verus! {

/// The outcome of probing the frame intervals of one size: what the hardware
/// reported, or the failure it answered with.
#[derive(Clone, Debug, PartialEq)]
pub enum IntervalProbe {
    Reported(Vec<ReportedInterval>),
    Failed(String),
}

/// One probed frame size and the interval query made at it.
#[derive(Clone, Debug, PartialEq)]
pub struct SizeProbe {
    pub width: u32,
    pub height: u32,
    pub outcome: IntervalProbe,
}

/// One hardware-reported pixel format and the sizes probed for it.
#[derive(Clone, Debug, PartialEq)]
pub struct FormatProbe {
    pub fourcc: String,
    pub size_probes: Vec<SizeProbe>,
}

/// The fixed list of common resolutions sampled when the hardware reports a
/// stepwise size range instead of discrete sizes.
pub open spec fn spec_standard_sizes() -> Seq<(u32, u32)> {
    seq![
        (320u32, 240u32),
        (640u32, 480u32),
        (800u32, 600u32),
        (1024u32, 768u32),
        (1280u32, 720u32),
        (1280u32, 800u32),
        (1440u32, 900u32),
        (1600u32, 1200u32),
        (1920u32, 1080u32),
        (2560u32, 1440u32),
        (3840u32, 2160u32),
    ]
}

/// The sizes to probe for a stepwise size range: the fixed list of common
/// resolutions, then the range's maximum size.
pub fn sizes_to_probe(max_width: u32, max_height: u32) -> (r: Vec<(u32, u32)>)
    ensures
        r@ == spec_standard_sizes().push((max_width, max_height)),
{
    let mut r: Vec<(u32, u32)> = vec![
        (320, 240),
        (640, 480),
        (800, 600),
        (1024, 768),
        (1280, 720),
        (1280, 800),
        (1440, 900),
        (1600, 1200),
        (1920, 1080),
        (2560, 1440),
        (3840, 2160),
    ];
    r.push((max_width, max_height));
    proof {
        assert(r@ =~= spec_standard_sizes().push((max_width, max_height)));
    }
    r
}

/// Strict order on sizes: lexicographic on (width, height).
pub open spec fn spec_size_key_lt(a: SizeModel, b: SizeModel) -> bool {
    ||| a.width < b.width
    ||| (a.width == b.width && a.height < b.height)
}

/// Sorted descending by the (width, height) key, largest first.
pub open spec fn spec_sizes_sorted_desc(s: Seq<Size>) -> bool {
    forall|i: int, j: int|
        0 <= i < j < s.len() ==> !spec_size_key_lt((#[trigger] s[i])@, (#[trigger] s[j])@)
}

/// No two entries are structurally equal.
pub open spec fn spec_sizes_distinct(s: Seq<Size>) -> bool {
    forall|i: int, j: int| 0 <= i < j < s.len() ==> (#[trigger] s[i])@ != (#[trigger] s[j])@
}

/// Whether some entry has the given view.
pub open spec fn spec_contains_size(s: Seq<Size>, m: SizeModel) -> bool {
    exists|k: int| 0 <= k < s.len() && (#[trigger] s[k])@ == m
}

fn size_key_lt(a: &Size, b: &Size) -> (r: bool)
    ensures
        r == spec_size_key_lt(a@, b@),
{
    a.width < b.width || (a.width == b.width && a.height < b.height)
}

/// Inserts a size into a list kept descending by (width, height) and free of
/// structural duplicates; a size already present is not inserted again.
fn insert_size_sorted(out: &mut Vec<Size>, sz: Size)
    requires
        spec_sizes_sorted_desc(old(out)@),
        spec_sizes_distinct(old(out)@),
    ensures
        spec_sizes_sorted_desc(final(out)@),
        spec_sizes_distinct(final(out)@),
        forall|m: SizeModel| spec_contains_size(final(out)@, m) <==> (spec_contains_size(
            old(out)@,
            m,
        ) || m == sz@),
{
    let n = out.len();
    let mut i: usize = 0;
    while i < n && size_key_lt(&sz, &out[i])
        invariant
            n == out@.len(),
            i <= n,
            *out == *old(out),
            forall|k: int| 0 <= k < i ==> spec_size_key_lt(sz@, (#[trigger] out@[k])@),
        decreases n - i,
    {
        i += 1;
    }
    while i < n && !size_key_lt(&out[i], &sz)
        invariant
            n == out@.len(),
            i <= n,
            *out == *old(out),
            spec_sizes_sorted_desc(out@),
            spec_sizes_distinct(out@),
            forall|k: int| 0 <= k < i ==> !spec_size_key_lt((#[trigger] out@[k])@, sz@),
            forall|k: int| 0 <= k < i ==> (#[trigger] out@[k])@ != sz@,
        decreases n - i,
    {
        if crate::video_types::size_eq(&out[i], &sz) {
            return;
        }
        i += 1;
    }
    proof {
        assert forall|k: int| i <= k < out@.len() implies spec_size_key_lt((#[trigger] out@[k])@, sz@) by {
            if k > i {
                assert(!spec_size_key_lt(out@[i as int]@, out@[k]@));
            }
        }
    }
    let ghost before = out@;
    out.insert(i, sz);
    proof {
        assert(out@[i as int]@ == sz@);
        assert forall|m: SizeModel|
            spec_contains_size(out@, m) implies (spec_contains_size(before, m) || m == sz@) by {
            let idx = choose|idx: int| 0 <= idx < out@.len() && out@[idx]@ == m;
            if idx < i {
                assert(before[idx]@ == m);
            } else if idx > i {
                assert(before[idx - 1]@ == m);
            }
        }
        assert forall|m: SizeModel|
            spec_contains_size(before, m) implies spec_contains_size(out@, m) by {
            let idx = choose|idx: int| 0 <= idx < before.len() && before[idx]@ == m;
            if idx < i {
                assert(out@[idx]@ == m);
            } else {
                assert(out@[idx + 1]@ == m);
            }
        }
        assert forall|a: int, b: int|
            0 <= a < b < out@.len() implies !spec_size_key_lt(out@[a]@, out@[b]@) by {
            if a == i {
                assert(before[b - 1]@ == out@[b]@);
            } else if b == i {
                assert(before[a]@ == out@[a]@);
            } else if a < i && b > i {
                assert(before[a]@ == out@[a]@ && before[b - 1]@ == out@[b]@);
            } else if b < i {
                assert(before[a]@ == out@[a]@ && before[b]@ == out@[b]@);
            } else {
                assert(before[a - 1]@ == out@[a]@ && before[b - 1]@ == out@[b]@);
            }
        }
        assert forall|a: int, b: int|
            0 <= a < b < out@.len() implies out@[a]@ != out@[b]@ by {
            if a == i {
                assert(before[b - 1]@ == out@[b]@);
                if out@[a]@ == out@[b]@ {
                    assert(spec_size_key_lt(before[b - 1]@, sz@));
                }
            } else if b == i {
                assert(before[a]@ == out@[a]@);
                if out@[a]@ == out@[b]@ {
                    assert(!spec_size_key_lt(sz@, before[a]@) && !spec_size_key_lt(
                        before[a]@,
                        sz@,
                    ));
                }
            } else if a < i && b > i {
                assert(before[a]@ == out@[a]@ && before[b - 1]@ == out@[b]@);
            } else if b < i {
                assert(before[a]@ == out@[a]@ && before[b]@ == out@[b]@);
            } else {
                assert(before[a - 1]@ == out@[a]@ && before[b - 1]@ == out@[b]@);
            }
        }
    }
}

/// Whether a size's view is what one probe yields: the probed width and
/// height, with the flattened intervals of a successful interval query.
pub open spec fn spec_size_from_probe(m: SizeModel, p: SizeProbe) -> bool {
    &&& p.outcome matches IntervalProbe::Reported(items)
    &&& m.width == p.width
    &&& m.height == p.height
    &&& spec_strictly_descending(m.intervals)
    &&& forall|fi: FrameInterval| m.intervals.contains(fi) <==> spec_generated(items@, fi)
}

/// How many interval queries failed.
pub open spec fn spec_failed_count(ps: Seq<SizeProbe>) -> int
    decreases ps.len(),
{
    if ps.len() == 0 {
        0
    } else {
        spec_failed_count(ps.drop_last()) + (if ps.last().outcome is Failed {
            1int
        } else {
            0int
        })
    }
}

} // verus!

verus! {

/// The views of a size list.
pub open spec fn spec_size_views(s: Seq<Size>) -> Seq<SizeModel> {
    s.map_values(|x: Size| x@)
}

/// Sorted descending by (width, height) and free of duplicates, at the level
/// of views.
pub open spec fn spec_size_models_normal(s: Seq<SizeModel>) -> bool {
    &&& forall|i: int, j: int| 0 <= i < j < s.len() ==> !spec_size_key_lt(#[trigger] s[i], #[trigger] s[j])
    &&& forall|i: int, j: int| 0 <= i < j < s.len() ==> #[trigger] s[i] != #[trigger] s[j]
}

/// What assembling sizes from probe outcomes yields: a normalized list whose
/// members are exactly the sizes the successful probes describe.
pub open spec fn spec_sizes_built(sizes: Seq<SizeModel>, probes: Seq<SizeProbe>) -> bool {
    &&& spec_size_models_normal(sizes)
    &&& forall|m: SizeModel| sizes.contains(m) <==> exists|t: int|
        0 <= t < probes.len() && spec_size_from_probe(m, #[trigger] probes[t])
}

/// Two strictly descending interval lists with the same members are the same
/// list: the flattened interval list is a canonical form.
proof fn lemma_descending_unique(a: Seq<FrameInterval>, b: Seq<FrameInterval>)
    requires
        spec_strictly_descending(a),
        spec_strictly_descending(b),
        forall|x: FrameInterval| a.contains(x) <==> b.contains(x),
    ensures
        a == b,
    decreases a.len(),
{
    if a.len() == 0 {
        if b.len() > 0 {
            assert(b.contains(b[0]));
        }
        assert(a =~= b);
    } else {
        assert(a.contains(a[0]));
        assert(b.contains(a[0]));
        assert(b.len() > 0);
        let k = choose|k: int| 0 <= k < b.len() && b[k] == a[0];
        assert(b.contains(b[0]));
        let k2 = choose|k2: int| 0 <= k2 < a.len() && a[k2] == b[0];
        if k > 0 {
            assert(spec_interval_lt(b[k], b[0]));
        }
        if k2 > 0 {
            assert(spec_interval_lt(a[k2], a[0]));
        }
        assert(a[0] == b[0]);
        let at = a.drop_first();
        let bt = b.drop_first();
        assert forall|i: int, j: int|
            0 <= i < j < at.len() implies spec_interval_lt(#[trigger] at[j], #[trigger] at[i]) by {
            assert(at[i] == a[i + 1] && at[j] == a[j + 1]);
        }
        assert forall|i: int, j: int|
            0 <= i < j < bt.len() implies spec_interval_lt(#[trigger] bt[j], #[trigger] bt[i]) by {
            assert(bt[i] == b[i + 1] && bt[j] == b[j + 1]);
        }
        assert forall|x: FrameInterval| at.contains(x) implies bt.contains(x) by {
            let idx = choose|idx: int| 0 <= idx < at.len() && at[idx] == x;
            assert(a[idx + 1] == x);
            assert(a.contains(x));
            assert(spec_interval_lt(x, a[0]));
            let bidx = choose|bidx: int| 0 <= bidx < b.len() && b[bidx] == x;
            assert(bidx != 0);
            assert(bt[bidx - 1] == x);
        }
        assert forall|x: FrameInterval| bt.contains(x) implies at.contains(x) by {
            let idx = choose|idx: int| 0 <= idx < bt.len() && bt[idx] == x;
            assert(b[idx + 1] == x);
            assert(b.contains(x));
            assert(spec_interval_lt(x, b[0]));
            let aidx = choose|aidx: int| 0 <= aidx < a.len() && a[aidx] == x;
            assert(aidx != 0);
            assert(at[aidx - 1] == x);
        }
        lemma_descending_unique(at, bt);
        assert(a =~= seq![a[0]] + at);
        assert(b =~= seq![b[0]] + bt);
    }
}

/// Assembles the sizes of one format from its probe outcomes: each successful
/// interval query yields a size with its flattened intervals; each failure
/// yields one diagnostic message and the size is skipped. The result is
/// ordered largest size first and holds no duplicates.
pub fn build_sizes(fourcc: &str, probes: &Vec<SizeProbe>) -> (r: (Vec<Size>, Vec<String>))
    ensures
        spec_sizes_built(spec_size_views(r.0@), probes@),
        r.1@.len() == spec_failed_count(probes@),
{
    let mut sizes: Vec<Size> = Vec::new();
    let mut warnings: Vec<String> = Vec::new();
    let n = probes.len();
    let mut t: usize = 0;
    while t < n
        invariant
            n == probes@.len(),
            t <= n,
            spec_sizes_sorted_desc(sizes@),
            spec_sizes_distinct(sizes@),
            forall|m: SizeModel| spec_contains_size(sizes@, m) <==> exists|u: int|
                0 <= u < t && spec_size_from_probe(m, #[trigger] probes@[u]),
            warnings@.len() == spec_failed_count(probes@.subrange(0, t as int)),
        decreases n - t,
    {
        proof {
            assert(probes@.subrange(0, t as int + 1).drop_last() =~= probes@.subrange(0, t as int));
            assert(probes@.subrange(0, t as int + 1).last() == probes@[t as int]);
        }
        match &probes[t].outcome {
            IntervalProbe::Reported(items) => {
                let intervals = convert_v4l_intervals(items);
                let sz = Size { width: probes[t].width, height: probes[t].height, intervals };
                proof {
                    assert(spec_size_from_probe(sz@, probes@[t as int]));
                }
                insert_size_sorted(&mut sizes, sz);
                proof {
                    assert forall|m: SizeModel|
                        spec_size_from_probe(m, probes@[t as int]) implies m == sz@ by {
                        lemma_descending_unique(m.intervals, sz@.intervals);
                        assert(m =~= sz@);
                    }
                }
            },
            IntervalProbe::Failed(error) => {
                let mut msg = String::from_str("encode: ");
                msg.append(fourcc);
                msg.append(", for size: ");
                crate::strutil::append_dec_u32(&mut msg, probes[t].width);
                msg.append("x");
                crate::strutil::append_dec_u32(&mut msg, probes[t].height);
                msg.append(", error: ");
                msg.append(error.as_str());
                warnings.push(msg);
            },
        }
        t += 1;
    }
    proof {
        assert(probes@.subrange(0, n as int) =~= probes@);
        assert(forall|k: int| 0 <= k < sizes@.len() ==> #[trigger] spec_size_views(sizes@)[k]
            == sizes@[k]@);
        assert forall|i: int, j: int|
            0 <= i < j < spec_size_views(sizes@).len() implies !spec_size_key_lt(
            #[trigger] spec_size_views(sizes@)[i],
            #[trigger] spec_size_views(sizes@)[j],
        ) by {
            assert(spec_size_views(sizes@)[i] == sizes@[i]@);
            assert(spec_size_views(sizes@)[j] == sizes@[j]@);
        }
        assert forall|i: int, j: int|
            0 <= i < j < spec_size_views(sizes@).len() implies #[trigger] spec_size_views(
            sizes@,
        )[i] != #[trigger] spec_size_views(sizes@)[j] by {
            assert(spec_size_views(sizes@)[i] == sizes@[i]@);
            assert(spec_size_views(sizes@)[j] == sizes@[j]@);
        }
        assert(spec_size_models_normal(spec_size_views(sizes@)));
        assert forall|m: SizeModel|
            spec_size_views(sizes@).contains(m) == (exists|u: int|
                0 <= u < probes@.len() && spec_size_from_probe(m, #[trigger] probes@[u])) by {
            if spec_size_views(sizes@).contains(m) {
                let k = choose|k: int|
                    0 <= k < spec_size_views(sizes@).len() && spec_size_views(sizes@)[k] == m;
                assert(sizes@[k]@ == m);
                assert(spec_contains_size(sizes@, m));
            }
            if spec_contains_size(sizes@, m) {
                let k = choose|k: int| 0 <= k < sizes@.len() && sizes@[k]@ == m;
                assert(spec_size_views(sizes@)[k] == m);
                assert(spec_size_views(sizes@).contains(m));
            }
        }
    }
    (sizes, warnings)
}

/// The legacy-camera constraint on one size: width and height are clamped to
/// 1920 by 1080, and every interval whose numerator times denominator
/// exceeds 30 is dropped. The product comparison reproduces the vendor
/// workaround exactly as the hardware quirk demands, even though the product
/// is not dimensionally a frame rate.
pub open spec fn spec_clamp_size(m: SizeModel) -> SizeModel {
    SizeModel {
        width: if m.width > 1920 {
            1920
        } else {
            m.width
        },
        height: if m.height > 1080 {
            1080
        } else {
            m.height
        },
        intervals: m.intervals.filter(
            |fi: FrameInterval| fi.numerator * fi.denominator <= 30,
        ),
    }
}

/// Consecutive duplicates removed, first occurrence kept.
pub open spec fn spec_dedup_adjacent(s: Seq<SizeModel>) -> Seq<SizeModel>
    decreases s.len(),
{
    if s.len() <= 1 {
        s
    } else {
        let rest = spec_dedup_adjacent(s.drop_last());
        if s[s.len() - 2] == s.last() {
            rest
        } else {
            rest.push(s.last())
        }
    }
}

impl Size {
    /// A copy of the size that contracts can see through.
    pub fn duplicate(&self) -> (r: Size)
        ensures
            r@ == self@,
    {
        let mut intervals: Vec<FrameInterval> = Vec::new();
        let n = self.intervals.len();
        let mut i: usize = 0;
        while i < n
            invariant
                n == self.intervals@.len(),
                i <= n,
                intervals@ == self.intervals@.subrange(0, i as int),
            decreases n - i,
        {
            intervals.push(self.intervals[i]);
            proof {
                assert(intervals@ =~= self.intervals@.subrange(0, i as int + 1));
            }
            i += 1;
        }
        proof {
            assert(intervals@ =~= self.intervals@);
        }
        Size { width: self.width, height: self.height, intervals }
    }
}

/// Applies the legacy-camera constraint to one size.
fn clamp_size(sz: &Size) -> (r: Size)
    ensures
        r@ == spec_clamp_size(sz@),
{
    let width = if sz.width > 1920 {
        1920
    } else {
        sz.width
    };
    let height = if sz.height > 1080 {
        1080
    } else {
        sz.height
    };
    let mut intervals: Vec<FrameInterval> = Vec::new();
    let n = sz.intervals.len();
    proof {
        reveal(Seq::filter);
        assert(intervals@ =~= sz.intervals@.subrange(0, 0).filter(
            |fi: FrameInterval| fi.numerator * fi.denominator <= 30,
        ));
    }
    let mut i: usize = 0;
    while i < n
        invariant
            n == sz.intervals@.len(),
            i <= n,
            intervals@ == sz.intervals@.subrange(0, i as int).filter(
                |fi: FrameInterval| fi.numerator * fi.denominator <= 30,
            ),
        decreases n - i,
    {
        let fi = sz.intervals[i];
        proof {
            reveal(Seq::filter);
            assert(sz.intervals@.subrange(0, i as int + 1).drop_last() =~= sz.intervals@.subrange(
                0,
                i as int,
            ));
            assert(sz.intervals@.subrange(0, i as int + 1).last() == sz.intervals@[i as int]);
        }
        proof {
            assert((fi.numerator as u64) as int * ((fi.denominator as u64) as int)
                <= 0xFFFF_FFFF_FFFF_FFFF) by (nonlinear_arith)
                requires
                    fi.numerator as int <= 0xFFFF_FFFF,
                    fi.denominator as int <= 0xFFFF_FFFF,
                    fi.numerator as int >= 0,
                    fi.denominator as int >= 0,
            ;
        }
        if (fi.numerator as u64) * (fi.denominator as u64) <= 30 {
            intervals.push(fi);
            proof {
                reveal(Seq::filter);
                assert(intervals@ =~= sz.intervals@.subrange(0, i as int + 1).filter(
                    |fi: FrameInterval| fi.numerator * fi.denominator <= 30,
                ));
            }
        } else {
            proof {
                reveal(Seq::filter);
                assert(intervals@ =~= sz.intervals@.subrange(0, i as int + 1).filter(
                    |fi: FrameInterval| fi.numerator * fi.denominator <= 30,
                ));
            }
        }
        i += 1;
    }
    proof {
        assert(sz.intervals@.subrange(0, n as int) =~= sz.intervals@);
    }
    Size { width, height, intervals }
}

/// Removes consecutive structurally equal sizes, keeping the first of each
/// run.
fn dedup_adjacent_sizes(v: &Vec<Size>) -> (r: Vec<Size>)
    ensures
        spec_size_views(r@) == spec_dedup_adjacent(spec_size_views(v@)),
{
    let mut out: Vec<Size> = Vec::new();
    let n = v.len();
    if n == 0 {
        proof {
            assert(spec_size_views(out@) =~= spec_dedup_adjacent(spec_size_views(v@)));
        }
        return out;
    }
    out.push(v[0].duplicate());
    proof {
        assert(spec_size_views(v@.subrange(0, 1)).len() == 1);
        assert(spec_size_views(out@) =~= spec_dedup_adjacent(spec_size_views(v@.subrange(0, 1))));
    }
    let mut i: usize = 1;
    while i < n
        invariant
            n == v@.len(),
            1 <= i <= n,
            spec_size_views(out@) == spec_dedup_adjacent(spec_size_views(v@.subrange(0, i as int))),
        decreases n - i,
    {
        proof {
            lemma_dedup_step(v@, i as int);
        }
        if !crate::video_types::size_eq(&v[i], &v[i - 1]) {
            let ghost out_before = out@;
            out.push(v[i].duplicate());
            proof {
                assert(spec_size_views(out@) =~= spec_size_views(out_before).push(v@[i as int]@));
            }
        }
        i += 1;
    }
    proof {
        assert(v@.subrange(0, n as int) =~= v@);
    }
    out
}

proof fn lemma_dedup_step(v: Seq<Size>, i: int)
    requires
        1 <= i < v.len(),
    ensures
        v[i - 1]@ == v[i]@ ==> spec_dedup_adjacent(spec_size_views(v.subrange(0, i + 1)))
            == spec_dedup_adjacent(spec_size_views(v.subrange(0, i))),
        v[i - 1]@ != v[i]@ ==> spec_dedup_adjacent(spec_size_views(v.subrange(0, i + 1)))
            == spec_dedup_adjacent(spec_size_views(v.subrange(0, i))).push(v[i]@),
{
    let s = spec_size_views(v.subrange(0, i + 1));
    assert(s.len() == i + 1);
    assert(s.drop_last() =~= spec_size_views(v.subrange(0, i)));
    assert(s.last() == v[i]@);
    assert(s[s.len() - 2] == v[i - 1]@);
}

} // verus!

verus! {

/// Applies the legacy-camera constraint to every format: sources in legacy
/// camera mode misreport capabilities, so sizes are clamped to at most
/// 1920 by 1080, intervals whose numerator times denominator exceed 30 are
/// dropped, and consecutive sizes made equal by the clamping are merged.
pub fn apply_legacy_constraints(formats: &mut Vec<Format>)
    ensures
        final(formats)@.len() == old(formats)@.len(),
        forall|k: int| 0 <= k < old(formats)@.len() ==> (#[trigger] final(formats)@[k])@.encode
            == old(formats)@[k]@.encode,
        forall|k: int| 0 <= k < old(formats)@.len() ==> (#[trigger] final(formats)@[k])@.sizes
            == spec_dedup_adjacent(old(formats)@[k]@.sizes.map_values(|m: SizeModel| spec_clamp_size(m))),
{
    let mut out: Vec<Format> = Vec::new();
    let n = formats.len();
    let mut k: usize = 0;
    while k < n
        invariant
            n == formats@.len(),
            k <= n,
            *formats == *old(formats),
            out@.len() == k,
            forall|j: int| 0 <= j < k ==> (#[trigger] out@[j])@.encode == formats@[j]@.encode,
            forall|j: int| 0 <= j < k ==> (#[trigger] out@[j])@.sizes == spec_dedup_adjacent(
                formats@[j]@.sizes.map_values(|m: SizeModel| spec_clamp_size(m)),
            ),
        decreases n - k,
    {
        let mut clamped: Vec<Size> = Vec::new();
        let m = formats[k].sizes.len();
        let mut i: usize = 0;
        while i < m
            invariant
                n == formats@.len(),
                k < n,
                m == formats@[k as int].sizes@.len(),
                i <= m,
                *formats == *old(formats),
                clamped@.len() == i,
                forall|j: int| 0 <= j < i ==> (#[trigger] clamped@[j])@ == spec_clamp_size(
                    formats@[k as int].sizes@[j]@,
                ),
            decreases m - i,
        {
            let c = clamp_size(&formats[k].sizes[i]);
            clamped.push(c);
            i += 1;
        }
        proof {
            assert(spec_size_views(clamped@) =~= formats@[k as int]@.sizes.map_values(
                |m: SizeModel| spec_clamp_size(m),
            ));
        }
        let deduped = dedup_adjacent_sizes(&clamped);
        let encode = formats[k].encode.duplicate();
        out.push(Format { encode, sizes: deduped });
        proof {
            assert(out@.last()@.sizes =~= spec_size_views(deduped@));
        }
        k += 1;
    }
    *formats = out;
}

/// The sort rank of an encoding.
pub open spec fn spec_encode_rank(e: EncodeModel) -> int {
    match e {
        EncodeModel::H264 => 0,
        EncodeModel::H265 => 1,
        EncodeModel::YUYV => 2,
        EncodeModel::MJPG => 3,
        EncodeModel::UNKNOWN(_) => 4,
    }
}

fn encode_rank(e: &VideoEncodeType) -> (r: u8)
    ensures
        r as int == spec_encode_rank(e@),
{
    match e {
        VideoEncodeType::H264 => 0,
        VideoEncodeType::H265 => 1,
        VideoEncodeType::YUYV => 2,
        VideoEncodeType::MJPG => 3,
        VideoEncodeType::UNKNOWN(_) => 4,
    }
}

/// Sorted by encoding rank.
pub open spec fn spec_formats_sorted(s: Seq<Format>) -> bool {
    forall|i: int, j: int|
        0 <= i < j < s.len() ==> spec_encode_rank((#[trigger] s[i])@.encode) <= spec_encode_rank(
            (#[trigger] s[j])@.encode,
        )
}

/// No two entries are structurally equal.
pub open spec fn spec_formats_distinct(s: Seq<Format>) -> bool {
    forall|i: int, j: int| 0 <= i < j < s.len() ==> (#[trigger] s[i])@ != (#[trigger] s[j])@
}

/// Whether some entry has the given view.
pub open spec fn spec_contains_format(s: Seq<Format>, m: FormatModel) -> bool {
    exists|k: int| 0 <= k < s.len() && (#[trigger] s[k])@ == m
}

/// Inserts a format into a list kept sorted by encoding rank and free of
/// structural duplicates; a format already present is not inserted again.
fn insert_format_sorted(out: &mut Vec<Format>, f: Format)
    requires
        spec_formats_sorted(old(out)@),
        spec_formats_distinct(old(out)@),
    ensures
        spec_formats_sorted(final(out)@),
        spec_formats_distinct(final(out)@),
        forall|m: FormatModel| spec_contains_format(final(out)@, m) <==> (spec_contains_format(
            old(out)@,
            m,
        ) || m == f@),
{
    let rf = encode_rank(&f.encode);
    let n = out.len();
    let mut i: usize = 0;
    while i < n && encode_rank(&out[i].encode) < rf
        invariant
            n == out@.len(),
            i <= n,
            *out == *old(out),
            rf as int == spec_encode_rank(f@.encode),
            forall|k: int| 0 <= k < i ==> spec_encode_rank((#[trigger] out@[k])@.encode)
                < rf as int,
        decreases n - i,
    {
        i += 1;
    }
    while i < n && encode_rank(&out[i].encode) == rf
        invariant
            n == out@.len(),
            i <= n,
            *out == *old(out),
            spec_formats_sorted(out@),
            spec_formats_distinct(out@),
            rf as int == spec_encode_rank(f@.encode),
            i < n ==> spec_encode_rank(out@[i as int]@.encode) >= rf as int,
            forall|k: int| 0 <= k < i ==> spec_encode_rank((#[trigger] out@[k])@.encode)
                <= rf as int,
            forall|k: int| 0 <= k < i ==> (#[trigger] out@[k])@ != f@,
        decreases n - i,
    {
        if crate::video_types::format_eq(&out[i], &f) {
            return;
        }
        i += 1;
    }
    proof {
        assert forall|k: int|
            i <= k < out@.len() implies spec_encode_rank((#[trigger] out@[k])@.encode)
            > rf as int by {
            if k > i {
                assert(spec_encode_rank(out@[i as int]@.encode) <= spec_encode_rank(
                    out@[k]@.encode,
                ));
            }
        }
    }
    let ghost before = out@;
    out.insert(i, f);
    proof {
        assert(out@[i as int]@ == f@);
        assert forall|m: FormatModel|
            spec_contains_format(out@, m) implies (spec_contains_format(before, m) || m == f@) by {
            let idx = choose|idx: int| 0 <= idx < out@.len() && out@[idx]@ == m;
            if idx < i {
                assert(before[idx]@ == m);
            } else if idx > i {
                assert(before[idx - 1]@ == m);
            }
        }
        assert forall|m: FormatModel|
            spec_contains_format(before, m) implies spec_contains_format(out@, m) by {
            let idx = choose|idx: int| 0 <= idx < before.len() && before[idx]@ == m;
            if idx < i {
                assert(out@[idx]@ == m);
            } else {
                assert(out@[idx + 1]@ == m);
            }
        }
        assert forall|a: int, b: int|
            0 <= a < b < out@.len() implies spec_encode_rank(out@[a]@.encode) <= spec_encode_rank(
            out@[b]@.encode,
        ) by {
            if a != i && b != i {
                if b < i {
                    assert(before[a]@ == out@[a]@ && before[b]@ == out@[b]@);
                } else if a > i {
                    assert(before[a - 1]@ == out@[a]@ && before[b - 1]@ == out@[b]@);
                } else {
                    assert(before[a]@ == out@[a]@ && before[b - 1]@ == out@[b]@);
                }
            } else if a == i {
                assert(before[b - 1]@ == out@[b]@);
            } else {
                assert(before[a]@ == out@[a]@);
            }
        }
        assert forall|a: int, b: int|
            0 <= a < b < out@.len() implies out@[a]@ != out@[b]@ by {
            if a != i && b != i {
                if b < i {
                    assert(before[a]@ == out@[a]@ && before[b]@ == out@[b]@);
                } else if a > i {
                    assert(before[a - 1]@ == out@[a]@ && before[b - 1]@ == out@[b]@);
                } else {
                    assert(before[a]@ == out@[a]@ && before[b - 1]@ == out@[b]@);
                }
            } else if a == i {
                assert(before[b - 1]@ == out@[b]@);
                if out@[a]@ == out@[b]@ {
                    assert(spec_encode_rank(before[b - 1]@.encode) > rf as int);
                }
            } else {
                assert(before[a]@ == out@[a]@);
            }
        }
    }
}

impl Format {
    /// A copy of the format that contracts can see through.
    pub fn duplicate(&self) -> (r: Format)
        ensures
            r@ == self@,
    {
        let mut sizes: Vec<Size> = Vec::new();
        let n = self.sizes.len();
        let mut i: usize = 0;
        while i < n
            invariant
                n == self.sizes@.len(),
                i <= n,
                sizes@.len() == i,
                forall|k: int| 0 <= k < i ==> (#[trigger] sizes@[k])@ == self.sizes@[k]@,
            decreases n - i,
        {
            let s = self.sizes[i].duplicate();
            sizes.push(s);
            i += 1;
        }
        let r = Format { encode: self.encode.duplicate(), sizes };
        proof {
            assert(r@.sizes =~= self@.sizes);
            assert(r@ =~= self@);
        }
        r
    }
}

/// Assembles one format from its fourcc code and size probes.
pub fn build_format(fourcc: &str, size_probes: &Vec<SizeProbe>) -> (r: (Format, Vec<String>))
    ensures
        r.0@.encode == crate::video_types::spec_encode_of_fourcc(fourcc@),
        spec_sizes_built(r.0@.sizes, size_probes@),
        r.1@.len() == spec_failed_count(size_probes@),
{
    let (sizes, warnings) = build_sizes(fourcc, size_probes);
    let f = Format { encode: VideoEncodeType::from_str(fourcc), sizes };
    proof {
        assert(f@.sizes =~= spec_size_views(f.sizes@));
    }
    (f, warnings)
}

/// Whether a format's view is what assembling one format probe yields,
/// with the legacy constraint applied when the source is a legacy platform
/// capture.
pub open spec fn spec_assembled_format(m: FormatModel, p: FormatProbe, legacy: bool) -> bool {
    &&& m.encode == crate::video_types::spec_encode_of_fourcc(p.fourcc@)
    &&& if legacy {
        exists|pre: Seq<SizeModel>|
            spec_sizes_built(pre, p.size_probes@) && m.sizes == spec_dedup_adjacent(
                pre.map_values(|m: SizeModel| spec_clamp_size(m)),
            )
    } else {
        spec_sizes_built(m.sizes, p.size_probes@)
    }
}

/// How many interval queries failed over all format probes.
pub open spec fn spec_total_failed(ps: Seq<FormatProbe>) -> int
    decreases ps.len(),
{
    if ps.len() == 0 {
        0
    } else {
        spec_total_failed(ps.drop_last()) + spec_failed_count(ps.last().size_probes@)
    }
}

/// Assembles one raw format per probe, in probe order, collecting one
/// diagnostic message per failed interval query.
fn assemble_raw_formats(probes: &Vec<FormatProbe>) -> (r: (Vec<Format>, Vec<String>))
    ensures
        r.0@.len() == probes@.len(),
        forall|j: int| 0 <= j < probes@.len() ==> (#[trigger] r.0@[j])@.encode
            == crate::video_types::spec_encode_of_fourcc(probes@[j].fourcc@),
        forall|j: int| 0 <= j < probes@.len() ==> spec_sizes_built(
            (#[trigger] r.0@[j])@.sizes,
            probes@[j].size_probes@,
        ),
        r.1@.len() == spec_total_failed(probes@),
{
    let mut raw: Vec<Format> = Vec::new();
    let mut warnings: Vec<String> = Vec::new();
    let n = probes.len();
    let mut t: usize = 0;
    while t < n
        invariant
            n == probes@.len(),
            t <= n,
            raw@.len() == t,
            forall|j: int| 0 <= j < t ==> (#[trigger] raw@[j])@.encode
                == crate::video_types::spec_encode_of_fourcc(probes@[j].fourcc@),
            forall|j: int| 0 <= j < t ==> spec_sizes_built(
                (#[trigger] raw@[j])@.sizes,
                probes@[j].size_probes@,
            ),
            warnings@.len() == spec_total_failed(probes@.subrange(0, t as int)),
        decreases n - t,
    {
        proof {
            assert(probes@.subrange(0, t as int + 1).drop_last() =~= probes@.subrange(0, t as int));
            assert(probes@.subrange(0, t as int + 1).last() == probes@[t as int]);
        }
        let (f, w) = build_format(probes[t].fourcc.as_str(), &probes[t].size_probes);
        raw.push(f);
        let wn = w.len();
        let mut wi: usize = 0;
        while wi < wn
            invariant
                wn == w@.len(),
                wi <= wn,
                n == probes@.len(),
                t < n,
                warnings@.len() == spec_total_failed(probes@.subrange(0, t as int)) + wi,
            decreases wn - wi,
        {
            warnings.push(w[wi].clone());
            wi += 1;
        }
        t += 1;
    }
    proof {
        assert(probes@.subrange(0, n as int) =~= probes@);
    }
    (raw, warnings)
}

/// Sorts formats by encoding rank and removes structural duplicates.
fn normalize_formats(raw: &Vec<Format>) -> (r: Vec<Format>)
    ensures
        spec_formats_sorted(r@),
        spec_formats_distinct(r@),
        forall|m: FormatModel| spec_contains_format(r@, m) <==> exists|j: int|
            0 <= j < raw@.len() && (#[trigger] raw@[j])@ == m,
{
    let mut result: Vec<Format> = Vec::new();
    let rn = raw.len();
    let mut k: usize = 0;
    while k < rn
        invariant
            rn == raw@.len(),
            k <= rn,
            spec_formats_sorted(result@),
            spec_formats_distinct(result@),
            forall|m: FormatModel| spec_contains_format(result@, m) <==> exists|j: int|
                0 <= j < k && (#[trigger] raw@[j])@ == m,
        decreases rn - k,
    {
        let f = raw[k].duplicate();
        insert_format_sorted(&mut result, f);
        k += 1;
    }
    result
}

proof fn lemma_assembled_after_quirk(
    raw_before: Seq<Format>,
    raw: Seq<Format>,
    probes: Seq<FormatProbe>,
    legacy: bool,
)
    requires
        raw_before.len() == probes.len(),
        raw.len() == probes.len(),
        forall|j: int| 0 <= j < probes.len() ==> (#[trigger] raw_before[j])@.encode
            == crate::video_types::spec_encode_of_fourcc(probes[j].fourcc@),
        forall|j: int| 0 <= j < probes.len() ==> spec_sizes_built(
            (#[trigger] raw_before[j])@.sizes,
            probes[j].size_probes@,
        ),
        legacy ==> forall|j: int| 0 <= j < probes.len() ==> (#[trigger] raw[j])@.encode
            == raw_before[j]@.encode,
        legacy ==> forall|j: int| 0 <= j < probes.len() ==> (#[trigger] raw[j])@.sizes
            == spec_dedup_adjacent(
            raw_before[j]@.sizes.map_values(|m: SizeModel| spec_clamp_size(m)),
        ),
        !legacy ==> raw == raw_before,
    ensures
        forall|j: int| 0 <= j < probes.len() ==> spec_assembled_format(
            (#[trigger] raw[j])@,
            probes[j],
            legacy,
        ),
{
    assert forall|j: int|
        0 <= j < probes.len() implies spec_assembled_format(
        (#[trigger] raw[j])@,
        probes[j],
        legacy,
    ) by {
        if legacy {
            assert(spec_sizes_built(raw_before[j]@.sizes, probes[j].size_probes@));
            assert(raw[j]@.sizes == spec_dedup_adjacent(
                raw_before[j]@.sizes.map_values(|m: SizeModel| spec_clamp_size(m)),
            ));
        }
    }
}

/// Some probe assembles to the given format.
pub open spec fn spec_some_probe_assembles(
    m: FormatModel,
    probes: Seq<FormatProbe>,
    legacy: bool,
) -> bool {
    exists|t: int| 0 <= t < probes.len() && spec_assembled_format(m, #[trigger] probes[t], legacy)
}

/// The probe's assembled format appears in the result.
pub open spec fn spec_probe_represented(
    result: Seq<Format>,
    p: FormatProbe,
    legacy: bool,
) -> bool {
    exists|k: int| 0 <= k < result.len() && spec_assembled_format((#[trigger] result[k])@, p, legacy)
}

/// Every entry of `result` is a format some probe assembles to, and every
/// probe's assembled format appears in `result`.
pub open spec fn spec_formats_correspond(
    result: Seq<Format>,
    probes: Seq<FormatProbe>,
    legacy: bool,
) -> bool {
    &&& forall|k: int| #![trigger result[k]]
        0 <= k < result.len() ==> spec_some_probe_assembles(result[k]@, probes, legacy)
    &&& forall|t: int| #![trigger probes[t]]
        0 <= t < probes.len() ==> spec_probe_represented(result, probes[t], legacy)
}

proof fn lemma_formats_correspondence(
    raw: Seq<Format>,
    result: Seq<Format>,
    probes: Seq<FormatProbe>,
    legacy: bool,
)
    requires
        raw.len() == probes.len(),
        forall|j: int| 0 <= j < probes.len() ==> spec_assembled_format(
            (#[trigger] raw[j])@,
            probes[j],
            legacy,
        ),
        forall|m: FormatModel| spec_contains_format(result, m) <==> exists|j: int|
            0 <= j < raw.len() && (#[trigger] raw[j])@ == m,
    ensures
        spec_formats_correspond(result, probes, legacy),
{
    assert forall|k: int| #![trigger result[k]]
        0 <= k < result.len() implies spec_some_probe_assembles(result[k]@, probes, legacy) by {
        assert(spec_contains_format(result, result[k]@));
        let j = choose|j: int| 0 <= j < raw.len() && (#[trigger] raw[j])@ == result[k]@;
        assert(0 <= j < probes.len() && spec_assembled_format(result[k]@, probes[j], legacy));
    }
    assert forall|t: int| #![trigger probes[t]]
        0 <= t < probes.len() implies spec_probe_represented(result, probes[t], legacy) by {
        let m = (#[trigger] raw[t])@;
        assert(exists|j: int| 0 <= j < raw.len() && (#[trigger] raw[j])@ == m) by {
            assert((#[trigger] raw[t])@ == m);
        }
        assert(spec_contains_format(result, m));
        let k = choose|k: int| 0 <= k < result.len() && (#[trigger] result[k])@ == m;
        assert(0 <= k < result.len() && spec_assembled_format(result[k]@, probes[t], legacy));
    }
}

/// Assembles the formats of a device from its probe data: one format per
/// probed pixel format, sizes largest first, the legacy-camera constraint
/// applied for legacy platform captures, the format list ordered by encoding
/// and free of duplicates, and one diagnostic message per failed interval
/// query.
pub fn formats_from_probes(typ: &VideoSourceLocalType, probes: &Vec<FormatProbe>) -> (r: (
    Vec<Format>,
    Vec<String>,
))
    ensures
        spec_formats_sorted(r.0@),
        spec_formats_distinct(r.0@),
        spec_formats_correspond(
            r.0@,
            probes@,
            typ@ matches crate::video_source_local::LocalTypeModel::LegacyRpiCam(_),
        ),
        r.1@.len() == spec_total_failed(probes@),
{
    let legacy = matches!(typ, VideoSourceLocalType::LegacyRpiCam(_));
    let ghost is_legacy = typ@ matches crate::video_source_local::LocalTypeModel::LegacyRpiCam(_);
    let (mut raw, warnings) = assemble_raw_formats(probes);
    let ghost raw_before = raw@;
    if legacy {
        apply_legacy_constraints(&mut raw);
    }
    let result = normalize_formats(&raw);
    proof {
        lemma_assembled_after_quirk(raw_before, raw@, probes@, is_legacy);
        lemma_formats_correspondence(raw@, result@, probes@, is_legacy);
    }
    (result, warnings)
}

} // verus!
