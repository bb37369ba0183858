//! Finite differences of keyed series.

use core::ops::Range;

use vstd::prelude::*;

verus! {

/// Number of consecutive pairs in a series of `n` points.
pub open spec fn n_windows(n: nat) -> nat {
    if n == 0 {
        0
    } else {
        (n - 1) as nat
    }
}

/// Consecutive differences `(key_i..key_{i+1}, value_{i+1} - value_i)` of the series.
pub open spec fn series_deltas(series: Seq<(i64, i64)>) -> Seq<(Range<i64>, i64)> {
    Seq::new(
        n_windows(series.len()),
        |i: int|
            (
                Range { start: series[i].0, end: series[i + 1].0 },
                (series[i + 1].1 - series[i].1) as i64,
            ),
    )
}

/// Every consecutive difference of the values fits into `i64`.
pub open spec fn deltas_fit(series: Seq<(i64, i64)>) -> bool {
    forall|i: int|
        0 <= i < series.len() - 1 ==> i64::MIN <= #[trigger] series[i + 1].1 - series[i].1 <= i64::MAX
}

/// Sum of the values of a sequence of deltas.
pub open spec fn sum_of_deltas(deltas: Seq<(Range<i64>, i64)>) -> int
    decreases deltas.len(),
{
    if deltas.len() == 0 {
        0
    } else {
        sum_of_deltas(deltas.drop_last()) + deltas.last().1
    }
}

/// Differentiation of a series keyed by `i64`.
pub trait Differentiate {
    /// The series can be differentiated without overflowing.
    spec fn can_take_deltas(&self) -> bool;

    /// The differences that [`Differentiate::deltas`] returns.
    spec fn spec_deltas(&self) -> Seq<(Range<i64>, i64)>;

    /// Differentiate the values by the keys: `(key range, value delta)` for each consecutive pair.
    fn deltas(&self) -> (result: Vec<(Range<i64>, i64)>)
        requires
            self.can_take_deltas(),
        ensures
            result@ == self.spec_deltas(),
    ;
}

impl Differentiate for Vec<(i64, i64)> {
    open spec fn can_take_deltas(&self) -> bool {
        deltas_fit(self@)
    }

    open spec fn spec_deltas(&self) -> Seq<(Range<i64>, i64)> {
        series_deltas(self@)
    }

    fn deltas(&self) -> (result: Vec<(Range<i64>, i64)>) {
        let mut result: Vec<(Range<i64>, i64)> = Vec::new();
        let n = self.len();
        if n == 0 {
            assert(result@ =~= series_deltas(self@));
            return result;
        }
        for i in 0..n - 1
            invariant
                n == self@.len(),
                n > 0,
                deltas_fit(self@),
                result@ =~= series_deltas(self@).take(i as int),
        {
            let (from_key, from_value) = self[i];
            let (to_key, to_value) = self[i + 1];
            assert(i64::MIN <= self@[i + 1].1 - self@[i as int].1 <= i64::MAX);
            result.push((from_key..to_key, to_value - from_value));
        }
        assert(series_deltas(self@).take((n - 1) as int) =~= series_deltas(self@));
        result
    }
}

/// Rust's integer division, rounding towards zero.
pub open spec fn truncating_div(a: int, b: int) -> int {
    let divisor = if b >= 0 { b } else { -b };
    let magnitude = if a >= 0 { a / divisor } else { -((-a) / divisor) };
    if b > 0 { magnitude } else { -magnitude }
}

/// Rust's `i64` division, computed through `i128` with a positive divisor.
fn divide_i64(value: i64, divisor: i64) -> (quotient: i64)
    requires
        divisor != 0,
        !(value == i64::MIN && divisor == -1),
    ensures
        quotient == truncating_div(value as int, divisor as int),
{
    let wide_divisor: i128 = if divisor >= 0 { divisor as i128 } else { -(divisor as i128) };
    let wide_value = value as i128;
    let magnitude: i128 = if wide_value >= 0 {
        assert(wide_value / wide_divisor <= wide_value) by (nonlinear_arith)
            requires wide_value >= 0, wide_divisor >= 1;
        assert(wide_value / wide_divisor >= 0) by (nonlinear_arith)
            requires wide_value >= 0, wide_divisor >= 1;
        wide_value / wide_divisor
    } else {
        let negated = -wide_value;
        assert(negated / wide_divisor <= negated) by (nonlinear_arith)
            requires negated >= 0, wide_divisor >= 1;
        assert(negated / wide_divisor >= 0) by (nonlinear_arith)
            requires negated >= 0, wide_divisor >= 1;
        assert(wide_divisor == 1 ==> negated / wide_divisor == negated) by (nonlinear_arith);
        assert(wide_divisor >= 2 ==> negated / wide_divisor <= negated / 2) by (nonlinear_arith)
            requires negated >= 0;
        -(negated / wide_divisor)
    };
    if divisor > 0 {
        magnitude as i64
    } else {
        (-magnitude) as i64
    }
}

/// Each delta can be turned into a rate: its range is non-empty and the division does not overflow.
pub open spec fn rates_defined(deltas: Seq<(Range<i64>, i64)>) -> bool {
    forall|i: int|
        0 <= i < deltas.len() ==> {
            let span = (#[trigger] deltas[i]).0.end - deltas[i].0.start;
            &&& span != 0
            &&& i64::MIN <= span <= i64::MAX
            &&& !(deltas[i].1 == i64::MIN && span == -1)
        }
}

/// Divide each value delta by the length of its key range.
pub fn differentiate(deltas: &Vec<(Range<i64>, i64)>) -> (rates: Vec<(Range<i64>, i64)>)
    requires
        rates_defined(deltas@),
    ensures
        rates@.len() == deltas@.len(),
        forall|i: int|
            0 <= i < deltas@.len() ==> (#[trigger] rates@[i]).0 == deltas@[i].0 && rates@[i].1
                == truncating_div(deltas@[i].1 as int, deltas@[i].0.end - deltas@[i].0.start),
{
    let mut rates: Vec<(Range<i64>, i64)> = Vec::new();
    for i in 0..deltas.len()
        invariant
            rates_defined(deltas@),
            rates@.len() == i,
            forall|k: int|
                0 <= k < i ==> (#[trigger] rates@[k]).0 == deltas@[k].0 && rates@[k].1
                    == truncating_div(deltas@[k].1 as int, deltas@[k].0.end - deltas@[k].0.start),
    {
        let start = deltas[i].0.start;
        let end = deltas[i].0.end;
        let value = deltas[i].1;
        let span = end - start;
        let rate = divide_i64(value, span);
        rates.push((start..end, rate));
    }
    rates
}

/// The deltas of a series tile its key span and add up to the total change of its values.
pub proof fn lemma_deltas_telescope(series: Seq<(i64, i64)>)
    requires
        series.len() > 0,
        deltas_fit(series),
    ensures
        sum_of_deltas(series_deltas(series)) == series.last().1 - series[0].1,
        forall|i: int|
            0 <= i < series_deltas(series).len() - 1 ==> (#[trigger] series_deltas(series)[i]).0.end
                == series_deltas(series)[i + 1].0.start,
    decreases series.len(),
{
    if series.len() > 1 {
        let prefix = series.drop_last();
        assert(deltas_fit(prefix)) by {
            assert forall|i: int| 0 <= i < prefix.len() - 1 implies i64::MIN <= #[trigger] prefix[i
                + 1].1 - prefix[i].1 <= i64::MAX by {
                assert(prefix[i + 1] == series[i + 1] && prefix[i] == series[i]);
            }
        }
        lemma_deltas_telescope(prefix);
        let n = series.len();
        assert(series_deltas(series).drop_last() =~= series_deltas(prefix));
        let last = n - 2;
        assert(i64::MIN <= series[last + 1].1 - series[last].1 <= i64::MAX);
        assert(series_deltas(series).last().1 == series[n - 1].1 - series[n - 2].1);
    } else {
        assert(series_deltas(series) =~= Seq::empty());
    }
}

} // verus!
