//! Signal-strength samples: reading them from telemetry lines and averaging
//! them.

use vstd::prelude::*;
use crate::numeric::{parse_i32, parsed_i32};
use crate::search::{find_all_matches, regex_find_all};

verus! {

/// An optionally signed decimal integer.
pub const SIGNED_INTEGER_PATTERN: &'static str = "[+-]?[0-9]+";

/// The values of the numerals that read as an `i32`, in order.
pub open spec fn parsed_values(numerals: Seq<Seq<u8>>) -> Seq<i32>
    decreases numerals.len(),
{
    if numerals.len() == 0 {
        Seq::empty()
    } else {
        let before = parsed_values(numerals.drop_last());
        match parsed_i32(numerals.last()) {
            Some(v) => before.push(v),
            None => before,
        }
    }
}

/// The samples a telemetry line carries: every signed integer in it, in order.
pub open spec fn line_samples(line: Seq<u8>) -> Seq<i32> {
    match regex_find_all(SIGNED_INTEGER_PATTERN@, line) {
        Some(numerals) => parsed_values(numerals),
        None => Seq::empty(),
    }
}

/// The samples given by numerals found in a line; a numeral too large for an
/// `i32` gives none.
pub fn samples_from_numerals(numerals: &Vec<Vec<u8>>) -> (r: Vec<i32>)
    ensures
        r@ == parsed_values(numerals@.map_values(|m: Vec<u8>| m@)),
{
    let ghost views = numerals@.map_values(|m: Vec<u8>| m@);
    let mut out: Vec<i32> = Vec::new();
    let mut i: usize = 0;
    while i < numerals.len()
        invariant
            0 <= i <= numerals@.len(),
            views == numerals@.map_values(|m: Vec<u8>| m@),
            out@ == parsed_values(views.subrange(0, i as int)),
        decreases numerals@.len() - i,
    {
        proof {
            assert(views.subrange(0, i + 1).drop_last() =~= views.subrange(0, i as int));
        }
        match parse_i32(numerals[i].as_slice()) {
            Some(v) => out.push(v),
            None => {},
        }
        i = i + 1;
    }
    assert(views.subrange(0, numerals@.len() as int) =~= views);
    out
}

/// Appends the samples that `line` carries.
pub fn extract_samples(line: &Vec<u8>, samples: &mut Vec<i32>)
    ensures
        final(samples)@ == old(samples)@ + line_samples(line@),
{
    match find_all_matches(SIGNED_INTEGER_PATTERN, line.as_slice()) {
        Some(numerals) => {
            let found = samples_from_numerals(&numerals);
            let mut i: usize = 0;
            while i < found.len()
                invariant
                    0 <= i <= found@.len(),
                    samples@ == old(samples)@ + found@.subrange(0, i as int),
                decreases found@.len() - i,
            {
                samples.push(found[i]);
                i = i + 1;
                assert(samples@ =~= old(samples)@ + found@.subrange(0, i as int));
            }
            assert(found@.subrange(0, found@.len() as int) =~= found@);
        },
        None => {
            assert(samples@ =~= old(samples)@ + line_samples(line@));
        },
    }
}

pub open spec fn sum_of(s: Seq<i32>) -> int
    decreases s.len(),
{
    if s.len() == 0 {
        0
    } else {
        sum_of(s.drop_last()) + s.last()
    }
}

/// Integer division that truncates toward zero.
pub open spec fn div_toward_zero(a: int, n: int) -> int {
    if a >= 0 {
        a / n
    } else {
        -((-a) / n)
    }
}

/// The mean of the samples, truncated toward zero; `None` when there are none.
pub open spec fn average_of(s: Seq<i32>) -> Option<i32> {
    if s.len() == 0 {
        None
    } else {
        Some(div_toward_zero(sum_of(s), s.len() as int) as i32)
    }
}

proof fn lemma_mean_in_range(sum: int, n: int)
    requires
        n > 0,
        n * (i32::MIN as int) <= sum <= n * (i32::MAX as int),
    ensures
        i32::MIN <= div_toward_zero(sum, n) <= i32::MAX,
{
    if sum >= 0 {
        assert(sum / n <= i32::MAX) by (nonlinear_arith)
            requires
                n > 0,
                0 <= sum <= n * (i32::MAX as int),
        ;
        assert(sum / n >= 0) by (nonlinear_arith)
            requires
                n > 0,
                0 <= sum,
        ;
    } else {
        assert((-sum) / n <= -(i32::MIN as int)) by (nonlinear_arith)
            requires
                n > 0,
                0 < -sum <= n * (-(i32::MIN as int)),
        ;
        assert((-sum) / n >= 0) by (nonlinear_arith)
            requires
                n > 0,
                0 < -sum,
        ;
    }
}

proof fn lemma_sum_bounds(s: Seq<i32>)
    ensures
        s.len() * (i32::MIN as int) <= sum_of(s) <= s.len() * (i32::MAX as int),
    decreases s.len(),
{
    if s.len() > 0 {
        lemma_sum_bounds(s.drop_last());
        assert(s.len() * (i32::MIN as int) == (s.len() - 1) * (i32::MIN as int) + i32::MIN)
            by (nonlinear_arith);
        assert(s.len() * (i32::MAX as int) == (s.len() - 1) * (i32::MAX as int) + i32::MAX)
            by (nonlinear_arith);
    }
}

/// Averaging samples v1..vN with N at least one gives their sum divided by N,
/// truncated toward zero, which an `i32` holds exactly; without samples there
/// is no average.
pub proof fn lemma_average_truncates(samples: Seq<i32>)
    ensures
        samples.len() == 0 ==> average_of(samples) is None,
        samples.len() > 0 ==> (average_of(samples) matches Some(v) && v as int == div_toward_zero(
            sum_of(samples),
            samples.len() as int,
        )),
{
    if samples.len() > 0 {
        lemma_sum_bounds(samples);
        lemma_mean_in_range(sum_of(samples), samples.len() as int);
    }
}

/// The mean of the samples, truncated toward zero; `None` when there are none.
pub fn average(samples: &Vec<i32>) -> (r: Option<i32>)
    ensures
        r == average_of(samples@),
{
    let n = samples.len();
    if n == 0 {
        return None;
    }
    let mut sum: i128 = 0;
    let mut i: usize = 0;
    while i < n
        invariant
            0 <= i <= n,
            n == samples@.len(),
            sum == sum_of(samples@.subrange(0, i as int)),
            i * (i32::MIN as int) <= sum <= i * (i32::MAX as int),
        decreases n - i,
    {
        proof {
            assert(samples@.subrange(0, i + 1).drop_last() =~= samples@.subrange(0, i as int));
        }
        sum = sum + samples[i] as i128;
        i = i + 1;
    }
    assert(samples@.subrange(0, n as int) =~= samples@);
    proof {
        lemma_mean_in_range(sum as int, n as int);
    }
    let mean: i128 = if sum >= 0 {
        sum / (n as i128)
    } else {
        -((-sum) / (n as i128))
    };
    Some(mean as i32)
}

} // verus!
