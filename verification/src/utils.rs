//! The threshold evaluator: classifies a measured value against a warning and
//! a critical threshold and produces a check result with the right state.

use vstd::prelude::*;
use crate::check::CheckResult;
use crate::check::CheckResultView;
use crate::check::State;

verus! {

/// A number in the evaluator's common comparison domain: a fixed-point value
/// counted in millionths, so integer and fractional measurements and
/// thresholds compare transparently in one total order.
#[derive(Debug, Clone, Copy, PartialEq, Eq, Structural)]
pub struct Num {
    micros: i64,
}

impl View for Num {
    type V = int;

    closed spec fn view(&self) -> int {
        self.micros as int
    }
}

impl Num {
    /// A whole number, placed in the comparison domain. The bound keeps the
    /// scaled value inside the machine word.
    pub fn from_int(n: i64) -> (r: Num)
        requires
            -9_223_372_036_854 <= n <= 9_223_372_036_854,
        ensures
            r@ == n * 1_000_000,
    {
        Num { micros: n * 1_000_000 }
    }

    /// A number given directly in millionths, for fractional measurements
    /// and thresholds.
    pub fn from_micros(m: i64) -> (r: Num)
        ensures
            r@ == m as int,
    {
        Num { micros: m }
    }
}

/// The one configuration error the library knows: warning and critical
/// thresholds that are numerically equal leave the direction of breach
/// ambiguous, so evaluation rejects them instead of classifying.
#[derive(Debug, Clone, Copy, PartialEq, Eq, Structural)]
pub struct InvalidThresholdConfig;

/// The state a value classifies to against unequal thresholds. Thresholds in
/// ascending order (warning below critical) breach upward, in descending
/// order downward; a value on a threshold counts as breached in both
/// directions.
pub open spec fn classify(v: int, w: int, c: int) -> State
    recommends
        w != c,
{
    if w < c {
        if v >= c {
            State::Critical
        } else if v >= w {
            State::Warning
        } else {
            State::OK
        }
    } else {
        if v <= c {
            State::Critical
        } else if v <= w {
            State::Warning
        } else {
            State::OK
        }
    }
}

/// Classifies `value` against the `warn` and `crit` thresholds and wraps the
/// resulting state in a bare check result, with no info or performance data
/// attached. Fails exactly when the two thresholds are equal.
pub fn evaluate(value: Num, warn: Num, crit: Num) -> (r: Result<
    CheckResult,
    InvalidThresholdConfig,
>)
    ensures
        r is Err <==> warn@ == crit@,
        r matches Ok(cr) ==> cr@ == (CheckResultView {
            state: classify(value@, warn@, crit@),
            info: None,
            perf_data: None,
        }),
{
    if warn.micros == crit.micros {
        return Err(InvalidThresholdConfig);
    }
    if warn.micros < crit.micros {
        if value.micros >= crit.micros {
            Ok(CheckResult::from_exit_code(2))
        } else if value.micros >= warn.micros {
            Ok(CheckResult::from_exit_code(1))
        } else {
            Ok(CheckResult::from_exit_code(0))
        }
    } else {
        if value.micros <= crit.micros {
            Ok(CheckResult::from_exit_code(2))
        } else if value.micros <= warn.micros {
            Ok(CheckResult::from_exit_code(1))
        } else {
            Ok(CheckResult::from_exit_code(0))
        }
    }
}

/// Ascending thresholds (warning below critical): a value at or above
/// critical is Critical, one at or above warning but below critical is
/// Warning, one below warning is OK.
pub proof fn lemma_classify_ascending(v: int, w: int, c: int)
    requires
        w < c,
    ensures
        v >= c ==> classify(v, w, c) == State::Critical,
        w <= v < c ==> classify(v, w, c) == State::Warning,
        v < w ==> classify(v, w, c) == State::OK,
{
}

/// Descending thresholds (warning above critical): a value at or below
/// critical is Critical, one above critical but at or below warning is
/// Warning, one above warning is OK.
pub proof fn lemma_classify_descending(v: int, w: int, c: int)
    requires
        w > c,
    ensures
        v <= c ==> classify(v, w, c) == State::Critical,
        c < v <= w ==> classify(v, w, c) == State::Warning,
        v > w ==> classify(v, w, c) == State::OK,
{
}

} // verus!
