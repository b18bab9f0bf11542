//! The Monte Carlo trial loop: sample points in the unit square, count those
//! that fall inside the unit quarter-circle.
//!
//! A coordinate in `[0, 1)` is held as an integer numerator `a < SCALE`
//! standing for the real number `a / SCALE`, so the inside test is exact
//! integer arithmetic: `x*x + y*y <= 1` becomes `a*a + b*b <= SCALE*SCALE`.

use vstd::prelude::*;

use crate::resolver::{cookie_view, resolved_total, resolve_total};

verus! {

/// Number of equal steps each unit coordinate is cut into.
pub const SCALE: u64 = 0x20000000000000;

/// `SCALE * SCALE`, the squared radius of the unit circle in numerator units.
pub const SCALE_SQUARED: u128 = 0x400000000000000000000000000;

/// The point `(a / SCALE, b / SCALE)` lies inside the closed unit circle.
pub open spec fn point_inside_circle(a: int, b: int) -> bool {
    a * a + b * b <= SCALE as int * SCALE as int
}

/// The outcome of one request's trials.
#[derive(PartialEq, Eq, Structural, Clone, Copy, Debug)]
pub struct Estimate {
    /// Trials whose point fell inside the unit quarter-circle.
    pub inside: u64,
    /// Trials run; the resolved sample count.
    pub total: u64,
}

impl Estimate {
    /// No more trials fall inside the circle than were run.
    pub open spec fn wf(self) -> bool {
        self.inside <= self.total
    }
}

/// Relies on `rand::random::<u64>()`: one draw from the thread-local
/// generator, uniform over all of `u64`. Its value depends on the generator's
/// state, so nothing is stated of it.
#[verifier::external_body]
fn random_word() -> u64 {
    rand::random()
}

/// One uniformly drawn coordinate numerator, below `SCALE`.
fn random_coordinate() -> (a: u64)
    ensures
        a < SCALE,
{
    let w = random_word();
    assert(w >> 11u64 < 0x20000000000000u64) by (bit_vector);
    w >> 11
}

/// The exact inside-circle test on coordinate numerators, boundary included.
pub fn is_inside_circle(a: u64, b: u64) -> (r: bool)
    requires
        a < SCALE,
        b < SCALE,
    ensures
        r == point_inside_circle(a as int, b as int),
{
    proof {
        assert((a as int * a as int) < ((SCALE as int) * (SCALE as int))) by (nonlinear_arith)
            requires
                0 <= a < SCALE as int,
        ;
        assert((b as int * b as int) < ((SCALE as int) * (SCALE as int))) by (nonlinear_arith)
            requires
                0 <= b < SCALE as int,
        ;
        assert((SCALE as int) * (SCALE as int) == SCALE_SQUARED as int) by (nonlinear_arith);
    }
    let aa = (a as u128) * (a as u128);
    let bb = (b as u128) * (b as u128);
    aa + bb <= SCALE_SQUARED
}

/// Run exactly `total` independent trials: each draws a point in the unit
/// square and counts it when it falls inside the quarter-circle. Always runs
/// all `total` trials; a `total` of zero runs none and yields `inside == 0`.
pub fn run_trials(total: u64) -> (r: Estimate)
    ensures
        r.total == total,
        r.inside <= r.total,
        r.wf(),
{
    let mut inside: u64 = 0;
    let mut done: u64 = 0;
    while done < total
        invariant
            inside <= done <= total,
        decreases total - done,
    {
        let a = random_coordinate();
        let b = random_coordinate();
        if is_inside_circle(a, b) {
            inside = inside + 1;
        }
        done = done + 1;
    }
    Estimate { inside, total }
}

/// Answer one estimation request: resolve the sample count from the cookie
/// and query parameter, then run that many trials.
pub fn monte_carlo(cookie: Option<&str>, query: Option<u64>) -> (r: Estimate)
    ensures
        r.total == resolved_total(cookie_view(cookie), query),
        r.inside <= r.total,
        r.wf(),
{
    let total = resolve_total(cookie, query);
    run_trials(total)
}

} // verus!
