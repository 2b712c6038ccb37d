//! The escape-time evaluator: the decisions taken at each step of an orbit.
use vstd::prelude::*;

verus! {

/// The number of steps after which an orbit that has not escaped counts as
/// inside the set.
pub const MAX_ITERATIONS: u8 = 200;

/// The two fractals this library draws.
#[derive(Clone, Copy, Debug, PartialEq, Eq, Structural)]
pub enum FractalType {
    /// `z <- z^2 + c` from the point itself, with a fixed `c`.
    Julia,
    /// `v <- v^2 + z` from `0`, with the point itself as constant.
    Mandelbrot,
}

/// How the magnitude of the iterated value compares with the escape radius 2.
#[derive(Clone, Copy, Debug, PartialEq, Eq, Structural)]
pub enum Radius {
    Inside,
    On,
    Outside,
}

/// What the caller observed of one step of an orbit: where the new value
/// stands against the escape radius, and `floor(log2(ln(|v|)))` of its
/// magnitude, clamped to `0..=255`.
#[derive(Clone, Copy, Debug, PartialEq, Eq, Structural)]
pub struct Sample {
    pub radius: Radius,
    pub log_term: u8,
}

/// What the evaluator decides after one step.
#[derive(Clone, Copy, Debug, PartialEq, Eq, Structural)]
pub enum Step {
    /// Go on with the given step index.
    Continue(u8),
    /// The orbit is decided; this is its brightness byte.
    Done(u8),
}

/// Whether a value at `radius` has escaped: on or beyond the radius for
/// Julia, strictly beyond it for Mandelbrot.
pub open spec fn escapes(kind: FractalType, radius: Radius) -> bool {
    match kind {
        FractalType::Julia => radius != Radius::Inside,
        FractalType::Mandelbrot => radius == Radius::Outside,
    }
}

/// The bias added to the escape step.
pub open spec fn offset(kind: FractalType) -> int {
    match kind {
        FractalType::Julia => 8,
        FractalType::Mandelbrot => 1,
    }
}

/// The byte of a point whose orbit never escapes.
pub open spec fn sentinel(kind: FractalType) -> u8 {
    match kind {
        FractalType::Julia => 0,
        FractalType::Mandelbrot => 255,
    }
}

/// `n + offset - log_term`, clamped below at 0.
pub open spec fn smoothed(kind: FractalType, n: int, log_term: int) -> int {
    if n + offset(kind) >= log_term {
        n + offset(kind) - log_term
    } else {
        0
    }
}

/// The byte of an orbit whose observed steps from `n` on are `orbit[n..]`:
/// the smoothed value at the first escaping step, or the sentinel when none
/// escapes before the cap.
pub open spec fn escape_value_from(kind: FractalType, orbit: Seq<Sample>, n: nat) -> int
    decreases MAX_ITERATIONS - n,
{
    if n >= MAX_ITERATIONS || n >= orbit.len() {
        sentinel(kind) as int
    } else if escapes(kind, orbit[n as int].radius) {
        smoothed(kind, n as int, orbit[n as int].log_term as int)
    } else {
        escape_value_from(kind, orbit, n + 1)
    }
}

/// The byte of an orbit observed over its first `MAX_ITERATIONS` steps.
pub open spec fn escape_value(kind: FractalType, orbit: Seq<Sample>) -> int {
    escape_value_from(kind, orbit, 0)
}

impl FractalType {
    /// Whether a value at `radius` has escaped for this fractal.
    pub fn escapes(&self, radius: Radius) -> (r: bool)
        ensures
            r == escapes(*self, radius),
    {
        match self {
            FractalType::Julia => !matches!(radius, Radius::Inside),
            FractalType::Mandelbrot => matches!(radius, Radius::Outside),
        }
    }

    /// The bias added to the escape step.
    pub fn offset(&self) -> (r: u8)
        ensures
            r == offset(*self),
    {
        match self {
            FractalType::Julia => 8,
            FractalType::Mandelbrot => 1,
        }
    }

    /// The byte of a point that stays inside the set.
    pub fn sentinel(&self) -> (r: u8)
        ensures
            r == sentinel(*self),
    {
        match self {
            FractalType::Julia => 0,
            FractalType::Mandelbrot => 255,
        }
    }
}

/// The smoothed escape byte for an escape at step `n`: `n + offset` minus the
/// log term, clamped at 0 rather than wrapped.
pub fn smooth_escape(kind: FractalType, n: u8, log_term: u8) -> (r: u8)
    requires
        n < MAX_ITERATIONS,
    ensures
        r == smoothed(kind, n as int, log_term as int),
{
    let base: u8 = n + kind.offset();
    base.saturating_sub(log_term)
}

/// Decides one step of an orbit: `n` is the 0-based index of the step and
/// `sample` what was observed of the value it produced.
///
/// An escape gives its smoothed byte; a step that reaches the cap without
/// escape gives the sentinel; any other step asks for step `n + 1`.
pub fn escape_step(kind: FractalType, n: u8, sample: Sample) -> (r: Step)
    requires
        n < MAX_ITERATIONS,
    ensures
        escapes(kind, sample.radius) ==> r == Step::Done(
            smoothed(kind, n as int, sample.log_term as int) as u8,
        ),
        !escapes(kind, sample.radius) && n + 1 == MAX_ITERATIONS ==> r == Step::Done(
            sentinel(kind),
        ),
        !escapes(kind, sample.radius) && n + 1 < MAX_ITERATIONS ==> r == Step::Continue(
            (n + 1) as u8,
        ),
{
    if kind.escapes(sample.radius) {
        Step::Done(smooth_escape(kind, n, sample.log_term))
    } else if n + 1 == MAX_ITERATIONS {
        Step::Done(kind.sentinel())
    } else {
        Step::Continue(n + 1)
    }
}

/// The byte of a recorded orbit: `orbit[n]` is what was observed of the value
/// produced at step `n`. Steps past the cap are not read; an orbit that ends
/// before it escapes counts as inside the set.
pub fn evaluate_orbit(kind: FractalType, orbit: &Vec<Sample>) -> (r: u8)
    ensures
        r == escape_value(kind, orbit@),
{
    let mut n: usize = 0;
    while n < orbit.len()
        invariant
            n <= orbit.len(),
            n < MAX_ITERATIONS,
            escape_value(kind, orbit@) == escape_value_from(kind, orbit@, n as nat),
        decreases orbit.len() - n,
    {
        proof {
            let m = (n + 1) as nat;
            assert(m >= MAX_ITERATIONS ==> escape_value_from(kind, orbit@, m) == sentinel(kind));
            assert(0 <= smoothed(kind, n as int, orbit@[n as int].log_term as int) <= 255);
        }
        match escape_step(kind, n as u8, orbit[n]) {
            Step::Done(b) => {
                return b;
            },
            Step::Continue(_) => {},
        }
        n = n + 1;
    }
    kind.sentinel()
}

proof fn lemma_inside_from(kind: FractalType, orbit: Seq<Sample>, n: nat)
    requires
        n <= MAX_ITERATIONS,
        forall|k: int| n <= k < MAX_ITERATIONS && k < orbit.len() ==> !escapes(kind, #[trigger] orbit[k].radius),
    ensures
        escape_value_from(kind, orbit, n) == sentinel(kind),
    decreases MAX_ITERATIONS - n,
{
    if n < MAX_ITERATIONS && n < orbit.len() {
        lemma_inside_from(kind, orbit, n + 1);
    }
}

/// An orbit that never escapes within the cap gives the sentinel: 255, the
/// brightest byte, for Mandelbrot (0 for Julia).
pub proof fn never_escaping_orbit_gives_sentinel(kind: FractalType, orbit: Seq<Sample>)
    requires
        forall|k: int| 0 <= k < MAX_ITERATIONS && k < orbit.len() ==> !escapes(kind, #[trigger] orbit[k].radius),
    ensures
        escape_value(kind, orbit) == sentinel(kind),
        kind == FractalType::Mandelbrot ==> escape_value(kind, orbit) == 255,
{
    lemma_inside_from(kind, orbit, 0);
}

/// A Julia orbit whose first value lies on or beyond the radius escapes at
/// step 0: its byte is `8 - log_term`, clamped to `0..=8`.
pub proof fn julia_first_step_escape(orbit: Seq<Sample>)
    requires
        orbit.len() > 0,
        orbit[0].radius != Radius::Inside,
    ensures
        escape_value(FractalType::Julia, orbit) == smoothed(
            FractalType::Julia,
            0,
            orbit[0].log_term as int,
        ),
        0 <= escape_value(FractalType::Julia, orbit) <= 8,
{
}

} // verus!
