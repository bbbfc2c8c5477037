//! The bookkeeping of the escape-time loop of one pixel.
//!
//! The host iterates the orbit of the pixel's point in its own arithmetic and
//! reports after each step what it saw. The monitor counts the steps, says
//! when the loop has to stop and when the point of comparison for the
//! periodicity check has to be renewed, and gives the verdict.

use vstd::prelude::*;
use crate::sample::Sample;

verus! {

/// Number of steps after which the point of comparison is renewed.
pub const SNAPSHOT_PERIOD: u32 = 20;

/// Where the loop of one pixel stands.
#[derive(Clone, Copy, Debug, PartialEq, Eq, Structural)]
pub enum OrbitPhase {
    /// The orbit is still being followed.
    Running,
    /// The point counts as not escaping: it lies in the main cardioid or in
    /// the period-2 bulb, its orbit repeated itself, or the cap was reached.
    Interior,
    /// The orbit left the disc of radius two.
    Escaped,
}

/// What the host has to do after a step of the orbit.
#[derive(Clone, Copy, Debug, PartialEq, Eq, Structural)]
pub enum OrbitStep {
    /// Go on.
    Continue,
    /// Go on, and take the current point as the new point of comparison.
    Snapshot,
    /// Stop: the verdict is in.
    Stop,
}

/// What a monitor holds, as mathematics.
pub struct OrbitView {
    pub max_iterations: u32,
    /// Steps of the orbit taken so far.
    pub iteration: u32,
    /// Steps taken since the point of comparison was last renewed.
    pub since_snapshot: u32,
    pub phase: OrbitPhase,
}

impl OrbitView {
    /// The invariant of a monitor: the count never passes the cap, the point
    /// of comparison is renewed at every multiple of the period, and an
    /// orbit counts as escaped only below the cap.
    pub open spec fn wf(self) -> bool {
        &&& self.iteration <= self.max_iterations
        &&& self.since_snapshot < SNAPSHOT_PERIOD
        &&& self.phase != OrbitPhase::Interior ==> self.since_snapshot == self.iteration % SNAPSHOT_PERIOD
        &&& self.phase == OrbitPhase::Escaped ==> self.iteration < self.max_iterations
    }

    /// The monitor at the start of a pixel. A point that lies in the main
    /// cardioid or in the period-2 bulb is settled at once.
    pub open spec fn started(max_iterations: u32, in_cardioid: bool, in_bulb: bool) -> OrbitView {
        OrbitView {
            max_iterations,
            iteration: 0,
            since_snapshot: 0,
            phase: if in_cardioid || in_bulb {
                OrbitPhase::Interior
            } else {
                OrbitPhase::Running
            },
        }
    }

    /// Whether another step is to be taken, given whether the current point
    /// of the orbit still lies within the disc of radius two.
    pub open spec fn proceeds(self, bounded: bool) -> bool {
        self.phase == OrbitPhase::Running && self.iteration < self.max_iterations && bounded
    }

    /// The monitor after the question whether to proceed: a running loop
    /// that has reached the cap is settled as interior, and one whose orbit
    /// is out of bounds before the cap as escaped.
    pub open spec fn checked(self, bounded: bool) -> OrbitView {
        if self.phase != OrbitPhase::Running {
            self
        } else if self.iteration >= self.max_iterations {
            OrbitView { phase: OrbitPhase::Interior, ..self }
        } else if !bounded {
            OrbitView { phase: OrbitPhase::Escaped, ..self }
        } else {
            self
        }
    }

    /// Whether a step can be counted: the loop runs and is below the cap.
    pub open spec fn can_advance(self) -> bool {
        self.phase == OrbitPhase::Running && self.iteration < self.max_iterations
    }

    /// The monitor after one step of the orbit, given whether the new point
    /// equals the point of comparison.
    pub open spec fn advanced(self, repeats: bool) -> OrbitView {
        if !self.can_advance() {
            self
        } else if repeats {
            OrbitView { iteration: (self.iteration + 1) as u32, phase: OrbitPhase::Interior, ..self }
        } else {
            OrbitView {
                iteration: (self.iteration + 1) as u32,
                since_snapshot: if self.since_snapshot + 1 == SNAPSHOT_PERIOD {
                    0
                } else {
                    (self.since_snapshot + 1) as u32
                },
                ..self
            }
        }
    }

    /// What the host is told after one step of the orbit.
    pub open spec fn step_of(self, repeats: bool) -> OrbitStep {
        if !self.can_advance() || repeats {
            OrbitStep::Stop
        } else if self.since_snapshot + 1 == SNAPSHOT_PERIOD {
            OrbitStep::Snapshot
        } else {
            OrbitStep::Continue
        }
    }

    /// The number of steps after which the orbit escaped, if it did.
    pub open spec fn escaped_after(self) -> Option<u32> {
        if self.phase == OrbitPhase::Escaped {
            Some(self.iteration)
        } else {
            None
        }
    }
}

/// A point in the main cardioid or in the period-2 bulb is interior from the
/// start: no step is taken for it, whatever the host reports, and it never
/// counts as escaped.
pub proof fn lemma_interior_without_iteration(max_iterations: u32, in_cardioid: bool, in_bulb: bool, bounded: bool)
    requires
        in_cardioid || in_bulb,
    ensures
        OrbitView::started(max_iterations, in_cardioid, in_bulb).phase == OrbitPhase::Interior,
        OrbitView::started(max_iterations, in_cardioid, in_bulb).iteration == 0,
        !OrbitView::started(max_iterations, in_cardioid, in_bulb).proceeds(bounded),
        OrbitView::started(max_iterations, in_cardioid, in_bulb).checked(bounded) == OrbitView::started(
            max_iterations,
            in_cardioid,
            in_bulb,
        ),
        OrbitView::started(max_iterations, in_cardioid, in_bulb).escaped_after() is None,
{
}

/// Counts the steps of one pixel's orbit and decides how its loop goes on.
pub struct OrbitMonitor {
    max_iterations: u32,
    iteration: u32,
    since_snapshot: u32,
    phase: OrbitPhase,
}

impl View for OrbitMonitor {
    type V = OrbitView;

    closed spec fn view(&self) -> OrbitView {
        OrbitView {
            max_iterations: self.max_iterations,
            iteration: self.iteration,
            since_snapshot: self.since_snapshot,
            phase: self.phase,
        }
    }
}

impl OrbitMonitor {
    /// Starts the loop of a pixel under the cap `max_iterations`, given
    /// whether its point lies in the main cardioid and whether it lies in
    /// the period-2 bulb. In either case the point is interior at once.
    pub fn start(max_iterations: u32, in_cardioid: bool, in_bulb: bool) -> (monitor: OrbitMonitor)
        ensures
            monitor@ == OrbitView::started(max_iterations, in_cardioid, in_bulb),
            monitor@.wf(),
    {
        OrbitMonitor {
            max_iterations,
            iteration: 0,
            since_snapshot: 0,
            phase: if in_cardioid || in_bulb {
                OrbitPhase::Interior
            } else {
                OrbitPhase::Running
            },
        }
    }

    /// Says whether another step of the orbit is to be taken, given whether
    /// the current point lies within the disc of radius two. The answer is
    /// no once the verdict is in, at the cap, and out of bounds; the last two
    /// settle the verdict.
    pub fn proceed(&mut self, bounded: bool) -> (go_on: bool)
        requires
            old(self)@.wf(),
        ensures
            go_on == old(self)@.proceeds(bounded),
            final(self)@ == old(self)@.checked(bounded),
            final(self)@.wf(),
    {
        match self.phase {
            OrbitPhase::Running => {
                if self.iteration >= self.max_iterations {
                    self.phase = OrbitPhase::Interior;
                    false
                } else if !bounded {
                    self.phase = OrbitPhase::Escaped;
                    false
                } else {
                    true
                }
            },
            OrbitPhase::Interior | OrbitPhase::Escaped => false,
        }
    }

    /// Counts one step of the orbit, given whether the new point equals the
    /// point of comparison. An orbit that repeats itself is settled as
    /// interior. Otherwise every `SNAPSHOT_PERIOD`-th step asks for the
    /// point of comparison to be renewed. Where no step can be counted,
    /// nothing changes.
    pub fn advance(&mut self, repeats: bool) -> (step: OrbitStep)
        requires
            old(self)@.wf(),
        ensures
            step == old(self)@.step_of(repeats),
            final(self)@ == old(self)@.advanced(repeats),
            final(self)@.wf(),
    {
        match self.phase {
            OrbitPhase::Running => {},
            OrbitPhase::Interior | OrbitPhase::Escaped => {
                return OrbitStep::Stop;
            },
        }
        if self.iteration >= self.max_iterations {
            return OrbitStep::Stop;
        }
        self.iteration = self.iteration + 1;
        if repeats {
            self.phase = OrbitPhase::Interior;
            return OrbitStep::Stop;
        }
        if self.since_snapshot + 1 == SNAPSHOT_PERIOD {
            self.since_snapshot = 0;
            OrbitStep::Snapshot
        } else {
            self.since_snapshot = self.since_snapshot + 1;
            OrbitStep::Continue
        }
    }

    /// Where the loop stands.
    pub fn phase(&self) -> (phase: OrbitPhase)
        ensures
            phase == self@.phase,
    {
        self.phase
    }

    /// Steps of the orbit taken so far.
    pub fn iteration(&self) -> (count: u32)
        ensures
            count == self@.iteration,
    {
        self.iteration
    }

    /// The number of steps after which the orbit escaped, or `None` while
    /// the loop runs and for an interior point.
    pub fn escaped_after(&self) -> (steps: Option<u32>)
        ensures
            steps == self@.escaped_after(),
    {
        match self.phase {
            OrbitPhase::Escaped => Some(self.iteration),
            OrbitPhase::Running | OrbitPhase::Interior => None,
        }
    }
}

/// The step whose point the point after step `n` is compared with: the last
/// multiple of the period before `n`.
pub open spec fn comparison_index(n: int) -> int {
    ((n - 1) / (SNAPSHOT_PERIOD as int)) * (SNAPSHOT_PERIOD as int)
}

/// Whether the loop can have gone from point `i` of `orbit` to the next: the
/// point was found in bounds, and `step` gave the next point for it.
pub open spec fn linked<Z, S: Fn(Z) -> Z, B: Fn(Z) -> bool>(orbit: Seq<Z>, i: int, step: S, bounded: B) -> bool {
    call_ensures(bounded, (orbit[i],), true) && call_ensures(step, (orbit[i],), orbit[i + 1])
}

/// Whether point `i` of `orbit` was found to differ from its point of comparison.
pub open spec fn distinct<Z, E: Fn(Z, Z) -> bool>(orbit: Seq<Z>, i: int, same: E) -> bool {
    call_ensures(same, (orbit[i], orbit[comparison_index(i)]), false)
}

/// Whether `orbit` is an orbit that the loop can have followed from `origin`:
/// each point is what `step` gave for the one before, every point but the
/// last was found in bounds, and no point between the first and the last was
/// found equal to its point of comparison.
pub open spec fn followed<Z, S: Fn(Z) -> Z, B: Fn(Z) -> bool, E: Fn(Z, Z) -> bool>(
    orbit: Seq<Z>,
    origin: Z,
    step: S,
    bounded: B,
    same: E,
) -> bool {
    &&& orbit.len() >= 1
    &&& orbit[0] == origin
    &&& forall|i: int| 0 <= i < orbit.len() - 1 ==> #[trigger] linked(orbit, i, step, bounded)
    &&& forall|i: int| 1 <= i < orbit.len() - 1 ==> #[trigger] distinct(orbit, i, same)
}

/// Whether the verdict `monitor` with the last point `last` is what the loop
/// gives for the orbit `orbit`.
///
/// A point known to be interior from the start has the orbit of its origin
/// alone. Otherwise the loop has stopped at the first point that was out of
/// bounds, which makes the orbit escaped if the cap was not yet reached, at
/// the first point that equalled its point of comparison, or at the cap.
pub open spec fn settled<Z, B: Fn(Z) -> bool, E: Fn(Z, Z) -> bool>(
    monitor: OrbitView,
    last: Z,
    orbit: Seq<Z>,
    known_interior: bool,
    bounded: B,
    same: E,
) -> bool {
    let n = monitor.iteration as int;
    &&& orbit.len() == n + 1
    &&& last == orbit[n]
    &&& monitor.wf()
    &&& monitor.phase != OrbitPhase::Running
    &&& known_interior ==> n == 0 && monitor.phase == OrbitPhase::Interior
    &&& monitor.phase == OrbitPhase::Escaped ==> call_ensures(bounded, (last,), false)
    &&& !known_interior && monitor.phase == OrbitPhase::Interior ==> {
        ||| n >= 1 && call_ensures(same, (last, orbit[comparison_index(n)]), true)
        ||| n == monitor.max_iterations && (n >= 1 ==> call_ensures(
            same,
            (last, orbit[comparison_index(n)]),
            false,
        ))
    }
}

/// The orbit of the origin alone has been followed.
proof fn lemma_followed_start<Z, S: Fn(Z) -> Z, B: Fn(Z) -> bool, E: Fn(Z, Z) -> bool>(
    origin: Z,
    step: S,
    bounded: B,
    same: E,
)
    ensures
        followed(seq![origin], origin, step, bounded, same),
{
}

/// An orbit that has been followed stays so when the loop takes one more
/// step from its last point, which was in bounds and did not repeat.
proof fn lemma_followed_push<Z, S: Fn(Z) -> Z, B: Fn(Z) -> bool, E: Fn(Z, Z) -> bool>(
    orbit: Seq<Z>,
    origin: Z,
    step: S,
    bounded: B,
    same: E,
    next: Z,
)
    requires
        followed(orbit, origin, step, bounded, same),
        call_ensures(bounded, (orbit[orbit.len() - 1],), true),
        call_ensures(step, (orbit[orbit.len() - 1],), next),
        orbit.len() >= 2 ==> call_ensures(
            same,
            (orbit[orbit.len() - 1], orbit[comparison_index(orbit.len() - 1)]),
            false,
        ),
    ensures
        followed(orbit.push(next), origin, step, bounded, same),
{
    let longer = orbit.push(next);
    let last = orbit.len() - 1;
    assert forall|i: int| 0 <= i < longer.len() - 1 implies #[trigger] linked(longer, i, step, bounded) by {
        if i < last {
            assert(linked(orbit, i, step, bounded));
        }
    }
    assert forall|i: int| 1 <= i < longer.len() - 1 implies #[trigger] distinct(longer, i, same) by {
        lemma_comparison_index(i);
        if i < last {
            assert(distinct(orbit, i, same));
        }
    }
}

/// The point of comparison of a step lies before the step, and moves to a
/// step exactly when that step is a multiple of the period.
proof fn lemma_comparison_index(n: int)
    requires
        n >= 1,
    ensures
        0 <= comparison_index(n) < n,
        comparison_index(n + 1) == if n % (SNAPSHOT_PERIOD as int) == 0 {
            n
        } else {
            comparison_index(n)
        },
        comparison_index(1) == 0,
{
}

/// Follows the orbit of one pixel's point to its verdict.
///
/// `step` gives the next point of the orbit, `bounded` says whether a point
/// lies within the disc of radius two, and `same` whether two points are
/// equal. The loop starts at `origin`, which is also the first point of
/// comparison, and takes at most `max_iterations` steps. A point that lies in
/// the main cardioid or in the period-2 bulb is interior without a step and
/// without a call. Gives the verdict and the last point of the orbit.
pub fn escape_time<Z: Copy, S: Fn(Z) -> Z, B: Fn(Z) -> bool, E: Fn(Z, Z) -> bool>(
    max_iterations: u32,
    in_cardioid: bool,
    in_bulb: bool,
    origin: Z,
    step: &S,
    bounded: &B,
    same: &E,
) -> (outcome: (OrbitMonitor, Z))
    requires
        forall|z: Z| call_requires(step, (z,)),
        forall|z: Z| call_requires(bounded, (z,)),
        forall|a: Z, b: Z| call_requires(same, (a, b)),
    ensures
        outcome.0@.max_iterations == max_iterations,
        in_cardioid || in_bulb ==> outcome.0@ == OrbitView::started(max_iterations, in_cardioid, in_bulb)
            && outcome.1 == origin,
        exists|orbit: Seq<Z>|
            followed(orbit, origin, *step, *bounded, *same) && settled(
                outcome.0@,
                outcome.1,
                orbit,
                in_cardioid || in_bulb,
                *bounded,
                *same,
            ),
{
    let mut monitor: OrbitMonitor = OrbitMonitor::start(max_iterations, in_cardioid, in_bulb);
    let mut point: Z = origin;
    let mut reference: Z = origin;
    let ghost mut orbit: Seq<Z> = seq![origin];
    let ghost known_interior = in_cardioid || in_bulb;
    proof {
        lemma_followed_start(origin, *step, *bounded, *same);
        lemma_comparison_index(1);
    }
    let mut go_on: bool = match monitor.phase() {
        OrbitPhase::Running => {
            let in_bounds: bool = bounded(point);
            monitor.proceed(in_bounds)
        },
        OrbitPhase::Interior | OrbitPhase::Escaped => false,
    };
    while go_on
        invariant
            forall|z: Z| call_requires(step, (z,)),
            forall|z: Z| call_requires(bounded, (z,)),
            forall|a: Z, b: Z| call_requires(same, (a, b)),
            monitor@.wf(),
            monitor@.max_iterations == max_iterations,
            known_interior == (in_cardioid || in_bulb),
            known_interior ==> monitor@ == OrbitView::started(max_iterations, in_cardioid, in_bulb) && point
                == origin && !go_on,
            orbit.len() == monitor@.iteration + 1,
            orbit[monitor@.iteration as int] == point,
            followed(orbit, origin, *step, *bounded, *same),
            go_on ==> monitor@.phase == OrbitPhase::Running && monitor@.iteration < max_iterations
                && call_ensures(bounded, (point,), true),
            go_on && monitor@.iteration >= 1 ==> call_ensures(
                same,
                (point, orbit[comparison_index(monitor@.iteration as int)]),
                false,
            ),
            go_on ==> reference == orbit[comparison_index(monitor@.iteration + 1)],
            !go_on ==> settled(monitor@, point, orbit, known_interior, *bounded, *same),
        decreases max_iterations - monitor@.iteration, go_on as int,
    {
        let next: Z = step(point);
        let repeats: bool = same(next, reference);
        let ghost before = orbit;
        let ghost taken = monitor@.iteration as int;
        proof {
            lemma_followed_push(before, origin, *step, *bounded, *same, next);
            orbit = before.push(next);
            lemma_comparison_index(taken + 1);
            assert(orbit[comparison_index(taken + 1)] == before[comparison_index(taken + 1)]);
            assert(orbit[taken + 1] == next);
        }
        let told: OrbitStep = monitor.advance(repeats);
        point = next;
        match told {
            OrbitStep::Stop => {
                go_on = false;
            },
            OrbitStep::Snapshot => {
                reference = next;
                let in_bounds: bool = bounded(point);
                go_on = monitor.proceed(in_bounds);
            },
            OrbitStep::Continue => {
                let in_bounds: bool = bounded(point);
                go_on = monitor.proceed(in_bounds);
            },
        }
    }
    (monitor, point)
}

/// Whether `sample` is what the evaluation of a pixel can give: there is an
/// orbit that the loop has followed to a verdict, and the sample is
/// `Interior` for an interior verdict, and for an escaped orbit the smoothed
/// count of its steps with the term that `renormalise` gave for its last
/// point.
pub open spec fn evaluated<Z, S: Fn(Z) -> Z, B: Fn(Z) -> bool, E: Fn(Z, Z) -> bool, N: Fn(Z) -> u32>(
    sample: Sample,
    max_iterations: u32,
    known_interior: bool,
    origin: Z,
    step: S,
    bounded: B,
    same: E,
    renormalise: N,
) -> bool {
    exists|orbit: Seq<Z>, monitor: OrbitView|
        {
            &&& monitor.max_iterations == max_iterations
            &&& #[trigger] followed(orbit, origin, step, bounded, same)
            &&& #[trigger] settled(monitor, orbit[monitor.iteration as int], orbit, known_interior, bounded, same)
            &&& monitor.phase == OrbitPhase::Interior ==> sample == Sample::Interior
            &&& monitor.phase == OrbitPhase::Escaped ==> exists|nu: u32|
                #[trigger] call_ensures(renormalise, (orbit[monitor.iteration as int],), nu) && sample
                    == Sample::spec_smoothed(monitor.iteration, nu, max_iterations)
        }
}

/// Evaluates one pixel: the smoothed count of the steps after which the
/// orbit of its point escapes, or `Interior`.
///
/// A point that lies in the main cardioid or in the period-2 bulb is
/// `Interior` without a step and without a call. Otherwise the orbit is
/// followed from `origin` as `escape_time` does. An orbit that repeats itself
/// or reaches the cap `max_iterations` is `Interior`. For an orbit that
/// escapes, `renormalise` is asked for the renormalising term of the last
/// point, in units of `1 / 65536`, and the count is smoothed with it.
pub fn test_pixel<Z: Copy, S: Fn(Z) -> Z, B: Fn(Z) -> bool, E: Fn(Z, Z) -> bool, N: Fn(Z) -> u32>(
    max_iterations: u32,
    in_cardioid: bool,
    in_bulb: bool,
    origin: Z,
    step: &S,
    bounded: &B,
    same: &E,
    renormalise: &N,
) -> (sample: Sample)
    requires
        forall|z: Z| call_requires(step, (z,)),
        forall|z: Z| call_requires(bounded, (z,)),
        forall|a: Z, b: Z| call_requires(same, (a, b)),
        forall|z: Z| call_requires(renormalise, (z,)),
    ensures
        in_cardioid || in_bulb ==> sample == Sample::Interior,
        sample.within(max_iterations),
        evaluated(sample, max_iterations, in_cardioid || in_bulb, origin, *step, *bounded, *same, *renormalise),
{
    let (monitor, last) = escape_time(max_iterations, in_cardioid, in_bulb, origin, step, bounded, same);
    let ghost orbit: Seq<Z> = choose|orbit: Seq<Z>|
        followed(orbit, origin, *step, *bounded, *same) && settled(
            monitor@,
            last,
            orbit,
            in_cardioid || in_bulb,
            *bounded,
            *same,
        );
    match monitor.escaped_after() {
        None => Sample::Interior,
        Some(iterations) => {
            let nu: u32 = renormalise(last);
            let sample: Sample = Sample::smoothed(iterations, nu, max_iterations);
            assert(call_ensures(*renormalise, (orbit[monitor@.iteration as int],), nu));
            sample
        },
    }
}

} // verus!
