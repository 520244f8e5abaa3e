//! Animation clock and easing shared by the slide and the context drawer.
//!
//! A transition runs for [`ANIMATION_DURATION`] microseconds. Its linear
//! position is an integer in `0..=ANIMATION_DURATION`, and the eased progress
//! shown on screen is the smootherstep of that position, kept exact as a
//! numerator over [`PROGRESS_SCALE`] (`ANIMATION_DURATION` to the fifth power).

use vstd::prelude::*;

verus! {

/// How long a slide transition lasts, in microseconds.
pub const ANIMATION_DURATION: u64 = 200_000;

/// The denominator of eased progress: `ANIMATION_DURATION` to the fifth power.
pub const PROGRESS_SCALE: u128 = 320_000_000_000_000_000_000_000_000;

/// The largest duration whose fifth power the easing arithmetic can hold.
pub const MAX_EASING_DURATION: u64 = 0x100_0000;

pub open spec fn pow5(d: int) -> int {
    d * d * d * d * d
}

/// The smootherstep polynomial `6t^5 - 15t^4 d + 10t^3 d^2`, that is
/// `d^5 * smootherstep(t / d)`.
pub open spec fn smootherstep_poly(t: int, d: int) -> int {
    6 * (t * t * t * t * t) - 15 * (t * t * t * t * d) + 10 * (t * t * t * d * d)
}

/// Eased value of the position `t` out of `d`, scaled by `d^5` and clamped
/// to `0..=d^5`, where a position past the end counts as the end.
pub open spec fn smootherstep_spec(t: int, d: int) -> int {
    if t >= d {
        pow5(d)
    } else if smootherstep_poly(t, d) > pow5(d) {
        pow5(d)
    } else if smootherstep_poly(t, d) < 0 {
        0
    } else {
        smootherstep_poly(t, d)
    }
}

proof fn lemma_quadratic_nonneg(t: int, d: int)
    ensures
        6 * (t * t) + 10 * (d * d) - 15 * (t * d) >= 0,
{
    let e = 12 * t - 15 * d;
    assert(e * e >= 0) by (nonlinear_arith);
    assert(d * d >= 0) by (nonlinear_arith);
    assert(24 * (6 * (t * t) + 10 * (d * d) - 15 * (t * d)) == e * e + 15 * (d * d))
        by (nonlinear_arith)
        requires
            e == 12 * t - 15 * d,
    ;
}

proof fn lemma_poly_factored(t: int, d: int)
    ensures
        smootherstep_poly(t, d) == (t * t * t) * (6 * (t * t) + 10 * (d * d) - 15 * (t * d)),
{
    let x = t * t * t;
    assert(x * (t * t) == t * t * t * t * t) by (nonlinear_arith)
        requires
            x == t * t * t,
    ;
    assert(x * (d * d) == t * t * t * d * d) by (nonlinear_arith)
        requires
            x == t * t * t,
    ;
    assert(x * (t * d) == t * t * t * t * d) by (nonlinear_arith)
        requires
            x == t * t * t,
    ;
    assert(x * (6 * (t * t) + 10 * (d * d) - 15 * (t * d)) == 6 * (x * (t * t)) + 10 * (x * (d * d))
        - 15 * (x * (t * d))) by (nonlinear_arith);
}

/// The polynomial is never negative on positions, so the lower clamp never
/// applies there.
pub proof fn lemma_poly_nonneg(t: int, d: int)
    requires
        0 <= t,
    ensures
        0 <= smootherstep_poly(t, d),
{
    lemma_quadratic_nonneg(t, d);
    lemma_poly_factored(t, d);
    let q = 6 * (t * t) + 10 * (d * d) - 15 * (t * d);
    assert((t * t * t) * q >= 0) by (nonlinear_arith)
        requires
            0 <= t,
            0 <= q,
    ;
}

/// The eased value starts at zero, ends at the whole, and stays in between.
pub proof fn lemma_smootherstep_bounds(t: int, d: int)
    requires
        0 <= t,
        0 <= d,
    ensures
        smootherstep_spec(0, d) == 0,
        smootherstep_spec(d, d) == pow5(d),
        0 <= smootherstep_spec(t, d) <= pow5(d),
{
    assert(pow5(d) >= 0) by (nonlinear_arith)
        requires
            0 <= d,
    ;
    assert(smootherstep_poly(0, d) == 0) by (nonlinear_arith);
}

proof fn lemma_pow5_fits(d: int)
    requires
        0 <= d <= 0x100_0000,
    ensures
        d * d <= 0x1_0000_0000_0000,
        d * d * d <= 0x1_0000_0000_0000_0000_00,
        d * d * d * d <= 0x1_0000_0000_0000_0000_0000_0000,
        d * d * d * d * d <= 0x1_0000_0000_0000_0000_0000_0000_0000_00,
{
    assert(d * d <= 0x1_0000_0000_0000) by (nonlinear_arith)
        requires
            0 <= d <= 0x100_0000,
    ;
    assert(d * d * d <= 0x1_0000_0000_0000_0000_00) by (nonlinear_arith)
        requires
            0 <= d <= 0x100_0000,
            d * d <= 0x1_0000_0000_0000,
    ;
    assert(d * d * d * d <= 0x1_0000_0000_0000_0000_0000_0000) by (nonlinear_arith)
        requires
            0 <= d <= 0x100_0000,
            0 <= d * d * d <= 0x1_0000_0000_0000_0000_00,
    ;
    assert(d * d * d * d * d <= 0x1_0000_0000_0000_0000_0000_0000_0000_00) by (nonlinear_arith)
        requires
            0 <= d <= 0x100_0000,
            0 <= d * d * d * d <= 0x1_0000_0000_0000_0000_0000_0000,
    ;
}

/// Smootherstep of the position `t` out of `d`, as a numerator over `d^5`.
pub fn smootherstep(t: u64, d: u64) -> (r: u128)
    requires
        d <= MAX_EASING_DURATION,
    ensures
        r == smootherstep_spec(t as int, d as int),
{
    let dd = d as u128;
    proof {
        lemma_pow5_fits(dd as int);
    }
    let whole = dd * dd * dd * dd * dd;
    if t >= d {
        return whole;
    }
    let tt = t as u128;
    proof {
        lemma_quadratic_nonneg(tt as int, dd as int);
        lemma_poly_factored(tt as int, dd as int);
        lemma_poly_nonneg(tt as int, dd as int);
        assert(tt * tt <= dd * dd && tt * dd <= dd * dd) by (nonlinear_arith)
            requires
                tt < dd,
        ;
    }
    let q = 6 * (tt * tt) + 10 * (dd * dd) - 15 * (tt * dd);
    proof {
        assert(tt * tt * tt <= 0x1_0000_0000_0000_0000_00 && (tt * tt * tt) * q
            <= 0x1_0000_0000_0000_0000_00 * 0x10_0000_0000_0000) by (nonlinear_arith)
            requires
                tt < 0x100_0000,
                q <= 16 * 0x1_0000_0000_0000,
        ;
    }
    let eased = (tt * tt * tt) * q;
    if eased > whole {
        whole
    } else {
        eased
    }
}

/// Linear position of the clock that was last (re)started at `last`, at
/// time `now`, clamped to `0..=d`; a clock that never started counts as
/// finished. A start may lie before the clock's zero.
pub open spec fn position(last: Option<i128>, d: int, now: int) -> int {
    match last {
        None => d,
        Some(start) => if now - start >= d {
            d
        } else if now <= start {
            0
        } else {
            now - start
        },
    }
}

/// Position towards `forward`: the position itself, or what is left of it.
pub open spec fn towards(last: Option<i128>, d: int, forward: bool, now: int) -> int {
    if forward {
        position(last, d, now)
    } else {
        d - position(last, d, now)
    }
}

/// The clock after a change of direction at `now`: it is moved back by what
/// was left of the running transition, so that the position it shows in the
/// new direction is the position it showed in the old one.
pub open spec fn changed_spec(last: Option<i128>, d: int, now: u64) -> Option<i128> {
    Some((now - (d - position(last, d, now as int))) as i128)
}

/// The clock of a transition: when it last changed direction, if ever, in
/// clock time; that start may lie before the clock's zero.
pub struct State {
    last_change: Option<i128>,
}

impl View for State {
    type V = Option<i128>;

    closed spec fn view(&self) -> Option<i128> {
        self.last_change
    }
}

impl State {
    /// A clock that has never started.
    pub fn new() -> (s: Self)
        ensures
            s@ is None,
    {
        State { last_change: None }
    }

    /// Linear position towards `forward` at `now`, out of `d`.
    pub fn t(&self, d: u64, forward: bool, now: u64) -> (r: u64)
        ensures
            r == towards(self@, d as int, forward, now as int),
            r <= d,
            // while the transition runs, the position is the time since its start
            self@ matches Some(start) ==> (start <= now && now - start <= d ==> r == if forward {
                now - start
            } else {
                d - (now - start)
            }),
    {
        let n = now as i128;
        let p = match self.last_change {
            None => d,
            Some(start) => if n <= start {
                0
            } else if start <= n - d as i128 {
                d
            } else {
                (n - start) as u64
            },
        };
        if forward {
            p
        } else {
            d - p
        }
    }

    /// Restarts the clock in the opposite direction at `now`.
    pub fn changed(&mut self, d: u64, now: u64)
        ensures
            final(self)@ == changed_spec(old(self)@, d as int, now),
    {
        let back = self.t(d, false, now);
        self.last_change = Some(now as i128 - back as i128);
    }
}

/// What a slide or drawer animation remembers from one layout to the next:
/// its clock, the state it moves towards, whether a transition is running,
/// and the last redraw for which it asked for a new layout.
pub struct AnimationView {
    pub clock: Option<i128>,
    pub target: bool,
    pub active: bool,
    pub last_layout_request: Option<u64>,
}

impl AnimationView {
    /// At rest the clock is stopped.
    pub open spec fn wf(self) -> bool {
        !self.active ==> self.clock is None
    }

    /// A closed animation at rest that has never asked for a layout.
    pub open spec fn initial() -> AnimationView {
        AnimationView { clock: None, target: false, active: false, last_layout_request: None }
    }
}

/// The eased progress at which `target` rests: fully open or hidden.
pub open spec fn resting(target: bool) -> int {
    if target {
        PROGRESS_SCALE as int
    } else {
        0
    }
}

/// Eased progress of the running transition at `now`, towards its target.
pub open spec fn eased(clock: Option<i128>, target: bool, now: u64) -> int {
    smootherstep_spec(towards(clock, ANIMATION_DURATION as int, target, now as int), ANIMATION_DURATION as int)
}

/// Whether the running transition has reached its target at `now`.
pub open spec fn finished(clock: Option<i128>, target: bool, now: u64) -> bool {
    let t = towards(clock, ANIMATION_DURATION as int, target, now as int);
    (target && t >= ANIMATION_DURATION) || (!target && t <= 0)
}

/// The animation after it turned towards `target` at `now` while animating:
/// a running transition is reversed in place, one at rest starts anew.
pub open spec fn turned(v: AnimationView, target: bool, now: u64) -> AnimationView {
    let clock = if v.active {
        v.clock
    } else {
        None
    };
    AnimationView {
        clock: changed_spec(clock, ANIMATION_DURATION as int, now),
        target,
        active: true,
        ..v
    }
}

/// Reading the progress of `v` at `now`: at rest it is the resting progress
/// of `target`; otherwise the eased progress, and a transition that has
/// reached its target comes to rest.
pub open spec fn sampled(v: AnimationView, target: bool, now: u64) -> (AnimationView, int) {
    if !v.active {
        (v, resting(target))
    } else if finished(v.clock, v.target, now) {
        (AnimationView { clock: None, active: false, ..v }, eased(v.clock, v.target, now))
    } else {
        (v, eased(v.clock, v.target, now))
    }
}

/// Asking whether the redraw `redraw` needs a new layout: only the first
/// time it is asked, and the redraw is remembered.
pub open spec fn layout_requested(v: AnimationView, redraw: u64) -> (bool, AnimationView) {
    (v.last_layout_request != Some(redraw), AnimationView { last_layout_request: Some(redraw), ..v })
}

/// What a slide does when a redraw is requested: keep redrawing while a
/// transition runs, and lay out again once per redraw.
pub struct RedrawActions {
    pub request_redraw: bool,
    pub invalidate_layout: bool,
}

/// The actions and the animation after the redraw `redraw` was requested.
pub open spec fn redraw_spec(v: AnimationView, redraw: u64) -> (RedrawActions, AnimationView) {
    if v.active {
        let (relayout, next) = layout_requested(v, redraw);
        (RedrawActions { request_redraw: true, invalidate_layout: relayout }, next)
    } else {
        (RedrawActions { request_redraw: false, invalidate_layout: false }, v)
    }
}

pub proof fn lemma_scale()
    ensures
        pow5(ANIMATION_DURATION as int) == PROGRESS_SCALE,
        ANIMATION_DURATION <= MAX_EASING_DURATION,
{
    assert(200_000int * 200_000int * 200_000int * 200_000int * 200_000int
        == 320_000_000_000_000_000_000_000_000int) by (nonlinear_arith);
}

/// Eased progress never leaves `0..=PROGRESS_SCALE`.
pub proof fn lemma_eased_in_range(clock: Option<i128>, target: bool, now: u64)
    ensures
        0 <= eased(clock, target, now) <= PROGRESS_SCALE,
{
    lemma_scale();
    lemma_smootherstep_bounds(
        towards(clock, ANIMATION_DURATION as int, target, now as int),
        ANIMATION_DURATION as int,
    );
    assert(0 <= towards(clock, ANIMATION_DURATION as int, target, now as int));
}

/// Sampling keeps the progress within range and the animation well formed.
pub proof fn lemma_sampled(v: AnimationView, target: bool, now: u64)
    ensures
        0 <= sampled(v, target, now).1 <= PROGRESS_SCALE,
        v.wf() ==> sampled(v, target, now).0.wf(),
        sampled(v, target, now).0.target == v.target,
        sampled(v, target, now).0.last_layout_request == v.last_layout_request,
{
    lemma_eased_in_range(v.clock, v.target, now);
}

/// Turning a running transition around at `now` keeps the position it shows:
/// the eased progress towards the new target equals the eased progress
/// towards the old one.
pub proof fn lemma_turn_keeps_position(v: AnimationView, now: u64)
    requires
        v.active,
    ensures
        towards(turned(v, !v.target, now).clock, ANIMATION_DURATION as int, !v.target, now as int)
            == towards(v.clock, ANIMATION_DURATION as int, v.target, now as int),
        eased(turned(v, !v.target, now).clock, !v.target, now) == eased(v.clock, v.target, now),
{
}

/// A transition started from rest at `now` shows the position it rests at:
/// hidden when opening, fully open when closing; it keeps running.
pub proof fn lemma_start_from_rest(v: AnimationView, target: bool, now: u64)
    requires
        !v.active,
    ensures
        sampled(turned(v, target, now), target, now) == (
            AnimationView { clock: Some(now as i128), target, active: true, ..v },
            resting(!target),
        ),
{
    lemma_scale();
    lemma_smootherstep_bounds(0, ANIMATION_DURATION as int);
}

/// A transition that has run its full duration comes to rest at its target.
pub proof fn lemma_finish(v: AnimationView, now: u64)
    requires
        v.active,
        position(v.clock, ANIMATION_DURATION as int, now as int) == ANIMATION_DURATION,
    ensures
        sampled(v, v.target, now) == (
            AnimationView { clock: None, active: false, ..v },
            resting(v.target),
        ),
{
    lemma_scale();
    lemma_smootherstep_bounds(0, ANIMATION_DURATION as int);
}

/// A redraw asks for a new layout at most once: asking again for the same
/// redraw answers no and changes nothing.
pub proof fn lemma_layout_once_per_redraw(v: AnimationView, redraw: u64)
    ensures
        !layout_requested(layout_requested(v, redraw).1, redraw).0,
        layout_requested(layout_requested(v, redraw).1, redraw).1 == layout_requested(v, redraw).1,
{
}

/// While a transition runs, its clock's position is exactly the time that
/// has passed since it started, and towards the other end what is left of
/// the duration; before the start it is at zero, after the end at the end.
pub proof fn lemma_position_is_elapsed_time(start: i128, d: int, now: int)
    requires
        0 <= d,
    ensures
        start <= now <= start + d ==> towards(Some(start), d, true, now) == now - start,
        start <= now <= start + d ==> towards(Some(start), d, false, now) == d - (now - start),
        now <= start ==> towards(Some(start), d, true, now) == 0,
        now >= start + d ==> towards(Some(start), d, true, now) == d,
{
}

/// An animation at rest asks for no redraw and no layout, and is left as it
/// is; a running one always asks for a redraw.
pub proof fn lemma_rest_asks_for_nothing(v: AnimationView, redraw: u64)
    ensures
        !v.active ==> redraw_spec(v, redraw).0.request_redraw == false
            && redraw_spec(v, redraw).0.invalidate_layout == false && redraw_spec(v, redraw).1 == v,
        v.active ==> redraw_spec(v, redraw).0.request_redraw == true,
        v.active ==> redraw_spec(v, redraw).0.invalidate_layout == (v.last_layout_request != Some(
            redraw,
        )),
{
}

} // verus!
