//! Animated width transition for widgets that slide in from a window edge.
//!
//! Used by the context drawer and the nav bar. The content is always laid out
//! at its full width, so it does not reflow while the slide animates; the
//! visible region is clipped to a width interpolated between the minimum
//! width and the content's full width by the progress computed here.

use vstd::prelude::*;
use crate::anim::{
    self, AnimationView, RedrawActions, ANIMATION_DURATION, PROGRESS_SCALE, resting, sampled,
    turned, layout_requested, redraw_spec,

};

verus! {

/// One layout of a slide: a change of target without animation jumps to the
/// target and settles; with animation it turns the transition; then the
/// progress is read.
pub open spec fn slide_step(v: AnimationView, target: bool, animating: bool, now: u64) -> (
    AnimationView,
    int,
) {
    if target != v.target && !animating {
        (AnimationView { clock: None, active: false, target, ..v }, resting(target))
    } else if target != v.target {
        sampled(turned(v, target, now), target, now)
    } else {
        sampled(v, target, now)
    }
}

/// Animation state shared by a slide and, for overlay drawers, the overlay it opens.
pub struct SlideAnimation {
    animation: anim::State,
    target: bool,
    active: bool,
    last_layout_request: Option<u64>,
}

impl View for SlideAnimation {
    type V = AnimationView;

    closed spec fn view(&self) -> AnimationView {
        AnimationView {
            clock: self.animation@,
            target: self.target,
            active: self.active,
            last_layout_request: self.last_layout_request,
        }
    }
}

impl Default for SlideAnimation {
    fn default() -> (s: Self)
        ensures
            s@ == AnimationView::initial(),
    {
        SlideAnimation {
            animation: anim::State::new(),
            target: false,
            active: false,
            last_layout_request: None,
        }
    }
}

impl SlideAnimation {
    /// A closed slide at rest.
    pub fn new() -> (s: Self)
        ensures
            s@ == AnimationView::initial(),
            s@.wf(),
    {
        Self::default()
    }

    /// The progress of the slide towards `target` at the clock time `now`,
    /// as a numerator over [`PROGRESS_SCALE`]: `PROGRESS_SCALE` is fully open
    /// and `0` is hidden.
    pub fn progress(&mut self, target: bool, animating: bool, now: u64) -> (p: u128)
        ensures
            (final(self)@, p as int) == slide_step(old(self)@, target, animating, now),
            p <= PROGRESS_SCALE,
            old(self)@.wf() ==> final(self)@.wf(),
            final(self)@.target == target,
            final(self)@.last_layout_request == old(self)@.last_layout_request,
            // a slide at rest asked for the target it has stays at rest there
            !old(self)@.active && target == old(self)@.target ==> final(self)@ == old(self)@ && p == if target {
                PROGRESS_SCALE
            } else {
                0
            },
    {
        let ghost v0 = self@;
        if target != self.target {
            if !animating {
                // Settle at the target, so a later transition animates from here
                self.animation = anim::State::new();
                self.active = false;
                self.target = target;
                return if target {
                    PROGRESS_SCALE
                } else {
                    0
                };
            }
            if self.active {
                self.animation.changed(ANIMATION_DURATION, now);
            } else {
                self.animation = anim::State::new();
                self.animation.changed(ANIMATION_DURATION, now);
            }
            self.target = target;
            self.active = true;
            assert(self@ == turned(v0, target, now));
        }
        let ghost v1 = self@;
        proof {
            anim::lemma_sampled(v1, target, now);
        }
        if !self.active {
            return if target {
                PROGRESS_SCALE
            } else {
                0
            };
        }
        let t = self.animation.t(ANIMATION_DURATION, self.target, now);
        proof {
            anim::lemma_scale();
        }
        let progress = anim::smootherstep(t, ANIMATION_DURATION);
        if (self.target && t >= ANIMATION_DURATION) || (!self.target && t == 0) {
            self.animation = anim::State::new();
            self.active = false;
        }
        progress
    }

    /// Whether a transition is running.
    pub fn active(&self) -> (r: bool)
        ensures
            r == self@.active,
    {
        self.active
    }

    /// Whether the redraw `redraw` still needs a new layout; each redraw
    /// asks for one only once.
    pub fn needs_layout_for(&mut self, redraw: u64) -> (r: bool)
        ensures
            (r, final(self)@) == layout_requested(old(self)@, redraw),
    {
        if self.last_layout_request == Some(redraw) {
            false
        } else {
            self.last_layout_request = Some(redraw);
            true
        }
    }

    /// What the slide does when the redraw `redraw` is requested.
    pub fn redraw_requested(&mut self, redraw: u64) -> (r: RedrawActions)
        ensures
            (r, final(self)@) == redraw_spec(old(self)@, redraw),
            // at rest nothing is asked for and nothing changes
            !old(self)@.active ==> !r.request_redraw && !r.invalidate_layout && final(self)@ == old(
                self,
            )@,
            old(self)@.active ==> r.request_redraw,
    {
        proof {
            anim::lemma_rest_asks_for_nothing(self@, redraw);
        }
        if self.active() {
            let relayout = self.needs_layout_for(redraw);
            RedrawActions { request_redraw: true, invalidate_layout: relayout }
        } else {
            RedrawActions { request_redraw: false, invalidate_layout: false }
        }
    }
}

/// The mouse interaction a slide shows: its content's while the cursor is
/// over the visible region, `none` elsewhere.
pub fn mouse_interaction<T>(cursor_over: bool, content: T, none: T) -> (r: T)
    ensures
        r == if cursor_over {
            content
        } else {
            none
        },
{
    if cursor_over {
        content
    } else {
        none
    }
}

/// Whether the slide hands an event on to its content: pointer events
/// outside the visible region are not.
pub fn forwards_event(pointer_event: bool, cursor_over: bool) -> (r: bool)
    ensures
        r == (!pointer_event || cursor_over),
{
    !(pointer_event && !cursor_over)
}

/// Turning a running slide around shows, at that instant, the progress that
/// continuing it would have shown: the slide reverses from where it is.
pub proof fn lemma_slide_reverses_in_place(v: AnimationView, now: u64)
    requires
        v.active,
    ensures
        slide_step(v, !v.target, true, now).1 == slide_step(v, v.target, true, now).1,
{
    anim::lemma_turn_keeps_position(v, now);
}

/// An animated slide that starts moving from rest starts where it rested:
/// opening starts hidden, closing starts fully open, and the transition runs.
pub proof fn lemma_slide_starts_from_rest(v: AnimationView, target: bool, now: u64)
    requires
        !v.active,
        target != v.target,
    ensures
        slide_step(v, target, true, now) == (
            AnimationView { clock: Some(now as i128), target, active: true, ..v },
            resting(v.target),
        ),
{
    anim::lemma_start_from_rest(v, target, now);
}

/// Once a slide has moved for the full duration it rests at its target.
pub proof fn lemma_slide_settles(v: AnimationView, animating: bool, now: u64)
    requires
        v.active,
        anim::position(v.clock, ANIMATION_DURATION as int, now as int) == ANIMATION_DURATION,
    ensures
        slide_step(v, v.target, animating, now) == (
            AnimationView { clock: None, active: false, ..v },
            resting(v.target),
        ),
{
    anim::lemma_finish(v, now);
}

/// Without animation a slide jumps to its new target and rests there, so
/// that a later transition starts from there.
pub proof fn lemma_slide_jumps_without_animation(v: AnimationView, target: bool, now: u64)
    requires
        target != v.target,
    ensures
        slide_step(v, target, false, now) == (
            AnimationView { clock: None, active: false, target, ..v },
            resting(target),
        ),
{
}

/// A slide at rest that keeps its target stays at rest.
pub proof fn lemma_slide_stays_at_rest(v: AnimationView, animating: bool, now: u64)
    requires
        !v.active,
    ensures
        slide_step(v, v.target, animating, now) == (v, resting(v.target)),
{
}

} // verus!
