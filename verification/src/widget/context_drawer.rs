//! The context drawer: a pane with a header, scrollable content and an
//! optional footer, that slides in from the trailing edge of the window or
//! opens as an overlay.

use vstd::prelude::*;
use crate::anim::{
    self, AnimationView, RedrawActions, ANIMATION_DURATION, PROGRESS_SCALE, sampled, turned,
    layout_requested, redraw_spec,
};

verus! {

/// One layout of the drawer: only an animated change of target turns the
/// transition; then the progress is read.
pub open spec fn drawer_step(v: AnimationView, target: bool, animating: bool, now: u64) -> (
    AnimationView,
    int,
) {
    if animating && target != v.target {
        sampled(turned(v, target, now), target, now)
    } else {
        sampled(v, target, now)
    }
}

/// Animation state of the drawer's slide and of the overlay it opens.
pub struct DrawerAnimation {
    animation: anim::State,
    target: bool,
    active: bool,
    last_layout_request: Option<u64>,
}

impl View for DrawerAnimation {
    type V = AnimationView;

    closed spec fn view(&self) -> AnimationView {
        AnimationView {
            clock: self.animation@,
            target: self.target,
            active: self.active,
            last_layout_request: self.last_layout_request,
        }
    }
}

impl Default for DrawerAnimation {
    fn default() -> (s: Self)
        ensures
            s@ == AnimationView::initial(),
    {
        Self {
            animation: anim::State::new(),
            target: false,
            active: false,
            last_layout_request: None,
        }
    }
}

impl DrawerAnimation {
    /// A closed drawer at rest.
    pub fn new() -> (s: Self)
        ensures
            s@ == AnimationView::initial(),
            s@.wf(),
    {
        Self::default()
    }

    /// The progress of the drawer towards `target` at the clock time `now`,
    /// as a numerator over [`PROGRESS_SCALE`]: `PROGRESS_SCALE` is fully open
    /// and `0` is hidden.
    pub fn progress(&mut self, target: bool, animating: bool, now: u64) -> (p: u128)
        ensures
            (final(self)@, p as int) == drawer_step(old(self)@, target, animating, now),
            p <= PROGRESS_SCALE,
            old(self)@.wf() ==> final(self)@.wf(),
            final(self)@.last_layout_request == old(self)@.last_layout_request,
            // a drawer at rest asked for the target it has stays at rest there
            !old(self)@.active && target == old(self)@.target ==> final(self)@ == old(self)@ && p == if target {
                PROGRESS_SCALE
            } else {
                0
            },
    {
        let ghost v0 = self@;
        proof {
            if !v0.active && target == v0.target {
                lemma_drawer_rests_at_its_target(v0, target, animating, now);
            }
        }
        if animating && target != self.target {
            if self.active {
                self.animation.changed(ANIMATION_DURATION, now);
            } else {
                self.animation = anim::State::new();
                self.animation.changed(ANIMATION_DURATION, now);
            }
            self.target = target;
            self.active = true;
            assert(self@ == turned(v0, target, now));
        }
        let ghost v1 = self@;
        proof {
            anim::lemma_sampled(v1, target, now);
        }
        if !self.active {
            return if target {
                PROGRESS_SCALE
            } else {
                0
            };
        }
        let t = self.animation.t(ANIMATION_DURATION, self.target, now);
        proof {
            anim::lemma_scale();
        }
        let progress = anim::smootherstep(t, ANIMATION_DURATION);
        if (self.target && t >= ANIMATION_DURATION) || (!self.target && t == 0) {
            self.animation = anim::State::new();
            self.active = false;
        }
        progress
    }

    /// Whether a transition is running.
    pub fn active(&self) -> (r: bool)
        ensures
            r == self@.active,
    {
        self.active
    }

    /// Whether the redraw `redraw` still needs a new layout; each redraw
    /// asks for one only once.
    pub fn needs_layout_for(&mut self, redraw: u64) -> (r: bool)
        ensures
            (r, final(self)@) == layout_requested(old(self)@, redraw),
    {
        if self.last_layout_request == Some(redraw) {
            false
        } else {
            self.last_layout_request = Some(redraw);
            true
        }
    }

    /// What the drawer's slide does when the redraw `redraw` is requested.
    pub fn redraw_requested(&mut self, redraw: u64) -> (r: RedrawActions)
        ensures
            (r, final(self)@) == redraw_spec(old(self)@, redraw),
            // at rest nothing is asked for and nothing changes
            !old(self)@.active ==> !r.request_redraw && !r.invalidate_layout && final(self)@ == old(
                self,
            )@,
            old(self)@.active ==> r.request_redraw,
    {
        proof {
            anim::lemma_rest_asks_for_nothing(self@, redraw);
        }
        if self.active() {
            let relayout = self.needs_layout_for(redraw);
            RedrawActions { request_redraw: true, invalidate_layout: relayout }
        } else {
            RedrawActions { request_redraw: false, invalidate_layout: false }
        }
    }
}

/// The theme's spacing steps used by the drawer, in logical pixels.
#[derive(Clone, Copy, Debug, PartialEq, Eq, Structural)]
pub struct Spacing {
    pub space_xxs: u16,
    pub space_s: u16,
    pub space_m: u16,
    pub space_l: u16,
}

/// What stands in the leading slot of the drawer's header row, before the
/// close button.
#[derive(Clone, Copy, Debug, PartialEq, Eq, Structural)]
pub enum HeaderSlot {
    /// The caller's actions; the title then goes on a line of its own.
    Actions,
    /// The title.
    Title,
    /// An empty space that pushes the close button to the trailing edge.
    Spacer,
}

/// The arrangement of a drawer pane.
#[derive(Clone, Copy, Debug, PartialEq, Eq, Structural)]
pub struct DrawerLayout {
    /// Padding on both sides of header, content and footer.
    pub horizontal_padding: u16,
    /// Padding above and below the header, and the spacing between its lines.
    pub header_spacing: u16,
    pub header_slot: HeaderSlot,
    /// Whether the title stands on a line of its own below the header row.
    pub title_below: bool,
    /// Padding below the scrollable content.
    pub content_bottom_padding: u16,
    /// Vertical padding around the footer, when there is one.
    pub footer_vertical_padding: Option<u16>,
    /// Whether the pane's background is transparent.
    pub transparent: bool,
    /// Whether the pane slides in; an overlay drawer is shown as it is.
    pub slides: bool,
}

/// Arranges a drawer pane. `narrow` tells whether the drawer's maximum width
/// is below the width at which it uses the small padding.
pub fn drawer_layout(
    has_title: bool,
    has_actions: bool,
    has_footer: bool,
    narrow: bool,
    overlay: bool,
    spacing: Spacing,
) -> (l: DrawerLayout)
    ensures
        l.horizontal_padding == if narrow {
            spacing.space_s
        } else {
            spacing.space_l
        },
        l.header_spacing == spacing.space_m,
        l.header_slot == if has_actions {
            HeaderSlot::Actions
        } else if has_title {
            HeaderSlot::Title
        } else {
            HeaderSlot::Spacer
        },
        l.title_below == (has_actions && has_title),
        l.content_bottom_padding == if has_footer {
            0
        } else {
            spacing.space_l
        },
        l.footer_vertical_padding == if has_footer {
            Some(spacing.space_xxs)
        } else {
            None::<u16>
        },
        l.transparent == !overlay,
        l.slides == !overlay,
{
    let horizontal_padding = if narrow {
        spacing.space_s
    } else {
        spacing.space_l
    };
    let (header_slot, title_below) = if has_actions {
        (HeaderSlot::Actions, has_title)
    } else if has_title {
        (HeaderSlot::Title, false)
    } else {
        (HeaderSlot::Spacer, false)
    };
    let footer_vertical_padding = if has_footer {
        Some(spacing.space_xxs)
    } else {
        None
    };
    DrawerLayout {
        horizontal_padding,
        header_spacing: spacing.space_m,
        header_slot,
        title_below,
        content_bottom_padding: if has_footer {
            0
        } else {
            spacing.space_l
        },
        footer_vertical_padding,
        transparent: !overlay,
        slides: !overlay,
    }
}

/// Turning a running drawer around shows, at that instant, the progress that
/// continuing it would have shown: the drawer reverses from where it is.
pub proof fn lemma_drawer_reverses_in_place(v: AnimationView, now: u64)
    requires
        v.active,
    ensures
        drawer_step(v, !v.target, true, now).1 == drawer_step(v, v.target, true, now).1,
{
    anim::lemma_turn_keeps_position(v, now);
}

/// An animated drawer that starts moving from rest starts where it rested:
/// opening starts hidden, closing starts fully open, and the transition runs.
pub proof fn lemma_drawer_starts_from_rest(v: AnimationView, target: bool, now: u64)
    requires
        !v.active,
        target != v.target,
    ensures
        drawer_step(v, target, true, now) == (
            AnimationView { clock: Some(now as i128), target, active: true, ..v },
            anim::resting(v.target),
        ),
{
    anim::lemma_start_from_rest(v, target, now);
}

/// Once a drawer has moved for the full duration it rests at its target.
pub proof fn lemma_drawer_settles(v: AnimationView, animating: bool, now: u64)
    requires
        v.active,
        anim::position(v.clock, ANIMATION_DURATION as int, now as int) == ANIMATION_DURATION,
    ensures
        drawer_step(v, v.target, animating, now) == (
            AnimationView { clock: None, active: false, ..v },
            anim::resting(v.target),
        ),
{
    anim::lemma_finish(v, now);
}

/// Without animation a drawer at rest shows the requested state at once and
/// stays as it was.
pub proof fn lemma_drawer_stays_put_without_animation(v: AnimationView, target: bool, now: u64)
    requires
        !v.active,
    ensures
        drawer_step(v, target, false, now) == (v, anim::resting(target)),
{
}

/// A drawer at rest that is asked for the target it already has stays at
/// rest and shows that target's resting progress, whether animating or not:
/// fully open when open, hidden when closed.
pub proof fn lemma_drawer_rests_at_its_target(
    v: AnimationView,
    target: bool,
    animating: bool,
    now: u64,
)
    requires
        !v.active,
        target == v.target,
    ensures
        drawer_step(v, target, animating, now).0 == v,
        drawer_step(v, target, animating, now).1 == if target {
            PROGRESS_SCALE as int
        } else {
            0
        },
{
}

} // verus!
