use cosmic::anim::{ANIMATION_DURATION, PROGRESS_SCALE};
use cosmic::widget::context_drawer::{drawer_layout, DrawerAnimation, HeaderSlot, Spacing};

/// A clock time well away from the clock's zero.
const START: u64 = 1_000_000;

fn fraction(progress: u128) -> f32 {
    progress as f32 / PROGRESS_SCALE as f32
}

/// A clock time long after a transition started at `at` has finished.
fn finished(at: u64) -> u64 {
    at + ANIMATION_DURATION * 2
}

#[test]
fn drawer_animation_opens_and_closes() {
    let mut animation = DrawerAnimation::default();

    // Opening starts hidden.
    assert_eq!(fraction(animation.progress(true, true, START)), 0.0);
    assert!(animation.active());

    let now = finished(START);
    assert_eq!(fraction(animation.progress(true, true, now)), 1.0);
    assert!(!animation.active());

    // Closing starts open.
    assert_eq!(fraction(animation.progress(false, true, now)), 1.0);
    assert!(animation.active());

    let now = finished(now);
    assert_eq!(fraction(animation.progress(false, true, now)), 0.0);
    assert!(!animation.active());
}

#[test]
fn drawer_animation_reverses_midway() {
    let mut animation = DrawerAnimation::default();
    animation.progress(true, true, START);

    // Halfway through opening.
    let now = START + ANIMATION_DURATION / 2;
    let halfway = fraction(animation.progress(true, true, now));
    assert!((0.4..=0.6).contains(&halfway), "halfway={halfway}");

    // Reversing towards closed continues from the current progress.
    let reversed = fraction(animation.progress(false, true, now));
    assert!((0.4..=0.6).contains(&reversed), "reversed={reversed}");
    assert!(animation.active());

    let now = finished(now);
    assert_eq!(fraction(animation.progress(false, true, now)), 0.0);
    assert!(!animation.active());
}

#[test]
fn drawer_animation_stays_put_without_animation() {
    let mut animation = DrawerAnimation::default();

    // Opening without animating jumps to the open position.
    assert_eq!(fraction(animation.progress(true, false, START)), 1.0);
    assert!(!animation.active());

    // Closing without animating jumps to the hidden position.
    assert_eq!(fraction(animation.progress(false, false, START)), 0.0);
    assert!(!animation.active());
}

#[test]
fn drawer_opened_without_animation_still_animates_the_first_change() {
    // Without animation the drawer does not take on the new target, so a
    // later animated request for the same target starts a transition.
    let mut animation = DrawerAnimation::new();
    assert_eq!(animation.progress(true, false, START), PROGRESS_SCALE);
    assert_eq!(animation.progress(true, true, START), 0);
    assert!(animation.active());
}

#[test]
fn drawer_reversal_keeps_the_exact_progress() {
    let mut animation = DrawerAnimation::new();
    animation.progress(true, true, START);
    let now = START + ANIMATION_DURATION / 4;
    let forward = animation.progress(true, true, now);
    let reversed = animation.progress(false, true, now);
    assert_eq!(forward, reversed);
    assert_eq!(forward, PROGRESS_SCALE / 1024 * 106);
}

#[test]
fn drawer_asks_for_one_layout_per_redraw() {
    let mut animation = DrawerAnimation::new();
    assert!(animation.needs_layout_for(3));
    assert!(!animation.needs_layout_for(3));
    animation.progress(true, true, START);
    let actions = animation.redraw_requested(3);
    assert!(actions.request_redraw);
    assert!(!actions.invalidate_layout);
    let actions = animation.redraw_requested(4);
    assert!(actions.invalidate_layout);
}

fn spacing() -> Spacing {
    Spacing { space_xxs: 4, space_s: 8, space_m: 16, space_l: 24 }
}

#[test]
fn drawer_layout_puts_the_title_below_actions() {
    let layout = drawer_layout(true, true, false, false, false, spacing());
    assert_eq!(layout.header_slot, HeaderSlot::Actions);
    assert!(layout.title_below);
    assert_eq!(layout.horizontal_padding, 24);
    assert_eq!(layout.header_spacing, 16);
    assert_eq!(layout.content_bottom_padding, 24);
    assert_eq!(layout.footer_vertical_padding, None);
    assert!(layout.slides);
    assert!(layout.transparent);
}

#[test]
fn drawer_layout_without_actions() {
    let titled = drawer_layout(true, false, true, true, true, spacing());
    assert_eq!(titled.header_slot, HeaderSlot::Title);
    assert!(!titled.title_below);
    assert_eq!(titled.horizontal_padding, 8);
    assert_eq!(titled.content_bottom_padding, 0);
    assert_eq!(titled.footer_vertical_padding, Some(4));
    assert!(!titled.slides);
    assert!(!titled.transparent);

    let bare = drawer_layout(false, false, false, false, false, spacing());
    assert_eq!(bare.header_slot, HeaderSlot::Spacer);
    assert!(!bare.title_below);

    let actions_only = drawer_layout(false, true, false, false, false, spacing());
    assert_eq!(actions_only.header_slot, HeaderSlot::Actions);
    assert!(!actions_only.title_below);
}

#[test]
fn drawer_reverses_in_place_at_the_clock_zero() {
    let mut animation = DrawerAnimation::new();
    animation.progress(true, true, 0);
    let now = ANIMATION_DURATION / 2;
    assert_eq!(animation.progress(true, true, now), PROGRESS_SCALE / 2);
    assert_eq!(animation.progress(false, true, now), PROGRESS_SCALE / 2);
    assert!(animation.active());
}
