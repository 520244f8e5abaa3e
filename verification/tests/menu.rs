use cosmic::widget::menu::{list_update, row_highlight, Highlight, ListEvent, ListOutcome, Pointer};

fn quiet(hovered: Option<usize>) -> ListOutcome {
    ListOutcome {
        hovered,
        request_redraw: false,
        hover_message: None,
        selected: None,
        close: false,
        captured: false,
    }
}

#[test]
fn click_selects_the_hovered_option_and_closes() {
    let o = list_update(Some(2), ListEvent::LeftButtonPressed { cursor_over: true }, true, false);
    assert_eq!(o.selected, Some(2));
    assert!(o.close);
    assert!(o.captured);
    assert_eq!(o.hovered, Some(2));
    assert!(!o.request_redraw);

    let o = list_update(Some(2), ListEvent::LeftButtonPressed { cursor_over: true }, false, false);
    assert_eq!(o.selected, Some(2));
    assert!(!o.close);
    assert!(o.captured);
}

#[test]
fn click_outside_or_between_options_selects_nothing() {
    let outside = list_update(Some(1), ListEvent::LeftButtonPressed { cursor_over: false }, true, true);
    assert_eq!(outside, quiet(Some(1)));
    let between = list_update(None, ListEvent::LeftButtonPressed { cursor_over: true }, true, true);
    assert_eq!(between, quiet(None));
}

#[test]
fn moving_onto_a_new_option_redraws_and_announces_it() {
    let o = list_update(None, ListEvent::CursorMoved(Pointer::Inside(Some(3))), true, true);
    assert_eq!(o.hovered, Some(3));
    assert!(o.request_redraw);
    assert_eq!(o.hover_message, Some(3));
    assert_eq!(o.selected, None);
    assert!(!o.captured);

    // Without a hover callback nothing is announced.
    let o = list_update(None, ListEvent::CursorMoved(Pointer::Inside(Some(3))), true, false);
    assert!(o.request_redraw);
    assert_eq!(o.hover_message, None);
}

#[test]
fn moving_within_the_same_option_does_nothing() {
    let o = list_update(Some(3), ListEvent::CursorMoved(Pointer::Inside(Some(3))), true, true);
    assert_eq!(o, quiet(Some(3)));
}

#[test]
fn moving_between_options_clears_the_hover_without_message() {
    let o = list_update(Some(3), ListEvent::CursorMoved(Pointer::Inside(None)), true, true);
    assert_eq!(o.hovered, None);
    assert!(o.request_redraw);
    assert_eq!(o.hover_message, None);
}

#[test]
fn leaving_the_list_clears_the_hover() {
    let o = list_update(Some(0), ListEvent::CursorMoved(Pointer::Outside), true, true);
    assert_eq!(o.hovered, None);
    assert!(o.request_redraw);
    let o = list_update(Some(0), ListEvent::CursorLeft, true, true);
    assert_eq!(o.hovered, None);
    assert!(o.request_redraw);
    // Nothing to clear, nothing to redraw.
    assert_eq!(list_update(None, ListEvent::CursorLeft, true, true), quiet(None));
}

#[test]
fn tapping_selects_the_option_under_the_finger() {
    let o = list_update(None, ListEvent::FingerPressed(Pointer::Inside(Some(4))), true, true);
    assert_eq!(o.hovered, Some(4));
    assert_eq!(o.selected, Some(4));
    assert!(o.close);
    assert!(o.captured);
    assert!(!o.request_redraw);

    let between = list_update(Some(4), ListEvent::FingerPressed(Pointer::Inside(None)), true, true);
    assert_eq!(between, quiet(None));

    let outside = list_update(Some(4), ListEvent::FingerPressed(Pointer::Outside), true, true);
    assert_eq!(outside, quiet(Some(4)));
}

#[test]
fn other_events_are_ignored() {
    assert_eq!(list_update(Some(1), ListEvent::Other, true, true), quiet(Some(1)));
}

#[test]
fn selected_row_wins_over_hovered_row() {
    assert_eq!(row_highlight(2, Some(2), Some(2)), Highlight::Selected);
    assert_eq!(row_highlight(2, Some(1), Some(2)), Highlight::Hovered);
    assert_eq!(row_highlight(2, Some(1), Some(3)), Highlight::Plain);
    assert_eq!(row_highlight(0, None, None), Highlight::Plain);
}
