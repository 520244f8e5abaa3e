//! The option list of a dropdown menu: which option the pointer hovers,
//! which one a click or a tap selects, and how each row is highlighted.
//!
//! The position of the pointer is turned into an option index by the caller,
//! from the laid-out geometry of the list.

use vstd::prelude::*;

verus! {

/// Where the pointer is, relative to the list's bounds.
#[derive(Clone, Copy, Debug, PartialEq, Eq, Structural)]
pub enum Pointer {
    Outside,
    /// Inside the bounds, over the given option, or between options.
    Inside(Option<usize>),
}

/// The input events that the list reacts to.
#[derive(Clone, Copy, Debug, PartialEq, Eq, Structural)]
pub enum ListEvent {
    /// The left mouse button went down; `cursor_over` tells whether the
    /// cursor is over the list.
    LeftButtonPressed { cursor_over: bool },
    CursorMoved(Pointer),
    CursorLeft,
    FingerPressed(Pointer),
    /// Any other event, which the list ignores.
    Other,
}

/// What the list does in answer to an event: the option it hovers
/// afterwards, and the messages and requests it emits, in this order:
/// a redraw, the hover message, the selection, the close message, and the
/// capture of the event.
#[derive(Clone, Copy, Debug, PartialEq, Eq, Structural)]
pub struct ListOutcome {
    pub hovered: Option<usize>,
    pub request_redraw: bool,
    /// The option for which the hover message is published.
    pub hover_message: Option<usize>,
    /// The option for which the selection message is published.
    pub selected: Option<usize>,
    /// Whether the close message is published after the selection.
    pub close: bool,
    pub captured: bool,
}

/// Nothing happens, and the hovered option stays `hovered`.
pub open spec fn unchanged(hovered: Option<usize>) -> ListOutcome {
    ListOutcome {
        hovered,
        request_redraw: false,
        hover_message: None,
        selected: None,
        close: false,
        captured: false,
    }
}

/// The option `choice` is selected, and with it the menu may close.
pub open spec fn selecting(hovered: Option<usize>, choice: Option<usize>, has_close: bool) -> ListOutcome {
    ListOutcome {
        hovered,
        request_redraw: false,
        hover_message: None,
        selected: choice,
        close: choice is Some && has_close,
        captured: choice is Some,
    }
}

/// The list's answer to `event` while `hovered` is hovered. `has_close` tells
/// whether a close message goes with a selection, `has_hover_message`
/// whether hovering a new option is published.
pub open spec fn list_step(
    hovered: Option<usize>,
    event: ListEvent,
    has_close: bool,
    has_hover_message: bool,
) -> ListOutcome {
    match event {
        ListEvent::LeftButtonPressed { cursor_over } => if cursor_over {
            selecting(hovered, hovered, has_close)
        } else {
            unchanged(hovered)
        },
        ListEvent::CursorMoved(Pointer::Inside(option)) => ListOutcome {
            hovered: option,
            request_redraw: hovered != option,
            hover_message: if hovered != option && has_hover_message {
                option
            } else {
                None
            },
            ..unchanged(hovered)
        },
        ListEvent::CursorMoved(Pointer::Outside) | ListEvent::CursorLeft => ListOutcome {
            hovered: None,
            request_redraw: hovered is Some,
            ..unchanged(hovered)
        },
        ListEvent::FingerPressed(Pointer::Inside(option)) => selecting(option, option, has_close),
        ListEvent::FingerPressed(Pointer::Outside) | ListEvent::Other => unchanged(hovered),
    }
}

/// Reacts to `event` while `hovered` is the hovered option.
pub fn list_update(
    hovered: Option<usize>,
    event: ListEvent,
    has_close: bool,
    has_hover_message: bool,
) -> (o: ListOutcome)
    ensures
        o == list_step(hovered, event, has_close, has_hover_message),
        // a selection is always the option under the pointer
        o.selected is Some ==> o.selected == o.hovered,
        // the menu closes only on a selection, and a selection ends the event
        o.close ==> o.selected is Some && has_close,
        o.captured <==> o.selected is Some,
        // a hover message names a newly hovered option
        o.hover_message is Some ==> has_hover_message && o.hover_message == o.hovered
            && o.hovered != hovered,
        // the list is redrawn exactly when the hovered option changes by moving
        o.request_redraw ==> o.hovered != hovered,
        (event is CursorMoved || event is CursorLeft) ==> (o.request_redraw <==> o.hovered != hovered),
        event matches ListEvent::CursorMoved(Pointer::Inside(option)) ==> o.hovered == option,
        // hovering a new option announces it when a hover message is wanted
        event matches ListEvent::CursorMoved(Pointer::Inside(option)) ==> (option is Some && option
            != hovered && has_hover_message ==> o.hover_message == option),
        // a click over the list selects the hovered option; a tap selects the tapped one
        event == (ListEvent::LeftButtonPressed { cursor_over: true }) ==> o.selected == hovered,
        event matches ListEvent::FingerPressed(Pointer::Inside(option)) ==> o.selected == option
            && o.hovered == option,
        event is Other ==> o.hovered == hovered && !o.request_redraw && o.hover_message is None
            && o.selected is None && !o.close && !o.captured,
{
    let mut o = ListOutcome {
        hovered,
        request_redraw: false,
        hover_message: None,
        selected: None,
        close: false,
        captured: false,
    };
    match event {
        ListEvent::LeftButtonPressed { cursor_over } => {
            if cursor_over {
                if let Some(index) = hovered {
                    o.selected = Some(index);
                    o.close = has_close;
                    o.captured = true;
                }
            }
        },
        ListEvent::CursorMoved(Pointer::Inside(option)) => {
            if hovered != option {
                o.request_redraw = true;
                if has_hover_message {
                    if let Some(index) = option {
                        o.hover_message = Some(index);
                    }
                }
            }
            o.hovered = option;
        },
        ListEvent::CursorMoved(Pointer::Outside) | ListEvent::CursorLeft => {
            if hovered.is_some() {
                o.hovered = None;
                o.request_redraw = true;
            }
        },
        ListEvent::FingerPressed(Pointer::Inside(option)) => {
            o.hovered = option;
            if let Some(index) = option {
                o.selected = Some(index);
                o.close = has_close;
                o.captured = true;
            }
        },
        ListEvent::FingerPressed(Pointer::Outside) | ListEvent::Other => {},
    }
    o
}

/// How a row of the list is drawn.
#[derive(Clone, Copy, Debug, PartialEq, Eq, Structural)]
pub enum Highlight {
    /// The selected option, with a check mark.
    Selected,
    Hovered,
    Plain,
}

/// The highlight of row `row`: the selected option wins over the hovered one.
pub fn row_highlight(row: usize, selected: Option<usize>, hovered: Option<usize>) -> (h: Highlight)
    ensures
        h == if selected == Some(row) {
            Highlight::Selected
        } else if hovered == Some(row) {
            Highlight::Hovered
        } else {
            Highlight::Plain
        },
{
    if selected == Some(row) {
        Highlight::Selected
    } else if hovered == Some(row) {
        Highlight::Hovered
    } else {
        Highlight::Plain
    }
}

/// Moving the pointer onto another option, or off the options, redraws the
/// list and makes that the hovered option; moving within the hovered option
/// changes nothing and redraws nothing.
pub proof fn lemma_moving_redraws_on_change(
    hovered: Option<usize>,
    option: Option<usize>,
    has_close: bool,
    has_hover_message: bool,
)
    ensures
        list_step(hovered, ListEvent::CursorMoved(Pointer::Inside(option)), has_close, has_hover_message).hovered == option,
        list_step(hovered, ListEvent::CursorMoved(Pointer::Inside(option)), has_close, has_hover_message).request_redraw <==> option != hovered,
        list_step(hovered, ListEvent::CursorMoved(Pointer::Outside), has_close, has_hover_message).request_redraw <==> hovered is Some,
        list_step(hovered, ListEvent::CursorLeft, has_close, has_hover_message).request_redraw <==> hovered is Some,
{
}

/// A click over the list selects the hovered option and a tap selects the
/// tapped one, closing the menu when a close message is set; a hover
/// message announces a newly hovered option when one is wanted.
pub proof fn lemma_selection_and_hover_messages(
    hovered: Option<usize>,
    option: Option<usize>,
    has_close: bool,
    has_hover_message: bool,
)
    ensures
        list_step(hovered, ListEvent::LeftButtonPressed { cursor_over: true }, has_close, has_hover_message).selected == hovered,
        list_step(hovered, ListEvent::LeftButtonPressed { cursor_over: true }, has_close, has_hover_message).close == (hovered is Some && has_close),
        list_step(hovered, ListEvent::LeftButtonPressed { cursor_over: false }, has_close, has_hover_message).selected is None,
        list_step(hovered, ListEvent::FingerPressed(Pointer::Inside(option)), has_close, has_hover_message).selected == option,
        list_step(hovered, ListEvent::FingerPressed(Pointer::Inside(option)), has_close, has_hover_message).close == (option is Some && has_close),
        option is Some && option != hovered && has_hover_message ==> list_step(hovered, ListEvent::CursorMoved(Pointer::Inside(option)), has_close, has_hover_message).hover_message == option,
        !has_hover_message ==> list_step(hovered, ListEvent::CursorMoved(Pointer::Inside(option)), has_close, has_hover_message).hover_message is None,
{
}

} // verus!
