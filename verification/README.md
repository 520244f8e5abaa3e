# cosmic widget logic, verified

The decisions behind a few COSMIC widgets, written in Verus and proved
against their contracts:

- `src/anim.rs`: the animation clock (microseconds as integers) and the
  smootherstep easing, kept exact as a numerator over `PROGRESS_SCALE`.
- `src/widget/slide.rs`: the slide's animation state machine, its redraw
  and layout requests, and which events reach its content.
- `src/widget/context_drawer.rs`: the drawer's animation state machine and
  the arrangement of its pane.
- `src/widget/menu.rs`: how the dropdown's option list answers clicks,
  taps and pointer moves, and how rows are highlighted.
- `src/window.rs`: how a window is identified to a portal dialog, and the
  requests that make it a modal dialog.

`app/` holds what the library does not: reading the clock, turning raw
window handles and input events into plain values, and the floating-point
layout arithmetic. `tests/` runs the library on concrete values.
