# buoyant

SwiftUI-like layout for small displays. Verus proves the layout and the render
trees of every view, the event-handling step of each view that handles events,
and the walk of an event through a table's cells.

## Layout

- `src/primitives.rs`, `src/layout.rs`: sizes, proposals, alignment and the
  environment a view is laid out in.
- `src/view.rs`: the `ViewLayout` trait. Each view states its layout and its
  render tree as spec functions, and its executable `layout` and `render_tree`
  are proved to compute exactly those.
- `src/view/`: the views — shapes, text, stacks (`stack.rs` holds the shared
  priority-ordered space allocation), `ForEach`, tables, scroll views, buttons,
  pagination — and `src/view/modifier/` for the modifiers wrapping them.
- `src/event.rs`, `src/focus.rs`: input events, focus groups and what a view
  answers to an event.
- `src/render.rs`: the render trees views produce.

Views that keep state between events (buttons, scroll views, pagination,
popovers, tables) expose that state as a plain value and their event handling as
functions from state and event to the next state and an answer; the caller
keeps the state and runs any action they report. Views that hand events on to
their children (`ForEach`, backgrounds, overlays, cancel handlers) answer from what their
children answered. Views that take part in focus and keyboard navigation
implement `EventView`, which states what they answer and how their state and
focus change; a table hands events to its cells through it, walking focus from
cell to cell while they defer. Other views are not yet `EventView`s, so handing
an event to a whole tree of them is left to the caller.

## Around the library

`app/` adapts the embedded-graphics ecosystem to the library: touches from
`embedded-touch`, metrics of embedded-graphics monospace fonts, image sizes,
fixed-point scale factors, formatted text in a `heapless::String`, and gradient
fills, whose weights are computed in floating point.
