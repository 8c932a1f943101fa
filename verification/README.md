# rustic_ui_material

Material Design rendering logic for RusticUI components, verified with Verus.

The library turns the plain values a headless component state exposes
(ARIA pairs, flags, option names, breakpoint evaluations) together with the
scoped class names produced by the styled engine into attribute lists, CSS
custom properties and server-side HTML. Every public function states its
result exactly over mathematical models (`Seq<char>` for strings, sequences
of `(key, value)` pairs for attribute lists, `Map` for the ordered CSS
variable map, and the entry sequence for the divider's insertion-ordered
variables).

## Layout

- `src/text.rs`, `src/attr_map.rs`, `src/insertion_map.rs`, `src/markup.rs`:
  string helpers, the key-ordered and the insertion-ordered string maps and
  attribute serialisation (`key="value"` pairs joined by single spaces, the
  themed class first).
- `src/style_helpers.rs`, `src/selector_equivalence.rs`: sanitised automation
  identifiers (`rustic-<component>-...`), `data-rustic-*` hooks, and the law
  that identifiers ignore letter case and separator spelling.
- `src/render_helpers.rs`, `src/responsive_lookup.rs` and the layout modules
  (`stack`, `grid`, `container`, `divider`, `hidden`, `image_list`):
  responsive CSS variables and the laws on what each breakpoint's variables
  hold.
- Component renderers: `accordion`, `avatar`, `badge`, `paper`, `link`,
  `alert`, `backdrop`, `bottom_navigation`, `breadcrumbs`, `pagination`,
  `speed_dial`, `list`, `select`, `rating`, `stepper`, `input_base`,
  `input_events`, `app_bar`, `card`, `dialog`, `click_away`, `focus_trap`, `collapsible`,
  `form_control`, `input_adornment`, `skeleton`, `circular_progress`,
  `linear_progress`, `slider`, `popover`, `popper`, `modal`.
- Selection controls: `selection_control` (attribute builders),
  `descriptor` (toggle and radio-group descriptors), `checkbox`, `switch`,
  `radio`, `interaction`, `telemetry`, `payload` (flat telemetry payloads).
  The checkbox and switch dispatchers return the ordered actions an adapter
  performs for a click, focus, blur or key press: telemetry first, then the
  consumer callbacks with the same payloads.
- `app/`: delivery of the dispatched actions to delegates and callbacks,
  process-wide builder hooks, and the floating-point formatting of progress,
  slider and rating values.
